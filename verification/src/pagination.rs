//! A lazily-advancing, cursor-based view of a paged remote collection.
//!
//! A `Pagination` owns a fetch function, an immutable context of key/value
//! strings handed to every fetch, and a monotonically advancing offset
//! cursor.  Pages are drawn one fetch at a time; a failed fetch leaves the
//! cursor where it was, so a retry re-issues the identical request.
use vstd::prelude::*;

verus! {

/// One batch of items returned by a single fetch, together with the
/// server-reported count of the entire remote collection.
#[derive(Clone, Debug, PartialEq)]
pub struct PageResponse<T> {
    pub items: Vec<T>,
    pub total: u32,
}

/// A fetch error, wrapped with the offset at which the failing fetch was
/// issued so the caller can diagnose or retry it.
#[derive(Clone, Debug, PartialEq)]
pub struct PageError<E> {
    pub offset: u32,
    pub source: E,
}

/// The spec-level state of a `Pagination`: everything but the fetch function.
pub struct PageState {
    pub cursor: u32,
    pub total: Option<u32>,
    pub page_size: Option<usize>,
    pub exhausted: bool,
    pub context: Seq<(String, String)>,
}

/// The cursor state machine alone: what advances when a page or an error
/// arrives.  A driver that performs its own fetches (for instance an
/// asynchronous one) steps this directly; `Pagination` binds it to a
/// synchronous fetch function.
#[derive(Clone, Copy, Debug, PartialEq, Eq, Structural)]
pub struct PageCursor {
    pub cursor: u32,
    pub total: Option<u32>,
    pub page_size: Option<usize>,
    pub exhausted: bool,
}

impl PageCursor {
    /// A fresh cursor: at offset zero, nothing known, nothing exhausted.
    pub fn new() -> (r: Self)
        ensures
            r == (PageCursor { cursor: 0, total: None, page_size: None, exhausted: false }),
    {
        PageCursor { cursor: 0, total: None, page_size: None, exhausted: false }
    }

    /// The offset the next fetch should use, or `None` once the sequence is
    /// exhausted and no fetch should be issued at all.
    pub fn next_offset(&self) -> (r: Option<u32>)
        ensures
            self.exhausted ==> r is None,
            !self.exhausted ==> r == Some(self.cursor),
    {
        if self.exhausted {
            None
        } else {
            Some(self.cursor)
        }
    }

    /// Records one fetched page: the cursor advances by the number of items
    /// actually returned, and an empty page, or one shorter than the first
    /// page seen, exhausts the sequence.  A fetch error records nothing: the
    /// caller simply does not call this, so a retry re-issues the identical
    /// request.
    pub fn apply_page(&mut self, len: usize, total: u32)
        ensures
            final(self).cursor == sat_add_u32(old(self).cursor, len as int),
            final(self).total == Some(total),
            final(self).exhausted == (old(self).exhausted || len == 0 || (
            old(self).page_size matches Some(ps) && len < ps)),
            final(self).page_size == (if old(self).page_size is Some {
                old(self).page_size
            } else if len > 0 {
                Some(len)
            } else {
                None::<usize>
            }),
    {
        if len == 0 || (match self.page_size {
            Some(ps) => len < ps,
            None => false,
        }) {
            self.exhausted = true;
        }
        if self.page_size.is_none() && len > 0 {
            self.page_size = Some(len);
        }
        self.total = Some(total);
        self.cursor = if len >= (u32::MAX - self.cursor) as usize {
            u32::MAX
        } else {
            self.cursor + len as u32
        };
    }
}

#[verifier::reject_recursive_types(T)]
#[verifier::reject_recursive_types(E)]
pub struct Pagination<T, E, F> where F: Fn(u32, &Vec<(String, String)>) -> Result<
    PageResponse<T>,
    E,
> {
    fetch: F,
    context: Vec<(String, String)>,
    state: PageCursor,
}

impl<T, E, F> View for Pagination<T, E, F> where F: Fn(u32, &Vec<(String, String)>) -> Result<
    PageResponse<T>,
    E,
> {
    type V = PageState;

    closed spec fn view(&self) -> PageState {
        PageState {
            cursor: self.state.cursor,
            total: self.state.total,
            page_size: self.state.page_size,
            exhausted: self.state.exhausted,
            context: self.context@,
        }
    }
}

impl<T, E, F> Pagination<T, E, F> where F: Fn(u32, &Vec<(String, String)>) -> Result<
    PageResponse<T>,
    E,
> {
    /// The fetch function bound at construction.
    pub closed spec fn fetch_fn(self) -> F {
        self.fetch
    }

    /// The context vector handed to every fetch.
    pub closed spec fn ctx(self) -> Vec<(String, String)> {
        self.context
    }

    /// The fetch function accepts any offset together with this sequence's
    /// context; holds trivially of closures without a `requires`.
    pub open spec fn fetch_callable(self) -> bool {
        forall|off: u32| call_requires(self.fetch_fn(), (off, &self.ctx()))
    }

    /// Binds the fetch function and the context; the cursor starts at zero.
    pub fn new(fetch: F, context: Vec<(String, String)>) -> (s: Self)
        ensures
            s.fetch_fn() == fetch,
            s.ctx() == context,
            s@.cursor == 0,
            s@.total is None,
            s@.page_size is None,
            !s@.exhausted,
            s@.context == context@,
    {
        Pagination { fetch, context, state: PageCursor::new() }
    }

    /// Issues one fetch at the current cursor and advances the cursor by the
    /// number of items actually returned.  An empty page, or one shorter than
    /// the first page seen, exhausts the sequence: later calls return an
    /// empty page without fetching.  On a fetch error nothing changes, so a
    /// retry re-issues the identical request.
    pub fn next_page(&mut self) -> (r: Result<Vec<T>, PageError<E>>)
        requires
            old(self).fetch_callable(),
        ensures
            final(self).fetch_fn() == old(self).fetch_fn(),
            final(self).ctx() == old(self).ctx(),
            final(self)@.context == old(self)@.context,
            final(self)@.cursor >= old(self)@.cursor,
            old(self)@.exhausted ==> {
                &&& *final(self) == *old(self)
                &&& r matches Ok(v) && v@ == Seq::<T>::empty()
            },
            !old(self)@.exhausted ==> match r {
                Ok(items) => exists|resp: PageResponse<T>|
                    {
                        &&& call_ensures(
                            old(self).fetch_fn(),
                            (old(self)@.cursor, &old(self).ctx()),
                            Ok(resp),
                        )
                        &&& items == resp.items
                        &&& final(self)@.total == Some(resp.total)
                        &&& final(self)@.cursor == sat_add_u32(
                            old(self)@.cursor,
                            items@.len() as int,
                        )
                        &&& final(self)@.exhausted == (items@.len() == 0 || (
                        old(self)@.page_size matches Some(ps) && items@.len() < ps))
                        &&& final(self)@.page_size == (if old(self)@.page_size is Some {
                            old(self)@.page_size
                        } else if items@.len() > 0 {
                            Some(items@.len() as usize)
                        } else {
                            None::<usize>
                        })
                    },
                Err(pe) => {
                    &&& *final(self) == *old(self)
                    &&& pe.offset == old(self)@.cursor
                    &&& call_ensures(
                        old(self).fetch_fn(),
                        (old(self)@.cursor, &old(self).ctx()),
                        Err(pe.source),
                    )
                },
            },
    {
        if self.state.exhausted {
            return Ok(Vec::new());
        }
        proof {
            assert(call_requires(self.fetch_fn(), (self.state.cursor, &self.ctx())));
        }
        match (self.fetch)(self.state.cursor, &self.context) {
            Ok(resp) => {
                let PageResponse { items, total } = resp;
                self.state.apply_page(items.len(), total);
                Ok(items)
            },
            Err(e) => Err(PageError { offset: self.state.cursor, source: e }),
        }
    }
}

/// A single-pass, item-at-a-time consumer of a `Pagination`: it buffers the
/// current page and draws the next page once the buffer runs out.  Once a
/// fetch comes back empty the sequence has ended for good.
#[verifier::reject_recursive_types(T)]
#[verifier::reject_recursive_types(E)]
pub struct LazyItems<T, E, F> where F: Fn(u32, &Vec<(String, String)>) -> Result<
    PageResponse<T>,
    E,
> {
    pag: Pagination<T, E, F>,
    /// The undrawn items of the current page, in hand-out order.
    buf: Vec<T>,
}

impl<T, E, F> LazyItems<T, E, F> where F: Fn(u32, &Vec<(String, String)>) -> Result<
    PageResponse<T>,
    E,
> {
    /// The items of the current page not yet handed out, in hand-out order.
    pub closed spec fn buffered(self) -> Seq<T> {
        self.buf@
    }

    /// The state of the underlying sequence.
    pub closed spec fn pag_state(self) -> PageState {
        self.pag@
    }

    pub closed spec fn fetch_fn(self) -> F {
        self.pag.fetch_fn()
    }

    pub closed spec fn ctx(self) -> Vec<(String, String)> {
        self.pag.ctx()
    }

    pub open spec fn fetch_callable(self) -> bool {
        forall|off: u32| call_requires(self.fetch_fn(), (off, &self.ctx()))
    }

    /// Hands out the next item, drawing the next page if the current one is
    /// spent.  `Ok(None)` means the sequence has ended; an error leaves
    /// everything as it was, so the next call retries the same fetch.
    pub fn next_item(&mut self) -> (r: Result<Option<T>, PageError<E>>)
        requires
            old(self).fetch_callable(),
        ensures
            final(self).fetch_fn() == old(self).fetch_fn(),
            final(self).ctx() == old(self).ctx(),
            old(self).buffered().len() > 0 ==> {
                &&& r matches Ok(o) && o matches Some(x) && x == old(self).buffered()[0]
                &&& final(self).buffered() == old(self).buffered().drop_first()
                &&& final(self).pag_state() == old(self).pag_state()
            },
            old(self).buffered().len() == 0 ==> match r {
                Ok(o) => match o {
                    Some(x) => exists|resp: PageResponse<T>|
                        {
                            &&& call_ensures(
                                old(self).fetch_fn(),
                                (old(self).pag_state().cursor, &old(self).ctx()),
                                Ok(resp),
                            )
                            &&& !old(self).pag_state().exhausted
                            &&& resp.items@.len() > 0
                            &&& x == resp.items@[0]
                            &&& final(self).buffered() == resp.items@.drop_first()
                            &&& final(self).pag_state().cursor == sat_add_u32(
                                old(self).pag_state().cursor,
                                resp.items@.len() as int,
                            )
                        },
                    None => {
                        &&& final(self).buffered().len() == 0
                        &&& final(self).pag_state().exhausted
                        &&& final(self).pag_state().cursor == old(self).pag_state().cursor
                        &&& (old(self).pag_state().exhausted ==> *final(self) == *old(self))
                    },
                },
                Err(pe) => {
                    &&& *final(self) == *old(self)
                    &&& pe.offset == old(self).pag_state().cursor
                    &&& call_ensures(
                        old(self).fetch_fn(),
                        (old(self).pag_state().cursor, &old(self).ctx()),
                        Err(pe.source),
                    )
                },
            },
    {
        if self.buf.len() > 0 {
            let x = self.buf.remove(0);
            proof {
                assert(self.buf@ =~= old(self).buf@.drop_first());
            }
            Ok(Some(x))
        } else {
            proof {
                assert forall|off: u32|
                    call_requires(self.pag.fetch_fn(), (off, &self.pag.ctx())) by {
                    assert(call_requires(old(self).fetch_fn(), (off, &old(self).ctx())));
                }
            }
            match self.pag.next_page() {
                Ok(items) => {
                    if items.len() == 0 {
                        Ok(None)
                    } else {
                        let mut items = items;
                        let first = items.remove(0);
                        self.buf = items;
                        Ok(Some(first))
                    }
                },
                Err(e) => Err(e),
            }
        }
    }
}

impl<T, E, F> Pagination<T, E, F> where F: Fn(u32, &Vec<(String, String)>) -> Result<
    PageResponse<T>,
    E,
> {
    /// Turns the sequence into a single-pass, item-at-a-time consumer.
    pub fn as_lazy_sequence(self) -> (r: LazyItems<T, E, F>)
        ensures
            r.buffered().len() == 0,
            r.pag_state() == self@,
            r.fetch_fn() == self.fetch_fn(),
            r.ctx() == self.ctx(),
    {
        LazyItems { pag: self, buf: Vec::new() }
    }
}

/// `a + b` capped at `u32::MAX`: how the cursor advances, so that a page of
/// absurd length cannot wrap it around.
pub open spec fn sat_add_u32(a: u32, b: int) -> u32 {
    if a + b > u32::MAX {
        u32::MAX
    } else {
        (a + b) as u32
    }
}

/// How many items a well-behaved endpoint returns for a fetch at `off`, when
/// the remote collection holds `tot` items served in pages of `ps`.
pub open spec fn page_len(off: u32, ps: int, tot: u32) -> int {
    if off >= tot {
        0
    } else if tot - off < ps {
        tot - off
    } else {
        ps
    }
}

/// The fetch function `f`, handed the context `ctx`, can only succeed with
/// pages of `ps` items (short only at the end) out of a collection of `tot`
/// items, and always reports `tot` as the total.
pub open spec fn fetch_paged<T, E, F>(f: F, ctx: Vec<(String, String)>, ps: int, tot: u32) -> bool
    where F: Fn(u32, &Vec<(String, String)>) -> Result<PageResponse<T>, E>
{
    forall|off: u32, out: Result<PageResponse<T>, E>|
        #[trigger] call_ensures(f, (off, &ctx), out) ==> {
            &&& out matches Ok(resp)
            &&& resp.total == tot
            &&& resp.items@.len() == page_len(off, ps, tot)
        }
}

impl<T, E, F> Pagination<T, E, F> where F: Fn(u32, &Vec<(String, String)>) -> Result<
    PageResponse<T>,
    E,
> {
    /// The loop state that `collect_all` maintains while the fetch function
    /// behaves as `fetch_paged(f, ctx, ps, tot)` says, starting from a fresh
    /// sequence.
    pub open spec fn paged_run_state(self, out: Seq<T>, ps: int, tot: u32) -> bool {
        &&& out.len() == self@.cursor
        &&& self@.cursor <= tot
        &&& (self@.total matches Some(t) ==> t == tot)
        &&& (self@.exhausted ==> self@.cursor == tot)
        &&& (self@.page_size matches Some(p) ==> tot > 0 && p == page_len(0, ps, tot))
        &&& (self@.page_size is None ==> self@.cursor == 0)
    }

    /// Draws pages until the cursor reaches the last reported total, a page
    /// comes back empty or short, or `max_items` items have been gathered,
    /// accumulating the items in the order fetched.  The first fetch error
    /// aborts the call: the error is returned, the pages already drawn are
    /// discarded, and the cursor stays at the offset of the failing fetch, so
    /// the caller may resume there.
    ///
    /// Against an endpoint that serves pages of `ps` items out of a
    /// collection of `tot` items, a fresh sequence gathers exactly `tot`
    /// items: every full page, then the short final page.
    pub fn collect_all(&mut self, max_items: Option<u32>) -> (r: Result<Vec<T>, PageError<E>>)
        requires
            old(self).fetch_callable(),
        ensures
            final(self).fetch_fn() == old(self).fetch_fn(),
            final(self).ctx() == old(self).ctx(),
            final(self)@.context == old(self)@.context,
            final(self)@.cursor >= old(self)@.cursor,
            r matches Ok(v) ==> final(self)@.cursor == sat_add_u32(
                old(self)@.cursor,
                v@.len() as int,
            ),
            r matches Err(pe) ==> {
                &&& pe.offset == final(self)@.cursor
                &&& call_ensures(
                    old(self).fetch_fn(),
                    (final(self)@.cursor, &old(self).ctx()),
                    Err(pe.source),
                )
            },
            forall|ps: int, tot: u32|
                {
                    &&& #[trigger] fetch_paged(old(self).fetch_fn(), old(self).ctx(), ps, tot)
                    &&& ps > 0
                    &&& old(self)@.cursor == 0
                    &&& !old(self)@.exhausted
                    &&& old(self)@.total is None
                    &&& old(self)@.page_size is None
                    &&& max_items is None
                } ==> (r matches Ok(v) && v@.len() == tot),
    {
        let ghost f = old(self).fetch_fn();
        let ghost ctx0 = old(self).ctx();
        let mut out: Vec<T> = Vec::new();
        loop
            invariant
                f == old(self).fetch_fn(),
                ctx0 == old(self).ctx(),
                self.fetch_callable(),
                self.fetch_fn() == f,
                self.ctx() == ctx0,
                self@.context == old(self)@.context,
                self@.cursor == sat_add_u32(old(self)@.cursor, out@.len() as int),
                self@.cursor >= old(self)@.cursor,
                forall|ps: int, tot: u32|
                    {
                        &&& #[trigger] fetch_paged::<T, E, F>(f, ctx0, ps, tot)
                        &&& ps > 0
                        &&& old(self)@.cursor == 0
                        &&& !old(self)@.exhausted
                        &&& old(self)@.total is None
                        &&& old(self)@.page_size is None
                    } ==> self.paged_run_state(out@, ps, tot),
            ensures
                self.fetch_fn() == f,
                self.ctx() == ctx0,
                self@.context == old(self)@.context,
                self@.cursor == sat_add_u32(old(self)@.cursor, out@.len() as int),
                self@.cursor >= old(self)@.cursor,
                forall|ps: int, tot: u32|
                    {
                        &&& #[trigger] fetch_paged::<T, E, F>(f, ctx0, ps, tot)
                        &&& ps > 0
                        &&& old(self)@.cursor == 0
                        &&& !old(self)@.exhausted
                        &&& old(self)@.total is None
                        &&& old(self)@.page_size is None
                    } ==> out@.len() == tot,
            decreases
                    u32::MAX - self@.cursor,
                    (if self@.total is None {
                        1int
                    } else {
                        0int
                    }),
                    (if self@.exhausted {
                        0int
                    } else {
                        1int
                    }),
        {
            if self.state.exhausted {
                break ;
            }
            match self.state.total {
                Some(t) => if self.state.cursor >= t {
                    break ;
                },
                None => (),
            }
            match max_items {
                Some(m) => if out.len() >= m as usize {
                    return Ok(out);
                },
                None => (),
            }
            let ghost pre = *self;
            let ghost out_pre = out@;
            match self.next_page() {
                Ok(mut page) => {
                    out.append(&mut page);
                    proof {
                        assert forall|ps: int, tot: u32|
                            {
                                &&& #[trigger] fetch_paged::<T, E, F>(f, ctx0, ps, tot)
                                &&& ps > 0
                                &&& old(self)@.cursor == 0
                                &&& !old(self)@.exhausted
                                &&& old(self)@.total is None
                                &&& old(self)@.page_size is None
                            } implies self.paged_run_state(out@, ps, tot) by {
                            assert(pre.paged_run_state(out_pre, ps, tot));
                        }
                    }
                },
                Err(e) => {
                    return Err(e);
                },
            }
        }
        Ok(out)
    }
}

} // verus!
