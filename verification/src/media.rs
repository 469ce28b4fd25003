//! Media kinds and the options of a similar-to listing, as the embedded
//! query payload configures them.
use crate::error::{DecodeError, DecodeErrorView};
use crate::text::{digits_val, parse_u32, str_eq, u32_parseable, unsigned_body};
use crate::urlquery::pairs_view;
use vstd::prelude::*;

verus! {

/// The kind of a catalog entry, as the wire spells it; an unrecognized
/// spelling is kept as a free string.
#[derive(Clone, Debug, PartialEq)]
pub enum MediaType {
    Series,
    MovieListing,
    Episode,
    Custom(String),
}

pub enum MediaTypeView {
    Series,
    MovieListing,
    Episode,
    Custom(Seq<char>),
}

impl View for MediaType {
    type V = MediaTypeView;

    open spec fn view(&self) -> MediaTypeView {
        match self {
            MediaType::Series => MediaTypeView::Series,
            MediaType::MovieListing => MediaTypeView::MovieListing,
            MediaType::Episode => MediaTypeView::Episode,
            MediaType::Custom(s) => MediaTypeView::Custom(s@),
        }
    }
}

/// Which media type a wire value names.
pub open spec fn media_type_of(v: Seq<char>) -> MediaTypeView {
    if v == "series"@ {
        MediaTypeView::Series
    } else if v == "movie_listing"@ {
        MediaTypeView::MovieListing
    } else if v == "episode"@ {
        MediaTypeView::Episode
    } else {
        MediaTypeView::Custom(v)
    }
}

impl MediaType {
    /// Reads a media type from its wire spelling.
    pub fn from_string(v: String) -> (r: MediaType)
        ensures
            r@ == media_type_of(v@),
    {
        if str_eq(v.as_str(), "series") {
            MediaType::Series
        } else if str_eq(v.as_str(), "movie_listing") {
            MediaType::MovieListing
        } else if str_eq(v.as_str(), "episode") {
            MediaType::Episode
        } else {
            MediaType::Custom(v)
        }
    }
}

/// The options of a similar-to listing; `limit` caps how many results the
/// endpoint returns.
#[derive(Clone, Copy, Debug, PartialEq, Eq, Structural)]
pub struct SimilarOptions {
    pub limit: Option<u32>,
}

impl Default for SimilarOptions {
    /// No option set: the endpoint's own defaults apply.
    fn default() -> (r: Self)
        ensures
            r.limit is None,
    {
        SimilarOptions { limit: None }
    }
}

impl SimilarOptions {
    /// Caps how many results to return.
    pub fn limit(self, limit: u32) -> (r: Self)
        ensures
            r.limit == Some(limit),
    {
        SimilarOptions { limit: Some(limit) }
    }
}

/// Folds query pairs onto similar-to options: each `n` pair re-sets the
/// limit, any other key is ignored, and an `n` value that is no `u32` is a
/// hard failure.
pub open spec fn similar_fold(o: SimilarOptions, ps: Seq<(Seq<char>, Seq<char>)>) -> Result<
    SimilarOptions,
    DecodeErrorView,
>
    decreases ps.len(),
{
    if ps.len() == 0 {
        Ok(o)
    } else if ps[0].0 == "n"@ {
        if u32_parseable(unsigned_body(ps[0].1)) {
            similar_fold(
                SimilarOptions { limit: Some(digits_val(unsigned_body(ps[0].1)) as u32) },
                ps.drop_first(),
            )
        } else {
            Err(DecodeErrorView::MalformedNumericValue)
        }
    } else {
        similar_fold(o, ps.drop_first())
    }
}

/// Applies the recognized keys of a parsed query to similar-to options.
pub fn similar_options_from_pairs(opts: SimilarOptions, pairs: &Vec<(String, String)>) -> (r:
    Result<SimilarOptions, DecodeError>)
    ensures
        similar_fold(opts, pairs_view(pairs@)) matches Ok(o) ==> (r matches Ok(v) && v == o),
        similar_fold(opts, pairs_view(pairs@)) matches Err(e) ==> (r matches Err(d) && d@ == e),
{
    let ghost pv = pairs_view(pairs@);
    proof {
        assert(pv.skip(0) =~= pv);
    }
    let mut cur = opts;
    let mut i: usize = 0;
    while i < pairs.len()
        invariant
            pv == pairs_view(pairs@),
            i <= pairs@.len(),
            similar_fold(opts, pv) == similar_fold(cur, pv.skip(i as int)),
        decreases pairs@.len() - i,
    {
        proof {
            assert(pv.skip(i as int).drop_first() =~= pv.skip(i + 1));
            assert(pv.skip(i as int)[0] == pv[i as int]);
        }
        if str_eq(pairs[i].0.as_str(), "n") {
            match parse_u32(pairs[i].1.as_str()) {
                Ok(n) => {
                    cur = SimilarOptions { limit: Some(n) };
                },
                Err(e) => {
                    return Err(e);
                },
            }
        }
        i += 1;
    }
    proof {
        assert(pv.skip(pairs@.len() as int) =~= Seq::<(Seq<char>, Seq<char>)>::empty());
    }
    Ok(cur)
}

/// The limit that a fold leaves behind is governed by the last `n` pair: with
/// no `n` pair the limit stays as it was, and with a last `n` pair whose value
/// reads as a `u32`, the limit is that value.
pub proof fn lemma_similar_fold_last_n(o: SimilarOptions, ps: Seq<(Seq<char>, Seq<char>)>)
    ensures
        (forall|j: int| 0 <= j < ps.len() ==> ps[j].0 != "n"@) ==> similar_fold(o, ps) == Ok::<
            SimilarOptions,
            DecodeErrorView,
        >(o),
        forall|k: int|
            {
                &&& 0 <= k < ps.len()
                &&& ps[k].0 == "n"@
                &&& u32_parseable(unsigned_body(ps[k].1))
                &&& forall|j: int| k < j < ps.len() ==> ps[j].0 != "n"@
                &&& similar_fold(o, ps) matches Ok(_)
            } ==> similar_fold(o, ps) == Ok::<SimilarOptions, DecodeErrorView>(
                SimilarOptions { limit: Some(digits_val(unsigned_body(ps[k].1)) as u32) },
            ),
    decreases ps.len(),
{
    if ps.len() > 0 {
        if ps[0].0 == "n"@ && u32_parseable(unsigned_body(ps[0].1)) {
            lemma_similar_fold_last_n(
                SimilarOptions { limit: Some(digits_val(unsigned_body(ps[0].1)) as u32) },
                ps.drop_first(),
            );
        } else {
            lemma_similar_fold_last_n(o, ps.drop_first());
        }
        assert forall|k: int|
            {
                &&& 0 <= k < ps.len()
                &&& ps[k].0 == "n"@
                &&& u32_parseable(unsigned_body(ps[k].1))
                &&& forall|j: int| k < j < ps.len() ==> ps[j].0 != "n"@
                &&& similar_fold(o, ps) matches Ok(_)
            } implies similar_fold(o, ps) == Ok::<SimilarOptions, DecodeErrorView>(
            SimilarOptions { limit: Some(digits_val(unsigned_body(ps[k].1)) as u32) },
        ) by {
            if k > 0 {
                assert(ps.drop_first()[k - 1] == ps[k]);
                assert(forall|j: int|
                    k - 1 < j < ps.drop_first().len() ==> ps.drop_first()[j] == ps[j + 1]
                        && ps[j + 1].0 != "n"@);
            } else {
                assert(forall|j: int|
                    0 <= j < ps.drop_first().len() ==> ps.drop_first()[j] == ps[j + 1] && ps[j
                        + 1].0 != "n"@);
            }
        }
    }
}

} // verus!
