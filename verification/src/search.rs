//! Browse and search configuration, and the typed buckets of a search
//! result: each option bag writes itself as ordered query pairs, and a bulk
//! search answer is folded into per-kind buckets by its tag.
use crate::error::{DecodeError, DecodeErrorView};
use crate::media::{media_type_of, MediaType, MediaTypeView};
use crate::text::{bool_to_string, join_comma, join_comma_strings, str_eq, u32_digits, u32_to_string};
use crate::urlquery::pairs_view;
use vstd::prelude::*;
use vstd::string::StringExecFns;

verus! {

/// How browse entries are ordered; an unrecognized spelling is kept as a
/// free string.
#[derive(Clone, Debug, PartialEq)]
pub enum BrowseSortType {
    Popularity,
    NewlyAdded,
    Alphabetical,
    Custom(String),
}

pub enum BrowseSortTypeView {
    Popularity,
    NewlyAdded,
    Alphabetical,
    Custom(Seq<char>),
}

impl View for BrowseSortType {
    type V = BrowseSortTypeView;

    open spec fn view(&self) -> BrowseSortTypeView {
        match self {
            BrowseSortType::Popularity => BrowseSortTypeView::Popularity,
            BrowseSortType::NewlyAdded => BrowseSortTypeView::NewlyAdded,
            BrowseSortType::Alphabetical => BrowseSortTypeView::Alphabetical,
            BrowseSortType::Custom(s) => BrowseSortTypeView::Custom(s@),
        }
    }
}

/// Which sort order a wire value names.
pub open spec fn sort_type_of(v: Seq<char>) -> BrowseSortTypeView {
    if v == "popularity"@ {
        BrowseSortTypeView::Popularity
    } else if v == "newly_added"@ {
        BrowseSortTypeView::NewlyAdded
    } else if v == "alphabetical"@ {
        BrowseSortTypeView::Alphabetical
    } else {
        BrowseSortTypeView::Custom(v)
    }
}

/// The wire spelling of a sort order.
pub open spec fn sort_type_value(v: BrowseSortTypeView) -> Seq<char> {
    match v {
        BrowseSortTypeView::Popularity => "popularity"@,
        BrowseSortTypeView::NewlyAdded => "newly_added"@,
        BrowseSortTypeView::Alphabetical => "alphabetical"@,
        BrowseSortTypeView::Custom(s) => s,
    }
}

impl BrowseSortType {
    /// Reads a sort order from its wire spelling.
    pub fn from_string(v: String) -> (r: BrowseSortType)
        ensures
            r@ == sort_type_of(v@),
    {
        if str_eq(v.as_str(), "popularity") {
            BrowseSortType::Popularity
        } else if str_eq(v.as_str(), "newly_added") {
            BrowseSortType::NewlyAdded
        } else if str_eq(v.as_str(), "alphabetical") {
            BrowseSortType::Alphabetical
        } else {
            BrowseSortType::Custom(v)
        }
    }

    /// Writes the sort order as the wire spells it.
    pub fn to_value(&self) -> (r: String)
        ensures
            r@ == sort_type_value(self@),
    {
        match self {
            BrowseSortType::Popularity => String::from_str("popularity"),
            BrowseSortType::NewlyAdded => String::from_str("newly_added"),
            BrowseSortType::Alphabetical => String::from_str("alphabetical"),
            BrowseSortType::Custom(s) => s.clone(),
        }
    }
}

/// The wire spelling of a media type.
pub open spec fn media_type_value(v: MediaTypeView) -> Seq<char> {
    match v {
        MediaTypeView::Series => "series"@,
        MediaTypeView::MovieListing => "movie_listing"@,
        MediaTypeView::Episode => "episode"@,
        MediaTypeView::Custom(s) => s,
    }
}

impl MediaType {
    /// Writes the media type as the wire spells it.
    pub fn to_value(&self) -> (r: String)
        ensures
            r@ == media_type_value(self@),
    {
        match self {
            MediaType::Series => String::from_str("series"),
            MediaType::MovieListing => String::from_str("movie_listing"),
            MediaType::Episode => String::from_str("episode"),
            MediaType::Custom(s) => s.clone(),
        }
    }
}

/// What to browse for: each set option becomes one query pair.
#[derive(Clone, Debug, PartialEq)]
pub struct BrowseOptions {
    pub categories: Option<Vec<String>>,
    pub is_dubbed: Option<bool>,
    pub is_subbed: Option<bool>,
    pub simulcast: Option<String>,
    pub sort: Option<BrowseSortType>,
    pub media_type: Option<MediaType>,
    pub limit: Option<u32>,
    pub start: Option<u32>,
}

pub struct BrowseOptionsView {
    pub categories: Option<Seq<Seq<char>>>,
    pub is_dubbed: Option<bool>,
    pub is_subbed: Option<bool>,
    pub simulcast: Option<Seq<char>>,
    pub sort: Option<BrowseSortTypeView>,
    pub media_type: Option<MediaTypeView>,
    pub limit: Option<u32>,
    pub start: Option<u32>,
}

impl View for BrowseOptions {
    type V = BrowseOptionsView;

    open spec fn view(&self) -> BrowseOptionsView {
        BrowseOptionsView {
            categories: match self.categories {
                Some(v) => Some(v@.map_values(|s: String| s@)),
                None => None,
            },
            is_dubbed: self.is_dubbed,
            is_subbed: self.is_subbed,
            simulcast: match self.simulcast {
                Some(s) => Some(s@),
                None => None,
            },
            sort: match self.sort {
                Some(s) => Some(s@),
                None => None,
            },
            media_type: match self.media_type {
                Some(m) => Some(m@),
                None => None,
            },
            limit: self.limit,
            start: self.start,
        }
    }
}

/// The options a fresh browse starts from.
pub open spec fn browse_defaults() -> BrowseOptionsView {
    BrowseOptionsView {
        categories: None,
        is_dubbed: None,
        is_subbed: None,
        simulcast: None,
        sort: Some(BrowseSortTypeView::NewlyAdded),
        media_type: None,
        limit: Some(20u32),
        start: None,
    }
}

impl Default for BrowseOptions {
    /// Newly added entries first, twenty at a time.
    fn default() -> (r: Self)
        ensures
            r@ == browse_defaults(),
    {
        BrowseOptions {
            categories: None,
            is_dubbed: None,
            is_subbed: None,
            simulcast: None,
            sort: Some(BrowseSortType::NewlyAdded),
            media_type: None,
            limit: Some(20),
            start: None,
        }
    }
}

impl BrowseOptions {
    /// Keeps only entries of these categories.
    pub fn categories(self, categories: Vec<String>) -> (r: Self)
        ensures
            r == (BrowseOptions { categories: Some(categories), ..self }),
    {
        BrowseOptions { categories: Some(categories), ..self }
    }

    /// Asks for dubbed entries only (or none).
    pub fn is_dubbed(self, is_dubbed: bool) -> (r: Self)
        ensures
            r == (BrowseOptions { is_dubbed: Some(is_dubbed), ..self }),
    {
        BrowseOptions { is_dubbed: Some(is_dubbed), ..self }
    }

    /// Asks for subbed entries only (or none).
    pub fn is_subbed(self, is_subbed: bool) -> (r: Self)
        ensures
            r == (BrowseOptions { is_subbed: Some(is_subbed), ..self }),
    {
        BrowseOptions { is_subbed: Some(is_subbed), ..self }
    }

    /// Keeps only entries aired in this simulcast season.
    pub fn simulcast(self, simulcast: String) -> (r: Self)
        ensures
            r == (BrowseOptions { simulcast: Some(simulcast), ..self }),
    {
        BrowseOptions { simulcast: Some(simulcast), ..self }
    }

    /// Orders the entries.
    pub fn sort(self, sort: BrowseSortType) -> (r: Self)
        ensures
            r == (BrowseOptions { sort: Some(sort), ..self }),
    {
        BrowseOptions { sort: Some(sort), ..self }
    }

    /// Keeps only entries of this media type.
    pub fn media_type(self, media_type: MediaType) -> (r: Self)
        ensures
            r == (BrowseOptions { media_type: Some(media_type), ..self }),
    {
        BrowseOptions { media_type: Some(media_type), ..self }
    }

    /// Caps how many entries to return.
    pub fn limit(self, limit: u32) -> (r: Self)
        ensures
            r == (BrowseOptions { limit: Some(limit), ..self }),
    {
        BrowseOptions { limit: Some(limit), ..self }
    }

    /// Returns entries from this index on.
    pub fn start(self, start: u32) -> (r: Self)
        ensures
            r == (BrowseOptions { start: Some(start), ..self }),
    {
        BrowseOptions { start: Some(start), ..self }
    }
}

/// Folds query pairs onto browse options: `sort_by` re-sets the sort,
/// `type` re-sets the media type, any other key is ignored.
pub open spec fn browse_fold(o: BrowseOptionsView, ps: Seq<(Seq<char>, Seq<char>)>) -> BrowseOptionsView
    decreases ps.len(),
{
    if ps.len() == 0 {
        o
    } else if ps[0].0 == "sort_by"@ {
        browse_fold(BrowseOptionsView { sort: Some(sort_type_of(ps[0].1)), ..o }, ps.drop_first())
    } else if ps[0].0 == "type"@ {
        browse_fold(
            BrowseOptionsView { media_type: Some(media_type_of(ps[0].1)), ..o },
            ps.drop_first(),
        )
    } else {
        browse_fold(o, ps.drop_first())
    }
}

/// Applies the recognized keys of a parsed query to browse options.
pub fn browse_options_from_pairs(opts: BrowseOptions, pairs: &Vec<(String, String)>) -> (r:
    BrowseOptions)
    ensures
        r@ == browse_fold(opts@, pairs_view(pairs@)),
{
    let ghost pv = pairs_view(pairs@);
    proof {
        assert(pv.skip(0) =~= pv);
    }
    let mut cur = opts;
    let mut i: usize = 0;
    while i < pairs.len()
        invariant
            pv == pairs_view(pairs@),
            i <= pairs@.len(),
            browse_fold(opts@, pv) == browse_fold(cur@, pv.skip(i as int)),
        decreases pairs@.len() - i,
    {
        proof {
            assert(pv.skip(i as int).drop_first() =~= pv.skip(i + 1));
            assert(pv.skip(i as int)[0] == pv[i as int]);
        }
        if str_eq(pairs[i].0.as_str(), "sort_by") {
            cur = cur.sort(BrowseSortType::from_string(pairs[i].1.clone()));
        } else if str_eq(pairs[i].0.as_str(), "type") {
            cur = cur.media_type(MediaType::from_string(pairs[i].1.clone()));
        }
        i += 1;
    }
    proof {
        assert(pv.skip(pairs@.len() as int) =~= Seq::<(Seq<char>, Seq<char>)>::empty());
    }
    cur
}

/// A fold leaves every field but the sort and the media type alone, so
/// unrecognized keys have no effect; and with neither a `sort_by` nor a
/// `type` pair, the options come through unchanged.
pub proof fn lemma_browse_fold_unrecognized(o: BrowseOptionsView, ps: Seq<(Seq<char>, Seq<char>)>)
    ensures
        browse_fold(o, ps).categories == o.categories,
        browse_fold(o, ps).is_dubbed == o.is_dubbed,
        browse_fold(o, ps).is_subbed == o.is_subbed,
        browse_fold(o, ps).simulcast == o.simulcast,
        browse_fold(o, ps).limit == o.limit,
        browse_fold(o, ps).start == o.start,
        (forall|j: int| 0 <= j < ps.len() ==> ps[j].0 != "sort_by"@) ==> browse_fold(o, ps).sort
            == o.sort,
        (forall|j: int| 0 <= j < ps.len() ==> ps[j].0 != "type"@) ==> browse_fold(o, ps).media_type
            == o.media_type,
    decreases ps.len(),
{
    if ps.len() > 0 {
        if ps[0].0 == "sort_by"@ {
            lemma_browse_fold_unrecognized(
                BrowseOptionsView { sort: Some(sort_type_of(ps[0].1)), ..o },
                ps.drop_first(),
            );
        } else if ps[0].0 == "type"@ {
            lemma_browse_fold_unrecognized(
                BrowseOptionsView { media_type: Some(media_type_of(ps[0].1)), ..o },
                ps.drop_first(),
            );
        } else {
            lemma_browse_fold_unrecognized(o, ps.drop_first());
        }
    }
}

/// The sort that a fold leaves behind is governed by the last `sort_by`
/// pair: its value, read as a sort order.
pub proof fn lemma_browse_fold_last_sort(o: BrowseOptionsView, ps: Seq<(Seq<char>, Seq<char>)>, k: int)
    requires
        0 <= k < ps.len(),
        ps[k].0 == "sort_by"@,
        forall|j: int| k < j < ps.len() ==> ps[j].0 != "sort_by"@,
    ensures
        browse_fold(o, ps).sort == Some(sort_type_of(ps[k].1)),
    decreases ps.len(),
{
    reveal_strlit("sort_by");
    reveal_strlit("type");
    let o2 = if ps[0].0 == "sort_by"@ {
        BrowseOptionsView { sort: Some(sort_type_of(ps[0].1)), ..o }
    } else if ps[0].0 == "type"@ {
        BrowseOptionsView { media_type: Some(media_type_of(ps[0].1)), ..o }
    } else {
        o
    };
    if k == 0 {
        assert(forall|j: int|
            0 <= j < ps.drop_first().len() ==> ps.drop_first()[j] == ps[j + 1] && ps[j + 1].0
                != "sort_by"@);
        lemma_browse_fold_unrecognized(o2, ps.drop_first());
    } else {
        assert(ps.drop_first()[k - 1] == ps[k]);
        assert(forall|j: int|
            k - 1 < j < ps.drop_first().len() ==> ps.drop_first()[j] == ps[j + 1] && ps[j + 1].0
                != "sort_by"@);
        lemma_browse_fold_last_sort(o2, ps.drop_first(), k - 1);
    }
}

/// The media type that a fold leaves behind is governed by the last `type`
/// pair: its value, read as a media type.
pub proof fn lemma_browse_fold_last_type(o: BrowseOptionsView, ps: Seq<(Seq<char>, Seq<char>)>, k: int)
    requires
        0 <= k < ps.len(),
        ps[k].0 == "type"@,
        forall|j: int| k < j < ps.len() ==> ps[j].0 != "type"@,
    ensures
        browse_fold(o, ps).media_type == Some(media_type_of(ps[k].1)),
    decreases ps.len(),
{
    reveal_strlit("sort_by");
    reveal_strlit("type");
    let o2 = if ps[0].0 == "sort_by"@ {
        BrowseOptionsView { sort: Some(sort_type_of(ps[0].1)), ..o }
    } else if ps[0].0 == "type"@ {
        BrowseOptionsView { media_type: Some(media_type_of(ps[0].1)), ..o }
    } else {
        o
    };
    if k == 0 {
        assert("type"@.len() == 4);
        assert("sort_by"@.len() == 7);
        assert(forall|j: int|
            0 <= j < ps.drop_first().len() ==> ps.drop_first()[j] == ps[j + 1] && ps[j + 1].0
                != "type"@);
        lemma_browse_fold_unrecognized(o2, ps.drop_first());
    } else {
        assert(ps.drop_first()[k - 1] == ps[k]);
        assert(forall|j: int|
            k - 1 < j < ps.drop_first().len() ==> ps.drop_first()[j] == ps[j + 1] && ps[j + 1].0
                != "type"@);
        lemma_browse_fold_last_type(o2, ps.drop_first(), k - 1);
    }
}

/// Appends one query pair.
fn push_pair(out: &mut Vec<(String, String)>, key: &str, value: String)
    ensures
        pairs_view(final(out)@) == pairs_view(old(out)@) + seq![(key@, value@)],
{
    let ghost v0 = value@;
    out.push((key.to_owned(), value));
    proof {
        assert(pairs_view(out@) =~= pairs_view(old(out)@) + seq![(key@, v0)]);
    }
}

/// Appends the query pair of one set option, or nothing.
fn push_opt_pair(out: &mut Vec<(String, String)>, key: &str, v: Option<String>)
    ensures
        pairs_view(final(out)@) == pairs_view(old(out)@) + opt_pair(
            key@,
            crate::feed::opt_str_view(v),
        ),
{
    match v {
        Some(value) => push_pair(out, key, value),
        None => {
            proof {
                assert(pairs_view(out@) + Seq::<(Seq<char>, Seq<char>)>::empty() =~= pairs_view(
                    out@,
                ));
            }
        },
    }
}

/// Concatenation does not care how the eight option blocks are grouped.
proof fn lemma_flatten_eight<A>(
    base: Seq<A>,
    s1: Seq<A>,
    s2: Seq<A>,
    s3: Seq<A>,
    s4: Seq<A>,
    s5: Seq<A>,
    s6: Seq<A>,
    s7: Seq<A>,
    s8: Seq<A>,
)
    ensures
        base + (s1 + s2 + s3 + s4 + s5 + s6 + s7 + s8) == base + s1 + s2 + s3 + s4 + s5 + s6 + s7
            + s8,
{
    assert(base + (s1 + s2 + s3 + s4 + s5 + s6 + s7 + s8) =~= base + s1 + s2 + s3 + s4 + s5 + s6
        + s7 + s8);
}

/// The query pair that one set option writes.
pub open spec fn opt_pair(k: Seq<char>, v: Option<Seq<char>>) -> Seq<(Seq<char>, Seq<char>)> {
    match v {
        Some(s) => seq![(k, s)],
        None => Seq::empty(),
    }
}

pub open spec fn bool_chars(b: bool) -> Seq<char> {
    if b {
        "true"@
    } else {
        "false"@
    }
}

/// The query pairs that browse options write, one per set option, in
/// declaration order.
pub open spec fn browse_query_pairs(o: BrowseOptionsView) -> Seq<(Seq<char>, Seq<char>)> {
    opt_pair(
        "categories"@,
        match o.categories {
            Some(c) => Some(join_comma(c)),
            None => None,
        },
    ) + opt_pair(
        "is_dubbed"@,
        match o.is_dubbed {
            Some(b) => Some(bool_chars(b)),
            None => None,
        },
    ) + opt_pair(
        "is_subbed"@,
        match o.is_subbed {
            Some(b) => Some(bool_chars(b)),
            None => None,
        },
    ) + opt_pair("season_tag"@, o.simulcast) + opt_pair(
        "sort"@,
        match o.sort {
            Some(v) => Some(sort_type_value(v)),
            None => None,
        },
    ) + opt_pair(
        "type"@,
        match o.media_type {
            Some(v) => Some(media_type_value(v)),
            None => None,
        },
    ) + opt_pair(
        "n"@,
        match o.limit {
            Some(n) => Some(u32_digits(n as nat)),
            None => None,
        },
    ) + opt_pair(
        "start"@,
        match o.start {
            Some(n) => Some(u32_digits(n as nat)),
            None => None,
        },
    )
}

impl BrowseOptions {
    /// Writes the set options as query pairs after the given ones: first the
    /// caller's pairs, then one pair per set option.
    pub fn to_query(self, extras: Vec<(String, String)>) -> (r: Vec<(String, String)>)
        ensures
            pairs_view(r@) == pairs_view(extras@) + browse_query_pairs(self@),
    {
        let ghost sv = self@;
        let mut out = extras;
        let v_categories: Option<String> = match self.categories {
            Some(c) => Some(join_comma_strings(&c)),
            None => None,
        };
        push_opt_pair(&mut out, "categories", v_categories);
        let v_is_dubbed: Option<String> = match self.is_dubbed {
            Some(b) => Some(bool_to_string(b)),
            None => None,
        };
        push_opt_pair(&mut out, "is_dubbed", v_is_dubbed);
        let v_is_subbed: Option<String> = match self.is_subbed {
            Some(b) => Some(bool_to_string(b)),
            None => None,
        };
        push_opt_pair(&mut out, "is_subbed", v_is_subbed);
        push_opt_pair(&mut out, "season_tag", self.simulcast);
        let v_sort: Option<String> = match &self.sort {
            Some(v) => Some(v.to_value()),
            None => None,
        };
        push_opt_pair(&mut out, "sort", v_sort);
        let v_media_type: Option<String> = match &self.media_type {
            Some(v) => Some(v.to_value()),
            None => None,
        };
        push_opt_pair(&mut out, "type", v_media_type);
        let v_limit: Option<String> = match self.limit {
            Some(n) => Some(u32_to_string(n)),
            None => None,
        };
        push_opt_pair(&mut out, "n", v_limit);
        let v_start: Option<String> = match self.start {
            Some(n) => Some(u32_to_string(n)),
            None => None,
        };
        push_opt_pair(&mut out, "start", v_start);
        proof {
            lemma_flatten_eight(
                pairs_view(extras@),
                opt_pair(
                    "categories"@,
                    match sv.categories {
                        Some(cs) => Some(join_comma(cs)),
                        None => None,
                    },
                ),
                opt_pair(
                    "is_dubbed"@,
                    match sv.is_dubbed {
                        Some(b) => Some(bool_chars(b)),
                        None => None,
                    },
                ),
                opt_pair(
                    "is_subbed"@,
                    match sv.is_subbed {
                        Some(b) => Some(bool_chars(b)),
                        None => None,
                    },
                ),
                opt_pair("season_tag"@, sv.simulcast),
                opt_pair(
                    "sort"@,
                    match sv.sort {
                        Some(v) => Some(sort_type_value(v)),
                        None => None,
                    },
                ),
                opt_pair(
                    "type"@,
                    match sv.media_type {
                        Some(v) => Some(media_type_value(v)),
                        None => None,
                    },
                ),
                opt_pair(
                    "n"@,
                    match sv.limit {
                        Some(n) => Some(u32_digits(n as nat)),
                        None => None,
                    },
                ),
                opt_pair(
                    "start"@,
                    match sv.start {
                        Some(n) => Some(u32_digits(n as nat)),
                        None => None,
                    },
                ),
            );
        }
        out
    }
}

/// What kind of results a search should return.
#[derive(Clone, Debug, PartialEq)]
pub enum QueryType {
    Series,
    MovieListing,
    Episode,
    Custom(String),
}

pub enum QueryTypeView {
    Series,
    MovieListing,
    Episode,
    Custom(Seq<char>),
}

impl View for QueryType {
    type V = QueryTypeView;

    open spec fn view(&self) -> QueryTypeView {
        match self {
            QueryType::Series => QueryTypeView::Series,
            QueryType::MovieListing => QueryTypeView::MovieListing,
            QueryType::Episode => QueryTypeView::Episode,
            QueryType::Custom(s) => QueryTypeView::Custom(s@),
        }
    }
}

/// The wire spelling of a query result kind.
pub open spec fn query_type_value(v: QueryTypeView) -> Seq<char> {
    match v {
        QueryTypeView::Series => "series"@,
        QueryTypeView::MovieListing => "movie_listing"@,
        QueryTypeView::Episode => "episode"@,
        QueryTypeView::Custom(s) => s,
    }
}

impl QueryType {
    /// Writes the result kind as the wire spells it.
    pub fn to_value(&self) -> (r: String)
        ensures
            r@ == query_type_value(self@),
    {
        match self {
            QueryType::Series => String::from_str("series"),
            QueryType::MovieListing => String::from_str("movie_listing"),
            QueryType::Episode => String::from_str("episode"),
            QueryType::Custom(s) => s.clone(),
        }
    }
}

/// How to search: each set option becomes one query pair.
#[derive(Clone, Debug, PartialEq)]
pub struct QueryOptions {
    pub limit: Option<u32>,
    pub result_type: Option<QueryType>,
}

impl Default for QueryOptions {
    /// Twenty results of any kind.
    fn default() -> (r: Self)
        ensures
            r.limit == Some(20u32),
            r.result_type is None,
    {
        QueryOptions { limit: Some(20), result_type: None }
    }
}

pub open spec fn query_type_view_opt(o: Option<QueryType>) -> Option<QueryTypeView> {
    match o {
        Some(v) => Some(v@),
        None => None,
    }
}

/// The query pairs that search options write.
pub open spec fn query_query_pairs(
    limit: Option<u32>,
    result_type: Option<QueryTypeView>,
) -> Seq<(Seq<char>, Seq<char>)> {
    opt_pair(
        "n"@,
        match limit {
            Some(n) => Some(u32_digits(n as nat)),
            None => None,
        },
    ) + opt_pair(
        "type"@,
        match result_type {
            Some(v) => Some(query_type_value(v)),
            None => None,
        },
    )
}

impl QueryOptions {
    /// Writes the set options as query pairs after the given ones.
    pub fn to_query(self, extras: Vec<(String, String)>) -> (r: Vec<(String, String)>)
        ensures
            pairs_view(r@) == pairs_view(extras@) + query_query_pairs(
                self.limit,
                query_type_view_opt(self.result_type),
            ),
    {
        let ghost limit0 = self.limit;
        let ghost rt0 = query_type_view_opt(self.result_type);
        let mut out = extras;
        match self.limit {
            Some(n) => {
                push_pair(&mut out, "n", u32_to_string(n));
            },
            None => (),
        }
        match self.result_type {
            Some(v) => {
                push_pair(&mut out, "type", v.to_value());
            },
            None => (),
        }
        proof {
            assert(pairs_view(out@) =~= pairs_view(extras@) + query_query_pairs(limit0, rt0));
        }
        out
    }
}

/// One batch of items with the server-reported total.
#[derive(Clone, Debug, Default, PartialEq)]
pub struct BulkResult<T> {
    pub items: Vec<T>,
    pub total: u32,
}

/// What a search result names of a catalog entry.
#[derive(Clone, Debug, Default, PartialEq)]
pub struct Collection {
    pub id: String,
    pub title: String,
    pub description: String,
}

/// One tagged bucket of a bulk search answer.
#[derive(Clone, Debug, Default, PartialEq)]
pub struct QueryBulkResult {
    pub result_type: String,
    pub items: Vec<Collection>,
    pub total: u32,
}

/// Search results, one optional bucket per result kind.
#[derive(Debug, Default, PartialEq)]
pub struct QueryResults {
    pub top_results: Option<BulkResult<Collection>>,
    pub series: Option<BulkResult<Collection>>,
    pub movie_listing: Option<BulkResult<Collection>>,
    pub episode: Option<BulkResult<Collection>>,
}

/// Folds tagged buckets into per-kind slots, in order, the last bucket of a
/// tag winning; a tag outside the closed set fails the whole fold.
pub open spec fn query_results_fold(acc: QueryResults, items: Seq<QueryBulkResult>) -> Result<
    QueryResults,
    DecodeErrorView,
>
    decreases items.len(),
{
    if items.len() == 0 {
        Ok(acc)
    } else {
        let b = BulkResult { items: items[0].items, total: items[0].total };
        if items[0].result_type@ == "top_results"@ {
            query_results_fold(QueryResults { top_results: Some(b), ..acc }, items.drop_first())
        } else if items[0].result_type@ == "series"@ {
            query_results_fold(QueryResults { series: Some(b), ..acc }, items.drop_first())
        } else if items[0].result_type@ == "movie_listing"@ {
            query_results_fold(QueryResults { movie_listing: Some(b), ..acc }, items.drop_first())
        } else if items[0].result_type@ == "episode"@ {
            query_results_fold(QueryResults { episode: Some(b), ..acc }, items.drop_first())
        } else {
            Err(
                DecodeErrorView::UnknownVariant {
                    tag: items[0].result_type@,
                    raw: Seq::empty(),
                },
            )
        }
    }
}

/// The empty result: no bucket filled yet.
pub open spec fn empty_query_results() -> QueryResults {
    QueryResults { top_results: None, series: None, movie_listing: None, episode: None }
}

impl QueryResults {
    /// Sorts a bulk search answer into per-kind buckets; a bucket tagged
    /// outside the closed set fails the decode with that tag.
    pub fn try_from(value: BulkResult<QueryBulkResult>) -> (r: Result<QueryResults, DecodeError>)
        ensures
            match r {
                Ok(q) => query_results_fold(empty_query_results(), value.items@) == Ok::<
                    QueryResults,
                    DecodeErrorView,
                >(q),
                Err(e) => query_results_fold(empty_query_results(), value.items@) == Err::<
                    QueryResults,
                    DecodeErrorView,
                >(e@),
            },
    {
        let ghost items0 = value.items@;
        let mut items = value.items;
        let mut acc = QueryResults {
            top_results: None,
            series: None,
            movie_listing: None,
            episode: None,
        };
        while items.len() > 0
            invariant
                items0 == value.items@,
                query_results_fold(empty_query_results(), items0) == query_results_fold(
                    acc,
                    items@,
                ),
            decreases items@.len(),
        {
            let ghost pre_items = items@;
            let it = items.remove(0);
            proof {
                assert(pre_items.drop_first() =~= items@);
                assert(pre_items[0] == it);
            }
            let b = BulkResult { items: it.items, total: it.total };
            if str_eq(it.result_type.as_str(), "top_results") {
                acc = QueryResults { top_results: Some(b), ..acc };
            } else if str_eq(it.result_type.as_str(), "series") {
                acc = QueryResults { series: Some(b), ..acc };
            } else if str_eq(it.result_type.as_str(), "movie_listing") {
                acc = QueryResults { movie_listing: Some(b), ..acc };
            } else if str_eq(it.result_type.as_str(), "episode") {
                acc = QueryResults { episode: Some(b), ..acc };
            } else {
                let raw: Vec<(String, crate::json::JsonVal)> = Vec::new();
                proof {
                    assert(raw@ =~= Seq::<(String, crate::json::JsonVal)>::empty());
                    assert(query_results_fold(acc, pre_items) == Err::<
                        QueryResults,
                        DecodeErrorView,
                    >(
                        DecodeErrorView::UnknownVariant {
                            tag: it.result_type@,
                            raw: Seq::empty(),
                        },
                    ));
                }
                return Err(DecodeError::UnknownVariant { tag: it.result_type, raw });
            }
        }
        Ok(acc)
    }
}

} // verus!
