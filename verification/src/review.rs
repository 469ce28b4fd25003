//! Ratings and reviews: the wire shapes, the rating-value codec, and the
//! state a review carries through the calls that mark, report or edit it.
//! The transport work itself happens outside; each step here takes the
//! transport outcome and applies exactly the change the call stands for.
use crate::error::{DecodeError, TransportError};
use crate::text::str_eq;
use crate::urlquery::pairs_view;
use vstd::prelude::*;
use vstd::string::StringExecFns;

verus! {

/// The stars a rating can have; the wire names each star rather than using
/// a number.  An unrecognized spelling is kept as a free string.
#[derive(Clone, Debug, PartialEq)]
pub enum RatingStar {
    OneStar,
    TwoStars,
    ThreeStars,
    FourStars,
    FiveStars,
    Custom(String),
}

pub enum RatingStarView {
    OneStar,
    TwoStars,
    ThreeStars,
    FourStars,
    FiveStars,
    Custom(Seq<char>),
}

impl View for RatingStar {
    type V = RatingStarView;

    open spec fn view(&self) -> RatingStarView {
        match self {
            RatingStar::OneStar => RatingStarView::OneStar,
            RatingStar::TwoStars => RatingStarView::TwoStars,
            RatingStar::ThreeStars => RatingStarView::ThreeStars,
            RatingStar::FourStars => RatingStarView::FourStars,
            RatingStar::FiveStars => RatingStarView::FiveStars,
            RatingStar::Custom(s) => RatingStarView::Custom(s@),
        }
    }
}

/// The wire spelling of a star rating.
pub open spec fn rating_star_value(v: RatingStarView) -> Seq<char> {
    match v {
        RatingStarView::OneStar => "1s"@,
        RatingStarView::TwoStars => "2s"@,
        RatingStarView::ThreeStars => "3s"@,
        RatingStarView::FourStars => "4s"@,
        RatingStarView::FiveStars => "5s"@,
        RatingStarView::Custom(s) => s,
    }
}

impl RatingStar {
    /// Writes the star as the wire spells it.
    pub fn to_value(&self) -> (r: String)
        ensures
            r@ == rating_star_value(self@),
    {
        match self {
            RatingStar::OneStar => String::from_str("1s"),
            RatingStar::TwoStars => String::from_str("2s"),
            RatingStar::ThreeStars => String::from_str("3s"),
            RatingStar::FourStars => String::from_str("4s"),
            RatingStar::FiveStars => String::from_str("5s"),
            RatingStar::Custom(s) => s.clone(),
        }
    }
}

impl Default for RatingStar {
    /// One star, until the wire says otherwise.
    fn default() -> (r: Self)
        ensures
            r == RatingStar::OneStar,
    {
        RatingStar::OneStar
    }
}

/// Details about one star of a rating.
#[derive(Clone, Debug, Default, PartialEq)]
pub struct RatingStarDetails {
    /// The amount of user ratings, as displayed.
    pub displayed: String,
    /// `K` when `displayed` was scaled to thousands, empty otherwise.
    pub unit: String,
    /// How many percent of users voted this star.
    pub percentage: Option<u8>,
}

/// Ratings of a review: how many found it helpful and how many did not.
#[derive(Clone, Debug, Default, PartialEq)]
pub struct ReviewRatings {
    pub yes: RatingStarDetails,
    pub no: RatingStarDetails,
    pub total: u32,
    /// Whether this account found the review helpful, if it said so.
    pub helpful: Option<bool>,
}

/// A locale, as the wire spells it; an unrecognized spelling is kept as a
/// free string.
#[derive(Clone, Debug, PartialEq)]
pub enum Locale {
    EnUs,
    DeDe,
    JaJp,
    Custom(String),
}

impl Default for Locale {
    fn default() -> (r: Self)
        ensures
            r == Locale::EnUs,
    {
        Locale::EnUs
    }
}

/// The content of a review.  Timestamps count seconds since the epoch; a
/// fresh value sits at the epoch itself.
#[derive(Clone, Debug, Default, PartialEq)]
pub struct ReviewContent {
    pub id: String,
    pub title: String,
    pub body: String,
    pub language: Locale,
    pub spoiler: bool,
    pub created_at: i64,
    pub modified_at: i64,
    pub authored_reviews: u32,
}

/// The author of a review.
#[derive(Clone, Debug, Default, PartialEq)]
pub struct ReviewAuthor {
    pub id: String,
    pub username: String,
    pub avatar: String,
}

/// A review some user made about a series or movie listing.
#[derive(Clone, Debug, Default, PartialEq)]
pub struct Review {
    pub review: ReviewContent,
    pub author_rating: RatingStar,
    pub author: ReviewAuthor,
    pub ratings: ReviewRatings,
    /// Whether this account has reported the review.
    pub reported: bool,
}

/// A review made by this account.
#[derive(Clone, Debug, Default, PartialEq)]
pub struct SelfReview {
    /// The endpoint kind the review was fetched from, threaded back into the
    /// calls that edit it.
    pub endpoint: String,
    pub review: ReviewContent,
    pub author_rating: RatingStar,
    pub author: ReviewAuthor,
    pub ratings: ReviewRatings,
}

/// The two verbs a report toggle can take.
#[derive(Clone, Copy, Debug, PartialEq, Eq, Structural)]
pub enum ReportMethod {
    Put,
    Delete,
}

/// Reads a helpfulness rating off the wire: `yes`, `no`, or empty for none;
/// anything else is outside the closed set.
pub fn rating_to_bool(value: &str) -> (r: Result<Option<bool>, DecodeError>)
    ensures
        value@ == "yes"@ ==> r == Ok::<Option<bool>, DecodeError>(Some(true)),
        value@ == "no"@ ==> r == Ok::<Option<bool>, DecodeError>(Some(false)),
        value@ == ""@ ==> r == Ok::<Option<bool>, DecodeError>(None),
        (value@ != "yes"@ && value@ != "no"@ && value@ != ""@) ==> (r matches Err(e) && e@
            matches crate::error::DecodeErrorView::UnknownVariant {
            tag,
            raw,
        } && tag == value@ && raw.len() == 0),
{
    proof {
        reveal_strlit("yes");
        reveal_strlit("no");
        reveal_strlit("");
        assert("yes"@.len() == 3);
        assert("no"@.len() == 2);
        assert(""@.len() == 0);
    }
    if str_eq(value, "yes") {
        Ok(Some(true))
    } else if str_eq(value, "no") {
        Ok(Some(false))
    } else if str_eq(value, "") {
        Ok(None)
    } else {
        Err(DecodeError::UnknownVariant { tag: value.to_owned(), raw: Vec::new() })
    }
}

/// The wire value of a helpfulness mark.
pub fn helpful_rating_value(helpful: bool) -> (r: String)
    ensures
        helpful ==> r@ == "yes"@,
        !helpful ==> r@ == "no"@,
{
    if helpful {
        String::from_str("yes")
    } else {
        String::from_str("no")
    }
}

impl Review {
    /// Applies the outcome of marking this review as helpful (or not): on
    /// success the helpfulness mark is recorded, on failure nothing changes
    /// and the error comes back unchanged.
    pub fn mark_helpful(&mut self, helpful: bool, outcome: Result<(), TransportError>) -> (r:
        Result<(), TransportError>)
        ensures
            outcome matches Ok(_) ==> (r matches Ok(_) && *final(self) == (Review {
                ratings: ReviewRatings { helpful: Some(helpful), ..old(self).ratings },
                ..*old(self)
            })),
            outcome matches Err(e) ==> (r matches Err(e2) && e2 == e && *final(self) == *old(
                self,
            )),
    {
        match outcome {
            Ok(_) => {
                self.ratings.helpful = Some(helpful);
                Ok(())
            },
            Err(e) => Err(e),
        }
    }

    /// The verb a report toggle issues: reporting puts, unreporting deletes.
    pub fn report_method(report: bool) -> (r: ReportMethod)
        ensures
            report ==> r == ReportMethod::Put,
            !report ==> r == ReportMethod::Delete,
    {
        if report {
            ReportMethod::Put
        } else {
            ReportMethod::Delete
        }
    }

    /// Applies the outcome of reporting (or unreporting) this review: on
    /// success the reported flag takes the requested value, on failure
    /// nothing changes and the error comes back unchanged.
    pub fn report(&mut self, report: bool, outcome: Result<(), TransportError>) -> (r: Result<
        (),
        TransportError,
    >)
        ensures
            outcome matches Ok(_) ==> (r matches Ok(_) && *final(self) == (Review {
                reported: report,
                ..*old(self)
            })),
            outcome matches Err(e) ==> (r matches Err(e2) && e2 == e && *final(self) == *old(
                self,
            )),
    {
        match outcome {
            Ok(_) => {
                self.reported = report;
                Ok(())
            },
            Err(e) => Err(e),
        }
    }
}

impl SelfReview {
    /// Applies the outcome of editing this review: on success the review is
    /// replaced by what the endpoint handed back, on failure nothing changes
    /// and the error comes back unchanged.
    pub fn edit(&mut self, outcome: Result<SelfReview, TransportError>) -> (r: Result<
        (),
        TransportError,
    >)
        ensures
            outcome matches Ok(s) ==> (r matches Ok(_) && *final(self) == s),
            outcome matches Err(e) ==> (r matches Err(e2) && e2 == e && *final(self) == *old(
                self,
            )),
    {
        match outcome {
            Ok(s) => {
                *self = s;
                Ok(())
            },
            Err(e) => Err(e),
        }
    }
}

/// How reviews are ordered.
#[derive(Clone, Debug, PartialEq)]
pub enum ReviewSortType {
    Newest,
    Oldest,
    Helpful,
    Custom(String),
}

pub enum ReviewSortTypeView {
    Newest,
    Oldest,
    Helpful,
    Custom(Seq<char>),
}

impl View for ReviewSortType {
    type V = ReviewSortTypeView;

    open spec fn view(&self) -> ReviewSortTypeView {
        match self {
            ReviewSortType::Newest => ReviewSortTypeView::Newest,
            ReviewSortType::Oldest => ReviewSortTypeView::Oldest,
            ReviewSortType::Helpful => ReviewSortTypeView::Helpful,
            ReviewSortType::Custom(s) => ReviewSortTypeView::Custom(s@),
        }
    }
}

/// The wire spelling of a review sort order.
pub open spec fn review_sort_value(v: ReviewSortTypeView) -> Seq<char> {
    match v {
        ReviewSortTypeView::Newest => "newest"@,
        ReviewSortTypeView::Oldest => "oldest"@,
        ReviewSortTypeView::Helpful => "helpful"@,
        ReviewSortTypeView::Custom(s) => s,
    }
}

impl ReviewSortType {
    /// Writes the sort order as the wire spells it.
    pub fn to_value(&self) -> (r: String)
        ensures
            r@ == review_sort_value(self@),
    {
        match self {
            ReviewSortType::Newest => String::from_str("newest"),
            ReviewSortType::Oldest => String::from_str("oldest"),
            ReviewSortType::Helpful => String::from_str("helpful"),
            ReviewSortType::Custom(s) => s.clone(),
        }
    }
}

/// How to list reviews: each set option becomes one query pair.
#[derive(Clone, Debug, PartialEq)]
pub struct ReviewOptions {
    pub sort: Option<ReviewSortType>,
    pub filter: Option<RatingStar>,
}

impl Default for ReviewOptions {
    /// Most helpful first, no star filter.
    fn default() -> (r: Self)
        ensures
            r.sort == Some(ReviewSortType::Helpful),
            r.filter is None,
    {
        ReviewOptions { sort: Some(ReviewSortType::Helpful), filter: None }
    }
}

/// The query pairs that review options write.
pub open spec fn review_query_pairs(
    sort: Option<ReviewSortTypeView>,
    filter: Option<RatingStarView>,
) -> Seq<(Seq<char>, Seq<char>)> {
    (match sort {
        Some(s) => seq![("sort"@, review_sort_value(s))],
        None => Seq::empty(),
    }) + (match filter {
        Some(f) => seq![("filter"@, rating_star_value(f))],
        None => Seq::empty(),
    })
}

impl ReviewOptions {
    /// Writes the set options as ordered query pairs.
    pub fn into_query(self) -> (r: Vec<(String, String)>)
        ensures
            pairs_view(r@) == review_query_pairs(
                match self.sort {
                    Some(s) => Some(s@),
                    None => None,
                },
                match self.filter {
                    Some(f) => Some(f@),
                    None => None,
                },
            ),
    {
        let mut out: Vec<(String, String)> = Vec::new();
        match self.sort {
            Some(s) => {
                out.push((String::from_str("sort"), s.to_value()));
            },
            None => (),
        }
        match self.filter {
            Some(f) => {
                out.push((String::from_str("filter"), f.to_value()));
            },
            None => (),
        }
        proof {
            assert(pairs_view(out@) =~= review_query_pairs(
                match self.sort {
                    Some(s) => Some(s@),
                    None => None,
                },
                match self.filter {
                    Some(f) => Some(f@),
                    None => None,
                },
            ));
        }
        out
    }
}

} // verus!
