//! The home-feed resource decoder: one raw JSON object in, exactly one
//! member of a closed variant set out, or a typed decode error.  The outer
//! `resource_type` tag picks the variant; `dynamic_collection` objects carry
//! a second, inner `response_type` tag; two inner families configure
//! themselves through a query string embedded in their `link` field.
use crate::error::{DecodeError, DecodeErrorView, FieldName};
use crate::json::{field_value, has_key, remove_key, take_field, get_field, JsonObj, JsonVal};
use crate::media::{similar_fold, SimilarOptions};
use crate::search::{browse_defaults, browse_fold, browse_options_from_pairs, BrowseOptions, BrowseOptionsView};
use crate::text::str_eq;
use crate::urlquery::{after_question, parse_query, query_pairs, query_suffix};
use vstd::prelude::*;

verus! {

/// The artwork of one carousel entry.
#[derive(Clone, Debug, Default, PartialEq)]
pub struct FeedCarouselImages {
    pub landscape_poster: Option<String>,
    pub portrait_poster: Option<String>,
}

/// One sliding image of the carousel shown at the top of the index page.
#[derive(Clone, Debug, Default, PartialEq)]
pub struct FeedCarousel {
    pub title: String,
    pub slug: String,
    pub description: String,
    /// Link to a series or article.
    pub link: String,
    pub images: FeedCarouselImages,
    pub button_text: String,
}

/// The artwork of a banner, by surface.
#[derive(Clone, Debug, Default, PartialEq)]
pub struct FeedBannerImages {
    pub mobile_small: String,
    pub mobile_large: String,
    pub desktop_small: String,
    pub desktop_large: String,
}

/// A banner that links to a series or article.
#[derive(Clone, Debug, Default, PartialEq)]
pub struct FeedBanner {
    pub title: String,
    pub description: String,
    pub link: String,
    pub images: FeedBannerImages,
}

/// A curated collection: a title with a description and the ids of the
/// series it gathers.
#[derive(Clone, Debug, Default, PartialEq)]
pub struct SeriesFeed {
    pub title: String,
    pub description: String,
    pub ids: Vec<String>,
}

/// A similar-to recommendation.  `similar_id` and `similar_options` are not
/// wire fields: the decoder fills them from the `source_media_id` field and
/// the query string of the `link` field.
#[derive(Clone, Debug, Default, PartialEq)]
pub struct SimilarFeed {
    pub title: String,
    pub description: String,
    pub similar_id: String,
    pub similar_options: SimilarOptions,
}

/// What the decoder reads of a series panel.
#[derive(Clone, Debug, Default, PartialEq)]
pub struct Series {
    pub id: String,
    pub title: String,
    pub description: String,
}

/// One entry of the home feed: the closed variant set.
#[derive(Debug, PartialEq)]
pub enum HomeFeed {
    /// The sliding carousel at the top of the index page.
    CarouselFeed(Vec<FeedCarousel>),
    /// A single series recommendation.
    Series(Series),
    /// Personal recommendations live behind their own endpoint.
    Recommendation,
    /// The watch history lives behind its own endpoint.
    History,
    /// A banner linking to a series or article.
    Banner(FeedBanner),
    /// The watchlist lives behind its own endpoint.
    Watchlist,
    /// A curated collection of series ids.
    SeriesFeed(SeriesFeed),
    /// The news feed lives behind its own endpoint.
    NewsFeed,
    /// Browse content, configured by the embedded query payload.
    Browse(BrowseOptions),
    /// Results similar to a series, configured by the embedded query payload.
    SimilarTo(SimilarFeed),
}

impl Default for HomeFeed {
    /// An empty carousel.
    fn default() -> (r: Self)
        ensures
            r@ == HomeFeedView::CarouselFeed(Seq::<FeedCarouselView>::empty()),
    {
        let entries: Vec<FeedCarousel> = Vec::new();
        proof {
            assert(entries@.map_values(|c: FeedCarousel| c@) =~= Seq::<FeedCarouselView>::empty());
        }
        HomeFeed::CarouselFeed(entries)
    }
}

/// One news item, like a new library anime or dub.  `publish_date` counts
/// seconds since the epoch; a fresh value sits at the epoch itself.
#[derive(Clone, Debug, Default, PartialEq)]
pub struct NewsFeed {
    pub title: String,
    pub description: String,
    pub creator: String,
    pub publish_date: i64,
    pub image_link: String,
    pub news_link: String,
}

pub struct FeedCarouselImagesView {
    pub landscape_poster: Option<Seq<char>>,
    pub portrait_poster: Option<Seq<char>>,
}

pub struct FeedCarouselView {
    pub title: Seq<char>,
    pub slug: Seq<char>,
    pub description: Seq<char>,
    pub link: Seq<char>,
    pub images: FeedCarouselImagesView,
    pub button_text: Seq<char>,
}

pub struct FeedBannerImagesView {
    pub mobile_small: Seq<char>,
    pub mobile_large: Seq<char>,
    pub desktop_small: Seq<char>,
    pub desktop_large: Seq<char>,
}

pub struct FeedBannerView {
    pub title: Seq<char>,
    pub description: Seq<char>,
    pub link: Seq<char>,
    pub images: FeedBannerImagesView,
}

pub struct SeriesFeedView {
    pub title: Seq<char>,
    pub description: Seq<char>,
    pub ids: Seq<Seq<char>>,
}

pub struct SimilarFeedView {
    pub title: Seq<char>,
    pub description: Seq<char>,
    pub similar_id: Seq<char>,
    pub similar_options: SimilarOptions,
}

pub struct SeriesView {
    pub id: Seq<char>,
    pub title: Seq<char>,
    pub description: Seq<char>,
}

pub enum HomeFeedView {
    CarouselFeed(Seq<FeedCarouselView>),
    Series(SeriesView),
    Recommendation,
    History,
    Banner(FeedBannerView),
    Watchlist,
    SeriesFeed(SeriesFeedView),
    NewsFeed,
    Browse(BrowseOptionsView),
    SimilarTo(SimilarFeedView),
}

pub open spec fn opt_str_view(o: Option<String>) -> Option<Seq<char>> {
    match o {
        Some(s) => Some(s@),
        None => None,
    }
}

impl View for FeedCarouselImages {
    type V = FeedCarouselImagesView;

    open spec fn view(&self) -> FeedCarouselImagesView {
        FeedCarouselImagesView {
            landscape_poster: opt_str_view(self.landscape_poster),
            portrait_poster: opt_str_view(self.portrait_poster),
        }
    }
}

impl View for FeedCarousel {
    type V = FeedCarouselView;

    open spec fn view(&self) -> FeedCarouselView {
        FeedCarouselView {
            title: self.title@,
            slug: self.slug@,
            description: self.description@,
            link: self.link@,
            images: self.images@,
            button_text: self.button_text@,
        }
    }
}

impl View for FeedBannerImages {
    type V = FeedBannerImagesView;

    open spec fn view(&self) -> FeedBannerImagesView {
        FeedBannerImagesView {
            mobile_small: self.mobile_small@,
            mobile_large: self.mobile_large@,
            desktop_small: self.desktop_small@,
            desktop_large: self.desktop_large@,
        }
    }
}

impl View for FeedBanner {
    type V = FeedBannerView;

    open spec fn view(&self) -> FeedBannerView {
        FeedBannerView {
            title: self.title@,
            description: self.description@,
            link: self.link@,
            images: self.images@,
        }
    }
}

impl View for SeriesFeed {
    type V = SeriesFeedView;

    open spec fn view(&self) -> SeriesFeedView {
        SeriesFeedView {
            title: self.title@,
            description: self.description@,
            ids: self.ids@.map_values(|s: String| s@),
        }
    }
}

impl View for SimilarFeed {
    type V = SimilarFeedView;

    open spec fn view(&self) -> SimilarFeedView {
        SimilarFeedView {
            title: self.title@,
            description: self.description@,
            similar_id: self.similar_id@,
            similar_options: self.similar_options,
        }
    }
}

impl View for Series {
    type V = SeriesView;

    open spec fn view(&self) -> SeriesView {
        SeriesView { id: self.id@, title: self.title@, description: self.description@ }
    }
}

impl View for HomeFeed {
    type V = HomeFeedView;

    open spec fn view(&self) -> HomeFeedView {
        match self {
            HomeFeed::CarouselFeed(v) => HomeFeedView::CarouselFeed(
                v@.map_values(|c: FeedCarousel| c@),
            ),
            HomeFeed::Series(s) => HomeFeedView::Series(s@),
            HomeFeed::Recommendation => HomeFeedView::Recommendation,
            HomeFeed::History => HomeFeedView::History,
            HomeFeed::Banner(b) => HomeFeedView::Banner(b@),
            HomeFeed::Watchlist => HomeFeedView::Watchlist,
            HomeFeed::SeriesFeed(s) => HomeFeedView::SeriesFeed(s@),
            HomeFeed::NewsFeed => HomeFeedView::NewsFeed,
            HomeFeed::Browse(o) => HomeFeedView::Browse(o@),
            HomeFeed::SimilarTo(s) => HomeFeedView::SimilarTo(s@),
        }
    }
}

/// A string field: absent means empty, present must be a string.
pub open spec fn str_field_of(fs: Seq<(String, JsonVal)>, key: Seq<char>, f: FieldName) -> Result<
    Seq<char>,
    DecodeErrorView,
> {
    if !has_key(fs, key) {
        Ok(Seq::empty())
    } else {
        match field_value(fs, key) {
            JsonVal::Str(s) => Ok(s@),
            _ => Err(DecodeErrorView::WrongFieldType(f)),
        }
    }
}

/// An optional string field: absent or null means none.
pub open spec fn opt_str_field_of(
    fs: Seq<(String, JsonVal)>,
    key: Seq<char>,
    f: FieldName,
) -> Result<Option<Seq<char>>, DecodeErrorView> {
    if !has_key(fs, key) {
        Ok(None)
    } else {
        match field_value(fs, key) {
            JsonVal::Str(s) => Ok(Some(s@)),
            JsonVal::Null => Ok(None),
            _ => Err(DecodeErrorView::WrongFieldType(f)),
        }
    }
}

/// The carousel artwork, `portrait_image` being an accepted alias of
/// `portrait_poster`.
pub open spec fn carousel_images_of(fs: Seq<(String, JsonVal)>) -> Result<
    FeedCarouselImagesView,
    DecodeErrorView,
> {
    match opt_str_field_of(fs, "landscape_poster"@, FieldName::LandscapePoster) {
        Err(e) => Err(e),
        Ok(lp) => {
            let pkey = if has_key(fs, "portrait_poster"@) {
                "portrait_poster"@
            } else {
                "portrait_image"@
            };
            match opt_str_field_of(fs, pkey, FieldName::PortraitPoster) {
                Err(e) => Err(e),
                Ok(pp) => Ok(
                    FeedCarouselImagesView { landscape_poster: lp, portrait_poster: pp },
                ),
            }
        },
    }
}

/// One carousel entry, from its fields.
pub open spec fn carousel_fields_of(fs: Seq<(String, JsonVal)>) -> Result<
    FeedCarouselView,
    DecodeErrorView,
> {
    match str_field_of(fs, "title"@, FieldName::Title) {
        Err(e) => Err(e),
        Ok(title) => match str_field_of(fs, "slug"@, FieldName::Slug) {
            Err(e) => Err(e),
            Ok(slug) => match str_field_of(fs, "description"@, FieldName::Description) {
                Err(e) => Err(e),
                Ok(description) => match str_field_of(fs, "link"@, FieldName::Link) {
                    Err(e) => Err(e),
                    Ok(link) => match carousel_images_field_of(fs) {
                        Err(e) => Err(e),
                        Ok(images) => match str_field_of(fs, "button_text"@, FieldName::ButtonText) {
                            Err(e) => Err(e),
                            Ok(button_text) => Ok(
                                FeedCarouselView {
                                    title,
                                    slug,
                                    description,
                                    link,
                                    images,
                                    button_text,
                                },
                            ),
                        },
                    },
                },
            },
        },
    }
}

/// The `images` field of a carousel entry: absent means no artwork.
pub open spec fn carousel_images_field_of(fs: Seq<(String, JsonVal)>) -> Result<
    FeedCarouselImagesView,
    DecodeErrorView,
> {
    if !has_key(fs, "images"@) {
        Ok(FeedCarouselImagesView { landscape_poster: None, portrait_poster: None })
    } else {
        match field_value(fs, "images"@) {
            JsonVal::Obj(f2) => carousel_images_of(f2@),
            _ => Err(DecodeErrorView::WrongFieldType(FieldName::Images)),
        }
    }
}

/// One carousel entry: it must be an object.
pub open spec fn carousel_of(v: JsonVal) -> Result<FeedCarouselView, DecodeErrorView> {
    match v {
        JsonVal::Obj(fs) => carousel_fields_of(fs@),
        _ => Err(DecodeErrorView::WrongFieldType(FieldName::Items)),
    }
}

/// All carousel entries, in order; the first bad entry fails the decode.
pub open spec fn carousel_list_of(items: Seq<JsonVal>) -> Result<
    Seq<FeedCarouselView>,
    DecodeErrorView,
>
    decreases items.len(),
{
    if items.len() == 0 {
        Ok(Seq::empty())
    } else {
        match carousel_of(items[0]) {
            Err(e) => Err(e),
            Ok(v) => match carousel_list_of(items.drop_first()) {
                Err(e) => Err(e),
                Ok(vs) => Ok(seq![v] + vs),
            },
        }
    }
}

/// The banner artwork, from its fields.
pub open spec fn banner_images_of(fs: Seq<(String, JsonVal)>) -> Result<
    FeedBannerImagesView,
    DecodeErrorView,
> {
    match str_field_of(fs, "mobile_small"@, FieldName::MobileSmall) {
        Err(e) => Err(e),
        Ok(mobile_small) => match str_field_of(fs, "mobile_large"@, FieldName::MobileLarge) {
            Err(e) => Err(e),
            Ok(mobile_large) => match str_field_of(fs, "desktop_small"@, FieldName::DesktopSmall) {
                Err(e) => Err(e),
                Ok(desktop_small) => match str_field_of(
                    fs,
                    "desktop_large"@,
                    FieldName::DesktopLarge,
                ) {
                    Err(e) => Err(e),
                    Ok(desktop_large) => Ok(
                        FeedBannerImagesView {
                            mobile_small,
                            mobile_large,
                            desktop_small,
                            desktop_large,
                        },
                    ),
                },
            },
        },
    }
}

/// A banner, from the fields left after the tag was taken.
pub open spec fn banner_of(fs: Seq<(String, JsonVal)>) -> Result<FeedBannerView, DecodeErrorView> {
    match str_field_of(fs, "title"@, FieldName::Title) {
        Err(e) => Err(e),
        Ok(title) => match str_field_of(fs, "description"@, FieldName::Description) {
            Err(e) => Err(e),
            Ok(description) => match str_field_of(fs, "link"@, FieldName::Link) {
                Err(e) => Err(e),
                Ok(link) => match banner_images_field_of(fs) {
                    Err(e) => Err(e),
                    Ok(images) => Ok(FeedBannerView { title, description, link, images }),
                },
            },
        },
    }
}

/// The `images` field of a banner: absent means empty artwork.
pub open spec fn banner_images_field_of(fs: Seq<(String, JsonVal)>) -> Result<
    FeedBannerImagesView,
    DecodeErrorView,
> {
    if !has_key(fs, "images"@) {
        Ok(
            FeedBannerImagesView {
                mobile_small: Seq::empty(),
                mobile_large: Seq::empty(),
                desktop_small: Seq::empty(),
                desktop_large: Seq::empty(),
            },
        )
    } else {
        match field_value(fs, "images"@) {
            JsonVal::Obj(f2) => banner_images_of(f2@),
            _ => Err(DecodeErrorView::WrongFieldType(FieldName::Images)),
        }
    }
}

/// The ids of a curated collection: absent means none, each one a string.
pub open spec fn ids_field_of(fs: Seq<(String, JsonVal)>) -> Result<Seq<Seq<char>>, DecodeErrorView> {
    if !has_key(fs, "ids"@) {
        Ok(Seq::empty())
    } else {
        match field_value(fs, "ids"@) {
            JsonVal::Arr(elems) => str_list_of(elems@),
            _ => Err(DecodeErrorView::WrongFieldType(FieldName::Ids)),
        }
    }
}

pub open spec fn str_list_of(elems: Seq<JsonVal>) -> Result<Seq<Seq<char>>, DecodeErrorView>
    decreases elems.len(),
{
    if elems.len() == 0 {
        Ok(Seq::empty())
    } else {
        match elems[0] {
            JsonVal::Str(s) => match str_list_of(elems.drop_first()) {
                Err(e) => Err(e),
                Ok(vs) => Ok(seq![s@] + vs),
            },
            _ => Err(DecodeErrorView::WrongFieldType(FieldName::Ids)),
        }
    }
}

/// A curated collection, from the fields left after the tag was taken.
pub open spec fn series_feed_of(fs: Seq<(String, JsonVal)>) -> Result<
    SeriesFeedView,
    DecodeErrorView,
> {
    match str_field_of(fs, "title"@, FieldName::Title) {
        Err(e) => Err(e),
        Ok(title) => match str_field_of(fs, "description"@, FieldName::Description) {
            Err(e) => Err(e),
            Ok(description) => match ids_field_of(fs) {
                Err(e) => Err(e),
                Ok(ids) => Ok(SeriesFeedView { title, description, ids }),
            },
        },
    }
}

/// A series panel: it must be an object.
pub open spec fn series_of(v: JsonVal) -> Result<SeriesView, DecodeErrorView> {
    match v {
        JsonVal::Obj(fs) => match str_field_of(fs@, "id"@, FieldName::Id) {
            Err(e) => Err(e),
            Ok(id) => match str_field_of(fs@, "title"@, FieldName::Title) {
                Err(e) => Err(e),
                Ok(title) => match str_field_of(fs@, "description"@, FieldName::Description) {
                    Err(e) => Err(e),
                    Ok(description) => Ok(SeriesView { id, title, description }),
                },
            },
        },
        _ => Err(DecodeErrorView::WrongFieldType(FieldName::Panel)),
    }
}

/// The plain fields of a similar-to entry.
pub open spec fn similar_base_of(fs: Seq<(String, JsonVal)>) -> Result<
    (Seq<char>, Seq<char>),
    DecodeErrorView,
> {
    match str_field_of(fs, "title"@, FieldName::Title) {
        Err(e) => Err(e),
        Ok(title) => match str_field_of(fs, "description"@, FieldName::Description) {
            Err(e) => Err(e),
            Ok(description) => Ok((title, description)),
        },
    }
}

/// The browse and recent-episodes family: the query string embedded in the
/// `link` field configures fresh browse options.
pub open spec fn browse_link_of(rest: Seq<(String, JsonVal)>) -> Result<
    HomeFeedView,
    DecodeErrorView,
> {
    if !has_key(rest, "link"@) {
        Err(DecodeErrorView::MissingField(FieldName::Link))
    } else {
        match field_value(rest, "link"@) {
            JsonVal::Str(link) => match query_pairs(after_question(link@)) {
                None => Err(DecodeErrorView::MalformedQueryString),
                Some(ps) => Ok(HomeFeedView::Browse(browse_fold(browse_defaults(), ps))),
            },
            _ => Err(DecodeErrorView::WrongFieldType(FieldName::Link)),
        }
    }
}

/// The because-you-watched family: the decoder takes `source_media_id` and
/// the query string of `link` off the wire object, then reads the remainder
/// structurally and enriches it with the id and options just parsed.
pub open spec fn similar_of(rest: Seq<(String, JsonVal)>) -> Result<HomeFeedView, DecodeErrorView> {
    if !has_key(rest, "source_media_id"@) {
        Err(DecodeErrorView::MissingField(FieldName::SourceMediaId))
    } else {
        match field_value(rest, "source_media_id"@) {
            JsonVal::Str(id) => {
                let rest2 = remove_key(rest, "source_media_id"@);
                if !has_key(rest2, "link"@) {
                    Err(DecodeErrorView::MissingField(FieldName::Link))
                } else {
                    match field_value(rest2, "link"@) {
                        JsonVal::Str(link) => {
                            let rest3 = remove_key(rest2, "link"@);
                            match query_pairs(after_question(link@)) {
                                None => Err(DecodeErrorView::MalformedQueryString),
                                Some(ps) => match similar_fold(SimilarOptions { limit: None }, ps) {
                                    Err(e) => Err(e),
                                    Ok(so) => match similar_base_of(rest3) {
                                        Err(e) => Err(e),
                                        Ok(base) => Ok(
                                            HomeFeedView::SimilarTo(
                                                SimilarFeedView {
                                                    title: base.0,
                                                    description: base.1,
                                                    similar_id: id@,
                                                    similar_options: so,
                                                },
                                            ),
                                        ),
                                    },
                                },
                            }
                        },
                        _ => Err(DecodeErrorView::WrongFieldType(FieldName::Link)),
                    }
                }
            },
            _ => Err(DecodeErrorView::WrongFieldType(FieldName::SourceMediaId)),
        }
    }
}

/// The inner dispatch of a `dynamic_collection`, on its `response_type` tag.
pub open spec fn inner_of(t: Seq<char>, rest: Seq<(String, JsonVal)>) -> Result<
    HomeFeedView,
    DecodeErrorView,
> {
    if t == "recommendations"@ {
        Ok(HomeFeedView::Recommendation)
    } else if t == "history"@ {
        Ok(HomeFeedView::History)
    } else if t == "watchlist"@ {
        Ok(HomeFeedView::Watchlist)
    } else if t == "news_feed"@ {
        Ok(HomeFeedView::NewsFeed)
    } else if t == "browse"@ || t == "recent_episodes"@ {
        browse_link_of(rest)
    } else if t == "because_you_watched"@ {
        similar_of(rest)
    } else {
        Err(DecodeErrorView::UnknownVariant { tag: t, raw: rest })
    }
}

/// A `dynamic_collection` object: read the inner tag, then dispatch.
pub open spec fn dynamic_of(rest: Seq<(String, JsonVal)>) -> Result<HomeFeedView, DecodeErrorView> {
    if !has_key(rest, "response_type"@) {
        Err(DecodeErrorView::MissingField(FieldName::ResponseType))
    } else {
        match field_value(rest, "response_type"@) {
            JsonVal::Str(t) => inner_of(t@, remove_key(rest, "response_type"@)),
            _ => Err(DecodeErrorView::WrongFieldType(FieldName::ResponseType)),
        }
    }
}

/// The outer dispatch, on the `resource_type` tag already taken off.
pub open spec fn outer_of(tag: Seq<char>, rest: Seq<(String, JsonVal)>) -> Result<
    HomeFeedView,
    DecodeErrorView,
> {
    if tag == "hero_carousel"@ {
        if !has_key(rest, "items"@) {
            Err(DecodeErrorView::MissingField(FieldName::Items))
        } else {
            match field_value(rest, "items"@) {
                JsonVal::Arr(elems) => match carousel_list_of(elems@) {
                    Err(e) => Err(e),
                    Ok(vs) => Ok(HomeFeedView::CarouselFeed(vs)),
                },
                _ => Err(DecodeErrorView::WrongFieldType(FieldName::Items)),
            }
        }
    } else if tag == "panel"@ {
        if !has_key(rest, "panel"@) {
            Err(DecodeErrorView::MissingField(FieldName::Panel))
        } else {
            match series_of(field_value(rest, "panel"@)) {
                Err(e) => Err(e),
                Ok(s) => Ok(HomeFeedView::Series(s)),
            }
        }
    } else if tag == "dynamic_collection"@ {
        dynamic_of(rest)
    } else if tag == "in_feed_banner"@ {
        match banner_of(rest) {
            Err(e) => Err(e),
            Ok(b) => Ok(HomeFeedView::Banner(b)),
        }
    } else if tag == "curated_collection"@ {
        match series_feed_of(rest) {
            Err(e) => Err(e),
            Ok(s) => Ok(HomeFeedView::SeriesFeed(s)),
        }
    } else {
        Err(DecodeErrorView::UnknownVariant { tag, raw: rest })
    }
}

/// What decoding a raw home-feed object yields: exactly one variant of the
/// closed set, or a typed decode error.
pub open spec fn home_feed_of(obj: Seq<(String, JsonVal)>) -> Result<HomeFeedView, DecodeErrorView> {
    if !has_key(obj, "resource_type"@) {
        Err(DecodeErrorView::MissingField(FieldName::ResourceType))
    } else {
        match field_value(obj, "resource_type"@) {
            JsonVal::Str(tag) => outer_of(tag@, remove_key(obj, "resource_type"@)),
            _ => Err(DecodeErrorView::WrongFieldType(FieldName::ResourceType)),
        }
    }
}

/// A carousel list decodes exactly when every entry does, and then it holds
/// exactly the decoded entries, in their wire order: nothing is dropped,
/// added or reordered.
pub proof fn lemma_carousel_round_trip(items: Seq<JsonVal>)
    ensures
        (carousel_list_of(items) is Ok) <==> (forall|i: int|
            0 <= i < items.len() ==> carousel_of(#[trigger] items[i]) is Ok),
        carousel_list_of(items) matches Ok(vs) ==> {
            &&& vs.len() == items.len()
            &&& forall|i: int|
                0 <= i < items.len() ==> #[trigger] vs[i] == carousel_of(items[i])->Ok_0
        },
    decreases items.len(),
{
    if items.len() > 0 {
        lemma_carousel_round_trip(items.drop_first());
        assert(forall|i: int|
            0 < i < items.len() ==> items.drop_first()[i - 1] == #[trigger] items[i]);
        if carousel_of(items[0]) is Ok && carousel_list_of(items.drop_first()) is Ok {
            let v = carousel_of(items[0])->Ok_0;
            let vs = carousel_list_of(items.drop_first())->Ok_0;
            assert(forall|i: int|
                0 <= i < items.len() ==> #[trigger] (seq![v] + vs)[i] == (if i == 0 {
                    v
                } else {
                    vs[i - 1]
                }));
        }
    }
}

/// A decoded `hero_carousel` object holds exactly the entries of its `items`
/// array, in order.
pub proof fn lemma_hero_carousel_decode(obj: Seq<(String, JsonVal)>, elems: Seq<JsonVal>)
    requires
        has_key(obj, "resource_type"@),
        field_value(obj, "resource_type"@) matches JsonVal::Str(tag) && tag@ == "hero_carousel"@,
        has_key(remove_key(obj, "resource_type"@), "items"@),
        field_value(remove_key(obj, "resource_type"@), "items"@) matches JsonVal::Arr(a) && a@
            == elems,
        forall|i: int| 0 <= i < elems.len() ==> carousel_of(#[trigger] elems[i]) is Ok,
    ensures
        home_feed_of(obj) matches Ok(v) && v matches HomeFeedView::CarouselFeed(vs) && vs.len()
            == elems.len() && (forall|i: int|
            0 <= i < elems.len() ==> #[trigger] vs[i] == carousel_of(elems[i])->Ok_0),
{
    lemma_carousel_round_trip(elems);
}

/// An object whose `resource_type` tag lies outside the closed set decodes
/// to no variant: the decode fails with that tag and the rest of the object.
pub proof fn lemma_unknown_resource_type(obj: Seq<(String, JsonVal)>, tag: String)
    requires
        has_key(obj, "resource_type"@),
        field_value(obj, "resource_type"@) == JsonVal::Str(tag),
        tag@ != "hero_carousel"@,
        tag@ != "panel"@,
        tag@ != "dynamic_collection"@,
        tag@ != "in_feed_banner"@,
        tag@ != "curated_collection"@,
    ensures
        home_feed_of(obj) == Err::<HomeFeedView, DecodeErrorView>(
            DecodeErrorView::UnknownVariant {
                tag: tag@,
                raw: remove_key(obj, "resource_type"@),
            },
        ),
{
}

/// A string field with a default: absent means empty.
fn get_str_field(fields: &JsonObj, key: &str, f: FieldName) -> (r: Result<String, DecodeError>)
    ensures
        match r {
            Ok(s) => str_field_of(fields@, key@, f) == Ok::<Seq<char>, DecodeErrorView>(s@),
            Err(e) => str_field_of(fields@, key@, f) == Err::<Seq<char>, DecodeErrorView>(e@),
        },
{
    match get_field(fields, key) {
        None => Ok(String::new()),
        Some(v) => match v {
            JsonVal::Str(s) => Ok(s.clone()),
            _ => Err(DecodeError::WrongFieldType(f)),
        },
    }
}

/// An optional string field: absent or null means none.
fn get_opt_str_field(fields: &JsonObj, key: &str, f: FieldName) -> (r: Result<
    Option<String>,
    DecodeError,
>)
    ensures
        match r {
            Ok(s) => opt_str_field_of(fields@, key@, f) == Ok::<
                Option<Seq<char>>,
                DecodeErrorView,
            >(opt_str_view(s)),
            Err(e) => opt_str_field_of(fields@, key@, f) == Err::<
                Option<Seq<char>>,
                DecodeErrorView,
            >(e@),
        },
{
    match get_field(fields, key) {
        None => Ok(None),
        Some(v) => match v {
            JsonVal::Str(s) => Ok(Some(s.clone())),
            JsonVal::Null => Ok(None),
            _ => Err(DecodeError::WrongFieldType(f)),
        },
    }
}

fn decode_carousel_images(fields: &JsonObj) -> (r: Result<FeedCarouselImages, DecodeError>)
    ensures
        match r {
            Ok(v) => carousel_images_of(fields@) == Ok::<FeedCarouselImagesView, DecodeErrorView>(
                v@,
            ),
            Err(e) => carousel_images_of(fields@) == Err::<
                FeedCarouselImagesView,
                DecodeErrorView,
            >(e@),
        },
{
    let landscape_poster = match get_opt_str_field(
        fields,
        "landscape_poster",
        FieldName::LandscapePoster,
    ) {
        Ok(v) => v,
        Err(e) => {
            return Err(e);
        },
    };
    let portrait_poster = if get_field(fields, "portrait_poster").is_some() {
        match get_opt_str_field(fields, "portrait_poster", FieldName::PortraitPoster) {
            Ok(v) => v,
            Err(e) => {
                return Err(e);
            },
        }
    } else {
        match get_opt_str_field(fields, "portrait_image", FieldName::PortraitPoster) {
            Ok(v) => v,
            Err(e) => {
                return Err(e);
            },
        }
    };
    Ok(FeedCarouselImages { landscape_poster, portrait_poster })
}

fn decode_carousel_fields(fields: &JsonObj) -> (r: Result<FeedCarousel, DecodeError>)
    ensures
        match r {
            Ok(v) => carousel_fields_of(fields@) == Ok::<FeedCarouselView, DecodeErrorView>(v@),
            Err(e) => carousel_fields_of(fields@) == Err::<FeedCarouselView, DecodeErrorView>(e@),
        },
{
    let title = match get_str_field(fields, "title", FieldName::Title) {
        Ok(v) => v,
        Err(e) => {
            return Err(e);
        },
    };
    let slug = match get_str_field(fields, "slug", FieldName::Slug) {
        Ok(v) => v,
        Err(e) => {
            return Err(e);
        },
    };
    let description = match get_str_field(fields, "description", FieldName::Description) {
        Ok(v) => v,
        Err(e) => {
            return Err(e);
        },
    };
    let link = match get_str_field(fields, "link", FieldName::Link) {
        Ok(v) => v,
        Err(e) => {
            return Err(e);
        },
    };
    let images = match get_field(fields, "images") {
        None => FeedCarouselImages { landscape_poster: None, portrait_poster: None },
        Some(v) => match v {
            JsonVal::Obj(f2) => match decode_carousel_images(f2) {
                Ok(im) => im,
                Err(e) => {
                    return Err(e);
                },
            },
            _ => {
                return Err(DecodeError::WrongFieldType(FieldName::Images));
            },
        },
    };
    let button_text = match get_str_field(fields, "button_text", FieldName::ButtonText) {
        Ok(v) => v,
        Err(e) => {
            return Err(e);
        },
    };
    Ok(FeedCarousel { title, slug, description, link, images, button_text })
}

fn decode_carousel_entry(v: &JsonVal) -> (r: Result<FeedCarousel, DecodeError>)
    ensures
        match r {
            Ok(c) => carousel_of(*v) == Ok::<FeedCarouselView, DecodeErrorView>(c@),
            Err(e) => carousel_of(*v) == Err::<FeedCarouselView, DecodeErrorView>(e@),
        },
{
    match v {
        JsonVal::Obj(fs) => decode_carousel_fields(fs),
        _ => Err(DecodeError::WrongFieldType(FieldName::Items)),
    }
}

fn decode_carousel_items(items: &Vec<JsonVal>) -> (r: Result<Vec<FeedCarousel>, DecodeError>)
    ensures
        match r {
            Ok(v) => carousel_list_of(items@) == Ok::<Seq<FeedCarouselView>, DecodeErrorView>(
                v@.map_values(|c: FeedCarousel| c@),
            ),
            Err(e) => carousel_list_of(items@) == Err::<Seq<FeedCarouselView>, DecodeErrorView>(
                e@,
            ),
        },
{
    let mut out: Vec<FeedCarousel> = Vec::new();
    let mut i: usize = 0;
    proof {
        assert(items@.skip(0) =~= items@);
        assert(out@.map_values(|c: FeedCarousel| c@) =~= Seq::<FeedCarouselView>::empty());
    }
    while i < items.len()
        invariant
            i <= items@.len(),
            out@.len() == i,
            match carousel_list_of(items@.skip(i as int)) {
                Ok(vs) => carousel_list_of(items@) == Ok::<Seq<FeedCarouselView>, DecodeErrorView>(
                    out@.map_values(|c: FeedCarousel| c@) + vs,
                ),
                Err(e) => carousel_list_of(items@) == Err::<
                    Seq<FeedCarouselView>,
                    DecodeErrorView,
                >(e),
            },
        decreases items@.len() - i,
    {
        proof {
            assert(items@.skip(i as int).drop_first() =~= items@.skip(i + 1));
            assert(items@.skip(i as int)[0] == items@[i as int]);
        }
        let ghost out_pre = out@;
        match decode_carousel_entry(&items[i]) {
            Ok(c) => {
                out.push(c);
                proof {
                    assert(out@.map_values(|c: FeedCarousel| c@) =~= out_pre.map_values(
                        |c: FeedCarousel| c@,
                    ) + seq![out@[i as int]@]);
                    if carousel_list_of(items@.skip(i + 1)) is Ok {
                        let vs2 = carousel_list_of(items@.skip(i + 1))->Ok_0;
                        assert(out_pre.map_values(|c: FeedCarousel| c@) + (seq![out@[i as int]@]
                            + vs2) =~= out@.map_values(|c: FeedCarousel| c@) + vs2);
                    }
                }
            },
            Err(e) => {
                return Err(e);
            },
        }
        i += 1;
    }
    proof {
        assert(items@.skip(items@.len() as int) =~= Seq::<JsonVal>::empty());
        assert(out@.map_values(|c: FeedCarousel| c@) + Seq::<FeedCarouselView>::empty()
            =~= out@.map_values(|c: FeedCarousel| c@));
    }
    Ok(out)
}

fn decode_banner_images(fields: &JsonObj) -> (r: Result<FeedBannerImages, DecodeError>)
    ensures
        match r {
            Ok(v) => banner_images_of(fields@) == Ok::<FeedBannerImagesView, DecodeErrorView>(v@),
            Err(e) => banner_images_of(fields@) == Err::<FeedBannerImagesView, DecodeErrorView>(
                e@,
            ),
        },
{
    let mobile_small = match get_str_field(fields, "mobile_small", FieldName::MobileSmall) {
        Ok(v) => v,
        Err(e) => {
            return Err(e);
        },
    };
    let mobile_large = match get_str_field(fields, "mobile_large", FieldName::MobileLarge) {
        Ok(v) => v,
        Err(e) => {
            return Err(e);
        },
    };
    let desktop_small = match get_str_field(fields, "desktop_small", FieldName::DesktopSmall) {
        Ok(v) => v,
        Err(e) => {
            return Err(e);
        },
    };
    let desktop_large = match get_str_field(fields, "desktop_large", FieldName::DesktopLarge) {
        Ok(v) => v,
        Err(e) => {
            return Err(e);
        },
    };
    Ok(FeedBannerImages { mobile_small, mobile_large, desktop_small, desktop_large })
}

fn decode_banner(fields: &JsonObj) -> (r: Result<FeedBanner, DecodeError>)
    ensures
        match r {
            Ok(v) => banner_of(fields@) == Ok::<FeedBannerView, DecodeErrorView>(v@),
            Err(e) => banner_of(fields@) == Err::<FeedBannerView, DecodeErrorView>(e@),
        },
{
    let title = match get_str_field(fields, "title", FieldName::Title) {
        Ok(v) => v,
        Err(e) => {
            return Err(e);
        },
    };
    let description = match get_str_field(fields, "description", FieldName::Description) {
        Ok(v) => v,
        Err(e) => {
            return Err(e);
        },
    };
    let link = match get_str_field(fields, "link", FieldName::Link) {
        Ok(v) => v,
        Err(e) => {
            return Err(e);
        },
    };
    let images = match get_field(fields, "images") {
        None => FeedBannerImages {
            mobile_small: String::new(),
            mobile_large: String::new(),
            desktop_small: String::new(),
            desktop_large: String::new(),
        },
        Some(v) => match v {
            JsonVal::Obj(f2) => match decode_banner_images(f2) {
                Ok(im) => im,
                Err(e) => {
                    return Err(e);
                },
            },
            _ => {
                return Err(DecodeError::WrongFieldType(FieldName::Images));
            },
        },
    };
    Ok(FeedBanner { title, description, link, images })
}

fn decode_string_items(elems: &Vec<JsonVal>) -> (r: Result<Vec<String>, DecodeError>)
    ensures
        match r {
            Ok(v) => str_list_of(elems@) == Ok::<Seq<Seq<char>>, DecodeErrorView>(
                v@.map_values(|s: String| s@),
            ),
            Err(e) => str_list_of(elems@) == Err::<Seq<Seq<char>>, DecodeErrorView>(e@),
        },
{
    let mut out: Vec<String> = Vec::new();
    let mut i: usize = 0;
    proof {
        assert(elems@.skip(0) =~= elems@);
        assert(out@.map_values(|s: String| s@) =~= Seq::<Seq<char>>::empty());
    }
    while i < elems.len()
        invariant
            i <= elems@.len(),
            out@.len() == i,
            match str_list_of(elems@.skip(i as int)) {
                Ok(vs) => str_list_of(elems@) == Ok::<Seq<Seq<char>>, DecodeErrorView>(
                    out@.map_values(|s: String| s@) + vs,
                ),
                Err(e) => str_list_of(elems@) == Err::<Seq<Seq<char>>, DecodeErrorView>(e),
            },
        decreases elems@.len() - i,
    {
        proof {
            assert(elems@.skip(i as int).drop_first() =~= elems@.skip(i + 1));
            assert(elems@.skip(i as int)[0] == elems@[i as int]);
        }
        let ghost out_pre = out@;
        match &elems[i] {
            JsonVal::Str(s) => {
                out.push(s.clone());
                proof {
                    assert(out@.map_values(|s: String| s@) =~= out_pre.map_values(|s: String| s@)
                        + seq![out@[i as int]@]);
                    if str_list_of(elems@.skip(i + 1)) is Ok {
                        let vs2 = str_list_of(elems@.skip(i + 1))->Ok_0;
                        assert(out_pre.map_values(|s: String| s@) + (seq![out@[i as int]@] + vs2)
                            =~= out@.map_values(|s: String| s@) + vs2);
                    }
                }
            },
            _ => {
                return Err(DecodeError::WrongFieldType(FieldName::Ids));
            },
        }
        i += 1;
    }
    proof {
        assert(elems@.skip(elems@.len() as int) =~= Seq::<JsonVal>::empty());
        assert(out@.map_values(|s: String| s@) + Seq::<Seq<char>>::empty() =~= out@.map_values(
            |s: String| s@,
        ));
    }
    Ok(out)
}

fn decode_series_feed(fields: &JsonObj) -> (r: Result<SeriesFeed, DecodeError>)
    ensures
        match r {
            Ok(v) => series_feed_of(fields@) == Ok::<SeriesFeedView, DecodeErrorView>(v@),
            Err(e) => series_feed_of(fields@) == Err::<SeriesFeedView, DecodeErrorView>(e@),
        },
{
    let title = match get_str_field(fields, "title", FieldName::Title) {
        Ok(v) => v,
        Err(e) => {
            return Err(e);
        },
    };
    let description = match get_str_field(fields, "description", FieldName::Description) {
        Ok(v) => v,
        Err(e) => {
            return Err(e);
        },
    };
    let ids = match get_field(fields, "ids") {
        None => {
            let empty_ids: Vec<String> = Vec::new();
            proof {
                assert(empty_ids@.map_values(|s: String| s@) =~= Seq::<Seq<char>>::empty());
            }
            empty_ids
        },
        Some(v) => match v {
            JsonVal::Arr(elems) => match decode_string_items(elems) {
                Ok(ids) => ids,
                Err(e) => {
                    return Err(e);
                },
            },
            _ => {
                return Err(DecodeError::WrongFieldType(FieldName::Ids));
            },
        },
    };
    Ok(SeriesFeed { title, description, ids })
}

fn decode_series(v: &JsonVal) -> (r: Result<Series, DecodeError>)
    ensures
        match r {
            Ok(s) => series_of(*v) == Ok::<SeriesView, DecodeErrorView>(s@),
            Err(e) => series_of(*v) == Err::<SeriesView, DecodeErrorView>(e@),
        },
{
    match v {
        JsonVal::Obj(fs) => {
            let id = match get_str_field(fs, "id", FieldName::Id) {
                Ok(v) => v,
                Err(e) => {
                    return Err(e);
                },
            };
            let title = match get_str_field(fs, "title", FieldName::Title) {
                Ok(v) => v,
                Err(e) => {
                    return Err(e);
                },
            };
            let description = match get_str_field(fs, "description", FieldName::Description) {
                Ok(v) => v,
                Err(e) => {
                    return Err(e);
                },
            };
            Ok(Series { id, title, description })
        },
        _ => Err(DecodeError::WrongFieldType(FieldName::Panel)),
    }
}

impl HomeFeed {
    /// Decodes one raw home-feed object into exactly one member of the
    /// closed variant set, or a typed decode error; `home_feed_of` says
    /// which, for every input.
    pub fn decode(raw: JsonObj) -> (r: Result<HomeFeed, DecodeError>)
        ensures
            match r {
                Ok(v) => home_feed_of(raw@) == Ok::<HomeFeedView, DecodeErrorView>(v@),
                Err(e) => home_feed_of(raw@) == Err::<HomeFeedView, DecodeErrorView>(e@),
            },
    {
        let mut obj = raw;
        let tag = match take_field(&mut obj, "resource_type") {
            None => {
                return Err(DecodeError::MissingField(FieldName::ResourceType));
            },
            Some(v) => match v {
                JsonVal::Str(s) => s,
                _ => {
                    return Err(DecodeError::WrongFieldType(FieldName::ResourceType));
                },
            },
        };
        if str_eq(tag.as_str(), "hero_carousel") {
            match take_field(&mut obj, "items") {
                None => Err(DecodeError::MissingField(FieldName::Items)),
                Some(v) => match v {
                    JsonVal::Arr(elems) => match decode_carousel_items(&elems) {
                        Ok(entries) => Ok(HomeFeed::CarouselFeed(entries)),
                        Err(e) => Err(e),
                    },
                    _ => Err(DecodeError::WrongFieldType(FieldName::Items)),
                },
            }
        } else if str_eq(tag.as_str(), "panel") {
            match take_field(&mut obj, "panel") {
                None => Err(DecodeError::MissingField(FieldName::Panel)),
                Some(v) => match decode_series(&v) {
                    Ok(s) => Ok(HomeFeed::Series(s)),
                    Err(e) => Err(e),
                },
            }
        } else if str_eq(tag.as_str(), "dynamic_collection") {
            Self::decode_dynamic(obj)
        } else if str_eq(tag.as_str(), "in_feed_banner") {
            match decode_banner(&obj) {
                Ok(b) => Ok(HomeFeed::Banner(b)),
                Err(e) => Err(e),
            }
        } else if str_eq(tag.as_str(), "curated_collection") {
            match decode_series_feed(&obj) {
                Ok(s) => Ok(HomeFeed::SeriesFeed(s)),
                Err(e) => Err(e),
            }
        } else {
            Err(DecodeError::UnknownVariant { tag, raw: obj })
        }
    }

    /// The inner dispatch of a `dynamic_collection` object.
    fn decode_dynamic(rest: JsonObj) -> (r: Result<HomeFeed, DecodeError>)
        ensures
            match r {
                Ok(v) => dynamic_of(rest@) == Ok::<HomeFeedView, DecodeErrorView>(v@),
                Err(e) => dynamic_of(rest@) == Err::<HomeFeedView, DecodeErrorView>(e@),
            },
    {
        let mut obj = rest;
        let tag = match take_field(&mut obj, "response_type") {
            None => {
                return Err(DecodeError::MissingField(FieldName::ResponseType));
            },
            Some(v) => match v {
                JsonVal::Str(s) => s,
                _ => {
                    return Err(DecodeError::WrongFieldType(FieldName::ResponseType));
                },
            },
        };
        if str_eq(tag.as_str(), "recommendations") {
            Ok(HomeFeed::Recommendation)
        } else if str_eq(tag.as_str(), "history") {
            Ok(HomeFeed::History)
        } else if str_eq(tag.as_str(), "watchlist") {
            Ok(HomeFeed::Watchlist)
        } else if str_eq(tag.as_str(), "news_feed") {
            Ok(HomeFeed::NewsFeed)
        } else if str_eq(tag.as_str(), "browse") || str_eq(tag.as_str(), "recent_episodes") {
            match get_field(&obj, "link") {
                None => Err(DecodeError::MissingField(FieldName::Link)),
                Some(v) => match v {
                    JsonVal::Str(link) => {
                        let suffix = query_suffix(link.as_str());
                        match parse_query(suffix) {
                            Err(e) => Err(e),
                            Ok(pairs) => Ok(
                                HomeFeed::Browse(
                                    browse_options_from_pairs(BrowseOptions::default(), &pairs),
                                ),
                            ),
                        }
                    },
                    _ => Err(DecodeError::WrongFieldType(FieldName::Link)),
                },
            }
        } else if str_eq(tag.as_str(), "because_you_watched") {
            let id = match take_field(&mut obj, "source_media_id") {
                None => {
                    return Err(DecodeError::MissingField(FieldName::SourceMediaId));
                },
                Some(v) => match v {
                    JsonVal::Str(s) => s,
                    _ => {
                        return Err(DecodeError::WrongFieldType(FieldName::SourceMediaId));
                    },
                },
            };
            let link = match take_field(&mut obj, "link") {
                None => {
                    return Err(DecodeError::MissingField(FieldName::Link));
                },
                Some(v) => match v {
                    JsonVal::Str(s) => s,
                    _ => {
                        return Err(DecodeError::WrongFieldType(FieldName::Link));
                    },
                },
            };
            let suffix = query_suffix(link.as_str());
            let pairs = match parse_query(suffix) {
                Ok(p) => p,
                Err(e) => {
                    return Err(e);
                },
            };
            let options = match crate::media::similar_options_from_pairs(
                SimilarOptions { limit: None },
                &pairs,
            ) {
                Ok(o) => o,
                Err(e) => {
                    return Err(e);
                },
            };
            let title = match get_str_field(&obj, "title", FieldName::Title) {
                Ok(v) => v,
                Err(e) => {
                    return Err(e);
                },
            };
            let description = match get_str_field(&obj, "description", FieldName::Description) {
                Ok(v) => v,
                Err(e) => {
                    return Err(e);
                },
            };
            Ok(
                HomeFeed::SimilarTo(
                    SimilarFeed { title, description, similar_id: id, similar_options: options },
                ),
            )
        } else {
            Err(DecodeError::UnknownVariant { tag, raw: obj })
        }
    }
}

} // verus!
