use crunchyroll::error::{DecodeError, FieldName};
use crunchyroll::feed::{FeedCarousel, FeedCarouselImages, HomeFeed};
use crunchyroll::json::JsonVal;
use crunchyroll::media::MediaType;
use crunchyroll::search::{BrowseOptions, BrowseSortType};

fn s(v: &str) -> JsonVal {
    JsonVal::Str(String::from(v))
}

fn obj(pairs: Vec<(&str, JsonVal)>) -> Vec<(String, JsonVal)> {
    pairs
        .into_iter()
        .map(|(k, v)| (String::from(k), v))
        .collect()
}

fn carousel_entry(title: &str, slug: &str) -> JsonVal {
    JsonVal::Obj(obj(vec![
        ("title", s(title)),
        ("slug", s(slug)),
        ("description", s("d")),
        ("link", s("https://example.com")),
        (
            "images",
            JsonVal::Obj(obj(vec![("landscape_poster", s("l.png"))])),
        ),
        ("button_text", s("watch")),
    ]))
}

#[test]
fn hero_carousel_round_trips_entries_in_order() {
    let raw = obj(vec![
        ("resource_type", s("hero_carousel")),
        (
            "items",
            JsonVal::Arr(vec![carousel_entry("first", "a"), carousel_entry("second", "b")]),
        ),
    ]);
    let decoded = HomeFeed::decode(raw).unwrap();
    let expected = vec![
        FeedCarousel {
            title: String::from("first"),
            slug: String::from("a"),
            description: String::from("d"),
            link: String::from("https://example.com"),
            images: FeedCarouselImages {
                landscape_poster: Some(String::from("l.png")),
                portrait_poster: None,
            },
            button_text: String::from("watch"),
        },
        FeedCarousel {
            title: String::from("second"),
            slug: String::from("b"),
            description: String::from("d"),
            link: String::from("https://example.com"),
            images: FeedCarouselImages {
                landscape_poster: Some(String::from("l.png")),
                portrait_poster: None,
            },
            button_text: String::from("watch"),
        },
    ];
    assert_eq!(decoded, HomeFeed::CarouselFeed(expected));
}

#[test]
fn portrait_image_is_an_alias() {
    let raw = obj(vec![
        ("resource_type", s("hero_carousel")),
        (
            "items",
            JsonVal::Arr(vec![JsonVal::Obj(obj(vec![(
                "images",
                JsonVal::Obj(obj(vec![("portrait_image", s("p.png"))])),
            )]))]),
        ),
    ]);
    match HomeFeed::decode(raw).unwrap() {
        HomeFeed::CarouselFeed(entries) => {
            assert_eq!(entries.len(), 1);
            assert_eq!(entries[0].images.portrait_poster, Some(String::from("p.png")));
            assert_eq!(entries[0].title, "");
        }
        other => panic!("expected a carousel, got {:?}", other),
    }
}

#[test]
fn panel_decodes_to_series() {
    let raw = obj(vec![
        ("resource_type", s("panel")),
        (
            "panel",
            JsonVal::Obj(obj(vec![
                ("id", s("GR123")),
                ("title", s("Some Show")),
                ("description", s("about it")),
            ])),
        ),
    ]);
    match HomeFeed::decode(raw).unwrap() {
        HomeFeed::Series(series) => {
            assert_eq!(series.id, "GR123");
            assert_eq!(series.title, "Some Show");
            assert_eq!(series.description, "about it");
        }
        other => panic!("expected a series, got {:?}", other),
    }
}

#[test]
fn unknown_resource_type_is_a_hard_failure() {
    let raw = obj(vec![("resource_type", s("unknown_tag")), ("extra", s("x"))]);
    match HomeFeed::decode(raw) {
        Err(DecodeError::UnknownVariant { tag, raw }) => {
            assert_eq!(tag, "unknown_tag");
            assert_eq!(raw.len(), 1);
            assert_eq!(raw[0].0, "extra");
        }
        other => panic!("expected an unknown-variant failure, got {:?}", other),
    }
}

#[test]
fn missing_resource_type_fails() {
    let raw = obj(vec![("title", s("t"))]);
    assert!(matches!(
        HomeFeed::decode(raw),
        Err(DecodeError::MissingField(FieldName::ResourceType))
    ));
}

#[test]
fn non_string_resource_type_fails() {
    let raw = obj(vec![("resource_type", JsonVal::Int(3))]);
    assert!(matches!(
        HomeFeed::decode(raw),
        Err(DecodeError::WrongFieldType(FieldName::ResourceType))
    ));
}

fn dynamic(response_type: &str, more: Vec<(&str, JsonVal)>) -> Vec<(String, JsonVal)> {
    let mut pairs = vec![("resource_type", s("dynamic_collection")), ("response_type", s(response_type))];
    pairs.extend(more);
    obj(pairs)
}

#[test]
fn marker_response_types_decode_to_markers() {
    assert_eq!(
        HomeFeed::decode(dynamic("recommendations", vec![])).unwrap(),
        HomeFeed::Recommendation
    );
    assert_eq!(HomeFeed::decode(dynamic("history", vec![])).unwrap(), HomeFeed::History);
    assert_eq!(HomeFeed::decode(dynamic("watchlist", vec![])).unwrap(), HomeFeed::Watchlist);
    assert_eq!(HomeFeed::decode(dynamic("news_feed", vec![])).unwrap(), HomeFeed::NewsFeed);
}

#[test]
fn browse_link_query_configures_options() {
    let raw = dynamic(
        "browse",
        vec![(
            "link",
            s("https://x/y?sort_by=alphabetical&type=episode&foo=bar"),
        )],
    );
    match HomeFeed::decode(raw).unwrap() {
        HomeFeed::Browse(options) => {
            assert_eq!(options.sort, Some(BrowseSortType::Alphabetical));
            assert_eq!(options.media_type, Some(MediaType::Episode));
            // the unrecognized key `foo` had no effect: everything else is
            // still at its default
            assert_eq!(options.limit, Some(20));
            assert_eq!(options.start, None);
            assert_eq!(options.categories, None);
            assert_eq!(options.is_dubbed, None);
            assert_eq!(options.is_subbed, None);
            assert_eq!(options.simulcast, None);
        }
        other => panic!("expected browse options, got {:?}", other),
    }
}

#[test]
fn recent_episodes_uses_the_same_link_decode() {
    let raw = dynamic("recent_episodes", vec![("link", s("https://x/y?sort_by=popularity"))]);
    match HomeFeed::decode(raw).unwrap() {
        HomeFeed::Browse(options) => {
            assert_eq!(options.sort, Some(BrowseSortType::Popularity));
        }
        other => panic!("expected browse options, got {:?}", other),
    }
}

#[test]
fn link_without_query_keeps_defaults() {
    let raw = dynamic("browse", vec![("link", s("https://x/y"))]);
    assert_eq!(
        HomeFeed::decode(raw).unwrap(),
        HomeFeed::Browse(BrowseOptions::default())
    );
}

#[test]
fn because_you_watched_enriches_the_decoded_entry() {
    let raw = dynamic(
        "because_you_watched",
        vec![
            ("source_media_id", s("ABC123")),
            ("link", s("https://x/y?n=5")),
            ("title", s("Because you watched")),
            ("description", s("similar shows")),
        ],
    );
    match HomeFeed::decode(raw).unwrap() {
        HomeFeed::SimilarTo(similar) => {
            assert_eq!(similar.similar_id, "ABC123");
            assert_eq!(similar.similar_options.limit, Some(5));
            assert_eq!(similar.title, "Because you watched");
            assert_eq!(similar.description, "similar shows");
        }
        other => panic!("expected a similar-to entry, got {:?}", other),
    }
}

#[test]
fn because_you_watched_bad_limit_fails() {
    let raw = dynamic(
        "because_you_watched",
        vec![("source_media_id", s("ABC123")), ("link", s("https://x/y?n=five"))],
    );
    assert!(matches!(
        HomeFeed::decode(raw),
        Err(DecodeError::MalformedNumericValue)
    ));
}

#[test]
fn because_you_watched_needs_its_id() {
    let raw = dynamic("because_you_watched", vec![("link", s("https://x/y?n=5"))]);
    assert!(matches!(
        HomeFeed::decode(raw),
        Err(DecodeError::MissingField(FieldName::SourceMediaId))
    ));
}

#[test]
fn unknown_response_type_is_a_hard_failure() {
    let raw = dynamic("mystery", vec![]);
    match HomeFeed::decode(raw) {
        Err(DecodeError::UnknownVariant { tag, .. }) => assert_eq!(tag, "mystery"),
        other => panic!("expected an unknown-variant failure, got {:?}", other),
    }
}

#[test]
fn banner_decodes_from_the_remaining_fields() {
    let raw = obj(vec![
        ("resource_type", s("in_feed_banner")),
        ("title", s("big banner")),
        ("description", s("text")),
        ("link", s("https://example.com/article")),
        (
            "images",
            JsonVal::Obj(obj(vec![
                ("mobile_small", s("ms")),
                ("mobile_large", s("ml")),
                ("desktop_small", s("ds")),
                ("desktop_large", s("dl")),
            ])),
        ),
    ]);
    match HomeFeed::decode(raw).unwrap() {
        HomeFeed::Banner(banner) => {
            assert_eq!(banner.title, "big banner");
            assert_eq!(banner.link, "https://example.com/article");
            assert_eq!(banner.images.mobile_small, "ms");
            assert_eq!(banner.images.desktop_large, "dl");
        }
        other => panic!("expected a banner, got {:?}", other),
    }
}

#[test]
fn curated_collection_decodes_ids() {
    let raw = obj(vec![
        ("resource_type", s("curated_collection")),
        ("title", s("picks")),
        ("description", s("our picks")),
        ("ids", JsonVal::Arr(vec![s("A"), s("B"), s("C")])),
    ]);
    match HomeFeed::decode(raw).unwrap() {
        HomeFeed::SeriesFeed(feed) => {
            assert_eq!(feed.title, "picks");
            assert_eq!(feed.ids, vec!["A", "B", "C"]);
        }
        other => panic!("expected a series feed, got {:?}", other),
    }
}

#[test]
fn curated_collection_rejects_non_string_ids() {
    let raw = obj(vec![
        ("resource_type", s("curated_collection")),
        ("ids", JsonVal::Arr(vec![JsonVal::Int(1)])),
    ]);
    assert!(matches!(
        HomeFeed::decode(raw),
        Err(DecodeError::WrongFieldType(FieldName::Ids))
    ));
}

#[test]
fn carousel_rejects_a_non_object_entry() {
    let raw = obj(vec![
        ("resource_type", s("hero_carousel")),
        ("items", JsonVal::Arr(vec![JsonVal::Bool(true)])),
    ]);
    assert!(matches!(
        HomeFeed::decode(raw),
        Err(DecodeError::WrongFieldType(FieldName::Items))
    ));
}

#[test]
fn carousel_needs_its_items() {
    let raw = obj(vec![("resource_type", s("hero_carousel"))]);
    assert!(matches!(
        HomeFeed::decode(raw),
        Err(DecodeError::MissingField(FieldName::Items))
    ));
}
