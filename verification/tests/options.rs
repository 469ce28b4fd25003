use crunchyroll::media::{MediaType, SimilarOptions};
use crunchyroll::review::{RatingStar, ReviewOptions, ReviewSortType};
use crunchyroll::search::{BrowseOptions, BrowseSortType, QueryOptions, QueryType};
use crunchyroll::text::{parse_u32, u32_to_string};

fn pair(k: &str, v: &str) -> (String, String) {
    (String::from(k), String::from(v))
}

#[test]
fn default_browse_options_write_sort_and_limit() {
    let q = BrowseOptions::default().to_query(vec![pair("locale", "en-US")]);
    assert_eq!(
        q,
        vec![pair("locale", "en-US"), pair("sort", "newly_added"), pair("n", "20")]
    );
}

#[test]
fn every_set_browse_option_writes_one_pair_in_order() {
    let options = BrowseOptions::default()
        .categories(vec![String::from("action"), String::from("comedy")])
        .is_dubbed(true)
        .is_subbed(false)
        .simulcast(String::from("spring-2020"))
        .sort(BrowseSortType::Alphabetical)
        .media_type(MediaType::Series)
        .limit(50)
        .start(100);
    assert_eq!(
        options.to_query(vec![]),
        vec![
            pair("categories", "action,comedy"),
            pair("is_dubbed", "true"),
            pair("is_subbed", "false"),
            pair("season_tag", "spring-2020"),
            pair("sort", "alphabetical"),
            pair("type", "series"),
            pair("n", "50"),
            pair("start", "100"),
        ]
    );
}

#[test]
fn custom_spellings_pass_through() {
    let options = BrowseOptions::default()
        .sort(BrowseSortType::Custom(String::from("oddball")))
        .media_type(MediaType::Custom(String::from("clip")));
    let q = options.to_query(vec![]);
    assert_eq!(q, vec![pair("sort", "oddball"), pair("type", "clip"), pair("n", "20")]);
}

#[test]
fn query_options_write_limit_and_kind() {
    let q = QueryOptions {
        limit: Some(7),
        result_type: Some(QueryType::Episode),
    }
    .to_query(vec![pair("q", "test")]);
    assert_eq!(q, vec![pair("q", "test"), pair("n", "7"), pair("type", "episode")]);
    assert_eq!(
        QueryOptions::default().to_query(vec![]),
        vec![pair("n", "20")]
    );
}

#[test]
fn review_options_write_sort_and_filter() {
    assert_eq!(
        ReviewOptions::default().into_query(),
        vec![pair("sort", "helpful")]
    );
    let q = ReviewOptions {
        sort: Some(ReviewSortType::Newest),
        filter: Some(RatingStar::FourStars),
    }
    .into_query();
    assert_eq!(q, vec![pair("sort", "newest"), pair("filter", "4s")]);
}

#[test]
fn similar_options_builder_sets_the_limit() {
    assert_eq!(SimilarOptions::default().limit, None);
    assert_eq!(SimilarOptions::default().limit(12).limit, Some(12));
}

#[test]
fn u32_round_trips_through_its_decimal_spelling() {
    assert_eq!(u32_to_string(0), "0");
    assert_eq!(u32_to_string(42), "42");
    assert_eq!(u32_to_string(4294967295), "4294967295");
    assert_eq!(parse_u32("0").unwrap(), 0);
    assert_eq!(parse_u32("42").unwrap(), 42);
    assert_eq!(parse_u32("+5").unwrap(), 5);
    assert_eq!(parse_u32("4294967295").unwrap(), 4294967295);
    assert!(parse_u32("4294967296").is_err());
    assert!(parse_u32("").is_err());
    assert!(parse_u32("+").is_err());
    assert!(parse_u32("12a").is_err());
    assert!(parse_u32("-3").is_err());
}
