use crunchyroll::common::{select_typed_bucket, V2TypeBulkResult};
use crunchyroll::review::ReportMethod;
use crunchyroll::error::DecodeError;
use crunchyroll::review::{rating_to_bool, Review, SelfReview};
use crunchyroll::search::{BulkResult, Collection, QueryBulkResult, QueryResults};

fn collection(id: &str) -> Collection {
    Collection {
        id: String::from(id),
        title: String::from("t"),
        description: String::from("d"),
    }
}

fn bucket(tag: &str, ids: Vec<&str>, total: u32) -> QueryBulkResult {
    QueryBulkResult {
        result_type: String::from(tag),
        items: ids.into_iter().map(collection).collect(),
        total,
    }
}

#[test]
fn try_from_sorts_buckets_by_tag() {
    let value = BulkResult {
        items: vec![
            bucket("top_results", vec!["a"], 1),
            bucket("series", vec!["b", "c"], 2),
            bucket("movie_listing", vec![], 0),
            bucket("episode", vec!["d"], 9),
        ],
        total: 4,
    };
    let results = QueryResults::try_from(value).unwrap();
    assert_eq!(results.top_results.as_ref().unwrap().items[0].id, "a");
    assert_eq!(results.series.as_ref().unwrap().items.len(), 2);
    assert_eq!(results.movie_listing.as_ref().unwrap().items.len(), 0);
    assert_eq!(results.episode.as_ref().unwrap().total, 9);
}

#[test]
fn try_from_rejects_an_unknown_tag() {
    let value = BulkResult {
        items: vec![bucket("top_results", vec!["a"], 1), bucket("mystery", vec![], 0)],
        total: 2,
    };
    match QueryResults::try_from(value) {
        Err(DecodeError::UnknownVariant { tag, .. }) => assert_eq!(tag, "mystery"),
        other => panic!("expected an unknown-variant failure, got {:?}", other),
    }
}

#[test]
fn try_from_lets_the_last_bucket_of_a_tag_win() {
    let value = BulkResult {
        items: vec![bucket("series", vec!["old"], 1), bucket("series", vec!["new"], 1)],
        total: 2,
    };
    let results = QueryResults::try_from(value).unwrap();
    assert_eq!(results.series.unwrap().items[0].id, "new");
    let empty = QueryResults::try_from(BulkResult { items: vec![], total: 0 }).unwrap();
    assert_eq!(empty, QueryResults::default());
}

fn v2bucket(tag: &str, items: Vec<u32>, total: u32) -> V2TypeBulkResult<u32> {
    V2TypeBulkResult {
        result_type: String::from(tag),
        items,
        total,
    }
}

#[test]
fn select_typed_bucket_takes_the_first_match() {
    let buckets = vec![
        v2bucket("latest_news", vec![9], 1),
        v2bucket("top_news", vec![1, 2], 7),
        v2bucket("top_news", vec![3], 1),
    ];
    let (items, total) = select_typed_bucket(buckets, "top_news");
    assert_eq!(items, vec![1, 2]);
    assert_eq!(total, 7);
}

#[test]
fn select_typed_bucket_reads_a_missing_bucket_as_empty() {
    let buckets = vec![v2bucket("latest_news", vec![9], 1)];
    let (items, total) = select_typed_bucket(buckets, "top_news");
    assert_eq!(items, Vec::<u32>::new());
    assert_eq!(total, 0);
}

#[test]
fn rating_values_decode_to_helpfulness() {
    assert_eq!(rating_to_bool("yes").unwrap(), Some(true));
    assert_eq!(rating_to_bool("no").unwrap(), Some(false));
    assert_eq!(rating_to_bool("").unwrap(), None);
    match rating_to_bool("maybe") {
        Err(DecodeError::UnknownVariant { tag, .. }) => assert_eq!(tag, "maybe"),
        other => panic!("expected an unknown-variant failure, got {:?}", other),
    }
}

#[test]
fn mark_helpful_applies_only_on_success() {
    let mut review = Review::default();
    assert_eq!(review.ratings.helpful, None);
    review.mark_helpful(true, Ok(())).unwrap();
    assert_eq!(review.ratings.helpful, Some(true));
    let failed = review.mark_helpful(
        false,
        Err(crunchyroll::error::TransportError { message: String::from("down") }),
    );
    assert!(failed.is_err());
    assert_eq!(review.ratings.helpful, Some(true));
}

#[test]
fn report_toggles_on_success_and_picks_its_verb() {
    assert_eq!(Review::report_method(true), ReportMethod::Put);
    assert_eq!(Review::report_method(false), ReportMethod::Delete);
    let mut review = Review::default();
    review.report(true, Ok(())).unwrap();
    assert!(review.reported);
    review.report(false, Ok(())).unwrap();
    assert!(!review.reported);
}

#[test]
fn edit_replaces_the_review_on_success() {
    let mut mine = SelfReview::default();
    let mut fresh = SelfReview::default();
    fresh.review.title = String::from("new title");
    mine.edit(Ok(fresh.clone())).unwrap();
    assert_eq!(mine, fresh);
    let failed = mine.edit(Err(crunchyroll::error::TransportError {
        message: String::from("down"),
    }));
    assert!(failed.is_err());
    assert_eq!(mine.review.title, "new title");
}
