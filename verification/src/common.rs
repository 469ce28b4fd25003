//! The bulk shapes that paged endpoints answer with, and the selection of a
//! tagged bucket out of a mixed bulk answer.
use crate::text::str_eq;
use vstd::prelude::*;

verus! {

/// A bulk answer: the page's data and the server-reported total of the whole
/// collection.
#[derive(Clone, Debug, Default, PartialEq)]
pub struct V2BulkResult<T> {
    pub data: Vec<T>,
    pub total: u32,
}

/// One tagged bucket of a mixed bulk answer.
#[derive(Clone, Debug, Default, PartialEq)]
pub struct V2TypeBulkResult<T> {
    pub result_type: String,
    pub items: Vec<T>,
    pub total: u32,
}

/// The index of the first bucket tagged `tag`, or `-1` if there is none.
pub open spec fn bucket_index<T>(bs: Seq<V2TypeBulkResult<T>>, tag: Seq<char>) -> int
    decreases bs.len(),
{
    if bs.len() == 0 {
        -1
    } else if bs[0].result_type@ == tag {
        0
    } else {
        let r = bucket_index(bs.drop_first(), tag);
        if r < 0 {
            -1
        } else {
            r + 1
        }
    }
}

proof fn lemma_bucket_index_first<T>(bs: Seq<V2TypeBulkResult<T>>, tag: Seq<char>, i: int)
    requires
        0 <= i < bs.len(),
        bs[i].result_type@ == tag,
        forall|j: int| 0 <= j < i ==> bs[j].result_type@ != tag,
    ensures
        bucket_index(bs, tag) == i,
    decreases bs.len(),
{
    if i > 0 {
        lemma_bucket_index_first(bs.drop_first(), tag, i - 1);
    }
}

proof fn lemma_bucket_index_none<T>(bs: Seq<V2TypeBulkResult<T>>, tag: Seq<char>)
    requires
        forall|j: int| 0 <= j < bs.len() ==> bs[j].result_type@ != tag,
    ensures
        bucket_index(bs, tag) == -1,
    decreases bs.len(),
{
    if bs.len() > 0 {
        lemma_bucket_index_none(bs.drop_first(), tag);
    }
}

/// Picks the first bucket tagged `tag` out of a mixed bulk answer and hands
/// back its items and total; a missing bucket reads as empty.
pub fn select_typed_bucket<T>(buckets: Vec<V2TypeBulkResult<T>>, tag: &str) -> (r: (Vec<T>, u32))
    ensures
        bucket_index(buckets@, tag@) >= 0 ==> {
            &&& r.0 == buckets@[bucket_index(buckets@, tag@)].items
            &&& r.1 == buckets@[bucket_index(buckets@, tag@)].total
        },
        bucket_index(buckets@, tag@) < 0 ==> r.0@.len() == 0 && r.1 == 0,
{
    let mut bs = buckets;
    let mut i: usize = 0;
    while i < bs.len()
        invariant
            bs@ == buckets@,
            i <= bs@.len(),
            forall|j: int| 0 <= j < i ==> bs@[j].result_type@ != tag@,
        decreases bs@.len() - i,
    {
        if str_eq(bs[i].result_type.as_str(), tag) {
            proof {
                lemma_bucket_index_first(bs@, tag@, i as int);
            }
            let b = bs.remove(i);
            return (b.items, b.total);
        }
        i += 1;
    }
    proof {
        lemma_bucket_index_none(bs@, tag@);
    }
    (Vec::new(), 0)
}

} // verus!
