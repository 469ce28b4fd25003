//! The query-string side of the embedded-payload variants: the suffix of a
//! link after its first `?`, handed to a form-urlencoded parser, comes back
//! as key/value pairs.
use crate::error::DecodeError;
use vstd::prelude::*;
use vstd::string::StrSliceExecFns;

verus! {

/// What `serde_urlencoded::from_str` makes of a query string when read as a
/// list of key/value pairs: `None` stands for a parse failure.  The result is
/// a function of the characters alone.
pub uninterp spec fn query_pairs(s: Seq<char>) -> Option<Seq<(Seq<char>, Seq<char>)>>;

#[verifier::external_type_specification]
#[verifier::external_body]
pub struct ExUrlDecodeError(serde_urlencoded::de::Error);

/// Relies on serde_urlencoded::from_str (for `Vec<(String, String)>`): it
/// decodes an `application/x-www-form-urlencoded` string into its key/value
/// pairs in order, or fails; what it returns depends on the input characters
/// alone, which `query_pairs` names.
#[verifier::external_body]
fn parse_urlencoded(s: &str) -> (r: Result<Vec<(String, String)>, serde_urlencoded::de::Error>)
    ensures
        match r {
            Ok(v) => query_pairs(s@) == Some(pairs_view(v@)),
            Err(_) => query_pairs(s@) is None,
        },
{
    serde_urlencoded::from_str::<Vec<(String, String)>>(s)
}

/// The characters of each key and value of a pair list.
pub open spec fn pairs_view(s: Seq<(String, String)>) -> Seq<(Seq<char>, Seq<char>)> {
    s.map_values(|p: (String, String)| (p.0@, p.1@))
}

/// Parses a query string into its key/value pairs; an unparseable string is
/// a hard decode failure.
pub fn parse_query(s: &str) -> (r: Result<Vec<(String, String)>, DecodeError>)
    ensures
        query_pairs(s@) matches Some(ps) ==> (r matches Ok(v) && pairs_view(v@) == ps),
        query_pairs(s@) is None ==> (r matches Err(e) && e@
            == crate::error::DecodeErrorView::MalformedQueryString),
{
    match parse_urlencoded(s) {
        Ok(v) => Ok(v),
        Err(_) => Err(DecodeError::MalformedQueryString),
    }
}

/// The index of the first `?`, or `-1` if there is none.
pub open spec fn qmark_index(s: Seq<char>) -> int
    decreases s.len(),
{
    if s.len() == 0 {
        -1
    } else if s[0] == '?' {
        0
    } else {
        let r = qmark_index(s.drop_first());
        if r < 0 {
            -1
        } else {
            r + 1
        }
    }
}

/// The query-string portion of a link: everything after the first `?`, or
/// the whole string if there is no `?`.
pub open spec fn after_question(s: Seq<char>) -> Seq<char> {
    if qmark_index(s) < 0 {
        s
    } else {
        s.subrange(qmark_index(s) + 1, s.len() as int)
    }
}

proof fn lemma_qmark_index_first(s: Seq<char>, i: int)
    requires
        0 <= i < s.len(),
        s[i] == '?',
        forall|j: int| 0 <= j < i ==> s[j] != '?',
    ensures
        qmark_index(s) == i,
    decreases s.len(),
{
    if i > 0 {
        lemma_qmark_index_first(s.drop_first(), i - 1);
    }
}

proof fn lemma_qmark_index_none(s: Seq<char>)
    requires
        forall|j: int| 0 <= j < s.len() ==> s[j] != '?',
    ensures
        qmark_index(s) == -1,
    decreases s.len(),
{
    if s.len() > 0 {
        lemma_qmark_index_none(s.drop_first());
    }
}

/// Cuts a link down to its query-string portion.
pub fn query_suffix<'a>(link: &'a str) -> (r: &'a str)
    ensures
        r@ == after_question(link@),
{
    let len = link.unicode_len();
    let mut i: usize = 0;
    while i < len
        invariant
            len == link@.len(),
            i <= len,
            forall|j: int| 0 <= j < i ==> link@[j] != '?',
        decreases len - i,
    {
        if link.get_char(i) == '?' {
            proof {
                lemma_qmark_index_first(link@, i as int);
            }
            return link.substring_char(i + 1, len);
        }
        i += 1;
    }
    proof {
        lemma_qmark_index_none(link@);
    }
    link
}

} // verus!
