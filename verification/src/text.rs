//! Character-level helpers: string comparison, reading a `u32` out of its
//! decimal spelling, and writing one back.
use crate::error::DecodeError;
use vstd::prelude::*;
use vstd::string::StrSliceExecFns;
use vstd::string::StringExecFns;

verus! {

/// Whether two string slices spell the same characters.
pub fn str_eq(a: &str, b: &str) -> (r: bool)
    ensures
        r == (a@ == b@),
{
    let la = a.unicode_len();
    let lb = b.unicode_len();
    if la != lb {
        return false;
    }
    let mut i: usize = 0;
    while i < la
        invariant
            la == a@.len(),
            la == b@.len(),
            i <= la,
            forall|j: int| 0 <= j < i ==> a@[j] == b@[j],
        decreases la - i,
    {
        if a.get_char(i) != b.get_char(i) {
            return false;
        }
        i += 1;
    }
    proof {
        assert(a@ =~= b@);
    }
    true
}

pub open spec fn is_dec_digit(c: char) -> bool {
    '0' <= c && c <= '9'
}

pub open spec fn digit_val(c: char) -> int {
    c as int - '0' as int
}

/// The number spelled by a run of decimal digits, most significant first.
pub open spec fn digits_val(s: Seq<char>) -> int
    decreases s.len(),
{
    if s.len() == 0 {
        0
    } else {
        digits_val(s.drop_last()) * 10 + digit_val(s.last())
    }
}

pub open spec fn all_dec_digits(s: Seq<char>) -> bool {
    forall|j: int| 0 <= j < s.len() ==> is_dec_digit(#[trigger] s[j])
}

/// The digits of `s` after an optional leading `+` sign.
pub open spec fn unsigned_body(s: Seq<char>) -> Seq<char> {
    if s.len() > 0 && s[0] == '+' {
        s.drop_first()
    } else {
        s
    }
}

/// What it takes for a string of digits to denote a `u32`.
pub open spec fn u32_parseable(s: Seq<char>) -> bool {
    &&& s.len() > 0
    &&& all_dec_digits(s)
    &&& digits_val(s) <= u32::MAX
}

proof fn lemma_digits_val_nonneg(s: Seq<char>)
    requires
        all_dec_digits(s),
    ensures
        digits_val(s) >= 0,
    decreases s.len(),
{
    if s.len() > 0 {
        assert(all_dec_digits(s.drop_last()));
        lemma_digits_val_nonneg(s.drop_last());
    }
}

/// Each further digit can only grow the value.
proof fn lemma_digits_val_grows(s: Seq<char>, i: int)
    requires
        all_dec_digits(s),
        0 <= i <= s.len(),
    ensures
        digits_val(s) >= digits_val(s.take(i)),
    decreases s.len() - i,
{
    if i < s.len() {
        lemma_digits_val_grows(s, i + 1);
        assert(s.take(i + 1).drop_last() =~= s.take(i));
        assert(all_dec_digits(s.take(i)));
        lemma_digits_val_nonneg(s.take(i));
        assert(digits_val(s.take(i + 1)) == digits_val(s.take(i)) * 10 + digit_val(s.take(i + 1).last()));
    } else {
        assert(s.take(i) =~= s);
    }
}

/// Reads a `u32` from its decimal spelling, allowing one leading `+` sign,
/// exactly when the digits denote a value that fits.
pub fn parse_u32(s: &str) -> (r: Result<u32, DecodeError>)
    ensures
        u32_parseable(unsigned_body(s@)) ==> (r matches Ok(v) && v == digits_val(
            unsigned_body(s@),
        )),
        !u32_parseable(unsigned_body(s@)) ==> (r matches Err(e) && e@
            == crate::error::DecodeErrorView::MalformedNumericValue),
{
    let len = s.unicode_len();
    let mut i: usize = 0;
    if len > 0 && s.get_char(0) == '+' {
        i = 1;
    }
    let ghost start = i as int;
    let ghost body = unsigned_body(s@);
    proof {
        assert(body =~= s@.subrange(start, len as int));
    }
    if i >= len {
        return Err(DecodeError::MalformedNumericValue);
    }
    let mut acc: u32 = 0;
    while i < len
        invariant
            len == s@.len(),
            0 <= start <= i <= len,
            start < len,
            body == unsigned_body(s@),
            body == s@.subrange(start, len as int),
            all_dec_digits(s@.subrange(start, i as int)),
            acc == digits_val(s@.subrange(start, i as int)),
        decreases len - i,
    {
        let c = s.get_char(i);
        if !('0' <= c && c <= '9') {
            proof {
                assert(start <= i < len);
                assert(body.len() == len - start);
                assert(0 <= i - start < body.len());
                assert(body[i - start] == s@[i as int]);
                assert(!is_dec_digit(body[i - start]));
            }
            return Err(DecodeError::MalformedNumericValue);
        }
        let d = (c as u32) - 48;
        let ghost prefix = s@.subrange(start, i as int);
        proof {
            assert(s@.subrange(start, i + 1).drop_last() =~= prefix);
            assert(body.take(i + 1 - start) =~= s@.subrange(start, i + 1));
        }
        if acc > (u32::MAX - d) / 10 {
            proof {
                if all_dec_digits(body) {
                    lemma_digits_val_grows(body, i + 1 - start);
                }
            }
            return Err(DecodeError::MalformedNumericValue);
        }
        acc = acc * 10 + d;
        i += 1;
    }
    proof {
        assert(s@.subrange(start, len as int) =~= body);
    }
    Ok(acc)
}

/// The decimal digit characters.
pub open spec fn digit_char(d: int) -> char {
    if d == 0 {
        '0'
    } else if d == 1 {
        '1'
    } else if d == 2 {
        '2'
    } else if d == 3 {
        '3'
    } else if d == 4 {
        '4'
    } else if d == 5 {
        '5'
    } else if d == 6 {
        '6'
    } else if d == 7 {
        '7'
    } else if d == 8 {
        '8'
    } else {
        '9'
    }
}

/// The decimal spelling of `n`, most significant digit first.
pub open spec fn u32_digits(n: nat) -> Seq<char>
    decreases n,
{
    if n < 10 {
        seq![digit_char(n as int)]
    } else {
        u32_digits(n / 10).push(digit_char((n % 10) as int))
    }
}

fn digit_string(d: u32) -> (r: String)
    requires
        d < 10,
    ensures
        r@ == seq![digit_char(d as int)],
{
    proof {
        reveal_strlit("0");
        reveal_strlit("1");
        reveal_strlit("2");
        reveal_strlit("3");
        reveal_strlit("4");
        reveal_strlit("5");
        reveal_strlit("6");
        reveal_strlit("7");
        reveal_strlit("8");
        reveal_strlit("9");
    }
    let r = match d {
        0 => String::from_str("0"),
        1 => String::from_str("1"),
        2 => String::from_str("2"),
        3 => String::from_str("3"),
        4 => String::from_str("4"),
        5 => String::from_str("5"),
        6 => String::from_str("6"),
        7 => String::from_str("7"),
        8 => String::from_str("8"),
        _ => String::from_str("9"),
    };
    proof {
        assert(r@ =~= seq![digit_char(d as int)]);
    }
    r
}

/// Writes `n` in decimal.
pub fn u32_to_string(n: u32) -> (r: String)
    ensures
        r@ == u32_digits(n as nat),
    decreases n,
{
    if n < 10 {
        digit_string(n)
    } else {
        let mut r = u32_to_string(n / 10);
        let d = digit_string(n % 10);
        r.append(d.as_str());
        proof {
            assert(r@ =~= u32_digits(n as nat));
        }
        r
    }
}

/// A list of values as one comma-separated value.
pub open spec fn join_comma(xs: Seq<Seq<char>>) -> Seq<char>
    decreases xs.len(),
{
    if xs.len() == 0 {
        Seq::empty()
    } else if xs.len() == 1 {
        xs[0]
    } else {
        join_comma(xs.drop_last()) + ","@ + xs.last()
    }
}

/// Writes the strings as one comma-separated string.
pub fn join_comma_strings(xs: &Vec<String>) -> (r: String)
    ensures
        r@ == join_comma(xs@.map_values(|s: String| s@)),
{
    let ghost xv = xs@.map_values(|s: String| s@);
    let mut out = String::new();
    let mut i: usize = 0;
    proof {
        assert(xv.take(0) =~= Seq::<Seq<char>>::empty());
    }
    while i < xs.len()
        invariant
            xv == xs@.map_values(|s: String| s@),
            i <= xs@.len(),
            out@ == join_comma(xv.take(i as int)),
        decreases xs@.len() - i,
    {
        proof {
            assert(xv.take(i + 1).drop_last() =~= xv.take(i as int));
            assert(xv.take(i + 1).last() == xv[i as int]);
        }
        if i > 0 {
            out.append(",");
        }
        out.append(xs[i].as_str());
        i += 1;
    }
    proof {
        assert(xv.take(xs@.len() as int) =~= xv);
    }
    out
}

/// `true` and `false`, as a query string writes them.
pub fn bool_to_string(b: bool) -> (r: String)
    ensures
        b ==> r@ == "true"@,
        !b ==> r@ == "false"@,
{
    if b {
        String::from_str("true")
    } else {
        String::from_str("false")
    }
}

} // verus!
