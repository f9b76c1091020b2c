use vstd::prelude::*;

verus! {

/// An ASCII decimal digit.
pub open spec fn is_ascii_digit(c: char) -> bool {
    '0' <= c && c <= '9'
}

/// Every character is an ASCII decimal digit.
pub open spec fn all_digits(s: Seq<char>) -> bool {
    forall|i: int| 0 <= i < s.len() ==> #[trigger] is_ascii_digit(s[i])
}

/// The value of a string of decimal digits.
pub open spec fn digits_value(s: Seq<char>) -> int
    decreases s.len(),
{
    if s.len() == 0 {
        0
    } else {
        digits_value(s.drop_last()) * 10 + (s.last() as int - '0' as int)
    }
}

/// The value that std's integer parsing reads from `s`: an optional `+`
/// (or, for a signed type, `-`) followed by at least one ASCII digit, and
/// nothing else. Whether the value fits the type is checked apart.
pub open spec fn spec_parse_int(s: Seq<char>, signed: bool) -> Option<int> {
    let (negative, body) = if s.len() > 0 && s[0] == '+' {
        (false, s.skip(1))
    } else if signed && s.len() > 0 && s[0] == '-' {
        (true, s.skip(1))
    } else {
        (false, s)
    };
    if body.len() > 0 && all_digits(body) {
        Some(if negative { -digits_value(body) } else { digits_value(body) })
    } else {
        None
    }
}

/// What `s.parse::<u32>()` gives: the value, if `s` has the form of an
/// unsigned integer and the value fits.
pub open spec fn spec_parse_u32(s: Seq<char>) -> Option<u32> {
    match spec_parse_int(s, false) {
        Some(v) => if 0 <= v <= u32::MAX { Some(v as u32) } else { None },
        None => None,
    }
}

/// What `s.parse::<i64>()` gives: the value, if `s` has the form of an
/// integer and the value fits.
pub open spec fn spec_parse_i64(s: Seq<char>) -> Option<i64> {
    match spec_parse_int(s, true) {
        Some(v) => if i64::MIN <= v <= i64::MAX { Some(v as i64) } else { None },
        None => None,
    }
}

/// What `s.parse::<bool>()` gives: only `true` and `false` are accepted.
pub open spec fn spec_parse_bool(s: Seq<char>) -> Option<bool> {
    if s == "true"@ {
        Some(true)
    } else if s == "false"@ {
        Some(false)
    } else {
        None
    }
}

/// A longer run of digits is worth at least as much as its start.
proof fn lemma_digits_value_grows(s: Seq<char>, k: int)
    requires
        0 <= k <= s.len(),
        all_digits(s),
    ensures
        digits_value(s) >= digits_value(s.take(k)),
        digits_value(s) >= 0,
    decreases s.len(),
{
    if s.len() == 0 {
        assert(s.take(k) =~= s);
    } else if k == s.len() {
        assert(s.take(k) =~= s);
        let t = s.drop_last();
        assert(all_digits(t)) by {
            assert forall|i: int| 0 <= i < t.len() implies #[trigger] is_ascii_digit(t[i]) by {
                assert(is_ascii_digit(s[i]));
            }
        }
        lemma_digits_value_grows(t, 0);
        assert(is_ascii_digit(s[s.len() - 1]));
    } else {
        let t = s.drop_last();
        assert(all_digits(t)) by {
            assert forall|i: int| 0 <= i < t.len() implies #[trigger] is_ascii_digit(t[i]) by {
                assert(is_ascii_digit(s[i]));
            }
        }
        lemma_digits_value_grows(t, k);
        assert(t.take(k) =~= s.take(k));
        assert(is_ascii_digit(s[s.len() - 1]));
    }
}

/// The value of the digits `chars[start..]`, if they are all ASCII digits
/// and the value is at most `limit`.
fn digits_up_to(chars: &Vec<char>, start: usize, limit: u64) -> (r: Option<u64>)
    requires
        start <= chars@.len(),
        limit >= 9,
    ensures
        match r {
            Some(v) => all_digits(chars@.skip(start as int)) && v == digits_value(chars@.skip(start as int))
                && v <= limit,
            None => !all_digits(chars@.skip(start as int)) || digits_value(chars@.skip(start as int)) > limit,
        },
{
    let ghost body = chars@.skip(start as int);
    let n = chars.len();
    let mut v: u64 = 0;
    let mut i: usize = start;
    while i < n
        invariant
            start <= i <= n,
            n == chars@.len(),
            body == chars@.skip(start as int),
            all_digits(body.take(i - start)),
            v == digits_value(body.take(i - start)),
            v <= limit,
            limit >= 9,
        decreases n - i,
    {
        let c = chars[i];
        let ghost k = (i - start) as int;
        assert(body[k] == c);
        if !('0' <= c && c <= '9') {
            proof {
                assert(!is_ascii_digit(body[k]));
            }
            return None;
        }
        let d = (c as u32 - '0' as u32) as u64;
        assert(d <= 9);
        assert(body.take(k + 1).drop_last() =~= body.take(k));
        assert(all_digits(body.take(k + 1))) by {
            assert forall|j: int| 0 <= j < k + 1 implies #[trigger] is_ascii_digit(body.take(k + 1)[j]) by {
                if j < k {
                    assert(body.take(k + 1)[j] == body.take(k)[j]);
                }
            }
        }
        if v > (limit - d) / 10 {
            proof {
                assert(digits_value(body.take(k + 1)) == v * 10 + d);
                assert(v * 10 + d > limit) by (nonlinear_arith)
                    requires
                        v > (limit - d) / 10,
                        d <= 9,
                ;
                if all_digits(body) {
                    lemma_digits_value_grows(body, k + 1);
                }
            }
            return None;
        }
        proof {
            assert(v * 10 + d <= limit) by (nonlinear_arith)
                requires
                    v <= (limit - d) / 10,
                    d <= 9,
            ;
        }
        v = v * 10 + d;
        i = i + 1;
    }
    assert(body.take(i - start) =~= body);
    Some(v)
}

/// Parse an unsigned 32-bit integer as `u32::from_str` does: an optional `+`
/// followed by ASCII digits, and a value that fits.
pub(crate) fn parse_u32(s: &str) -> (r: Option<u32>)
    ensures
        r == spec_parse_u32(s@),
{
    let chars = chars_of(s);
    let start: usize = if chars.len() > 0 && chars[0] == '+' { 1 } else { 0 };
    assert(start == 0 ==> chars@.skip(0) =~= s@);
    if start >= chars.len() {
        return None;
    }
    match digits_up_to(&chars, start, 0xFFFF_FFFF) {
        Some(v) => Some(v as u32),
        None => None,
    }
}

/// Parse a signed 64-bit integer as `i64::from_str` does: an optional `+`
/// or `-` followed by ASCII digits, and a value that fits.
pub(crate) fn parse_i64(s: &str) -> (r: Option<i64>)
    ensures
        r == spec_parse_i64(s@),
{
    let chars = chars_of(s);
    let negative = chars.len() > 0 && chars[0] == '-';
    let start: usize = if chars.len() > 0 && (chars[0] == '+' || chars[0] == '-') { 1 } else { 0 };
    assert(start == 0 ==> chars@.skip(0) =~= s@);
    if start >= chars.len() {
        return None;
    }
    let limit: u64 = if negative { 0x8000_0000_0000_0000 } else { 0x7FFF_FFFF_FFFF_FFFF };
    match digits_up_to(&chars, start, limit) {
        Some(v) => {
            if negative {
                if v == 0x8000_0000_0000_0000 {
                    Some(i64::MIN)
                } else {
                    Some(-(v as i64))
                }
            } else {
                Some(v as i64)
            }
        },
        None => None,
    }
}

/// Parse a boolean as `bool::from_str` does: only `true` and `false`.
pub(crate) fn parse_bool(s: &str) -> (r: Option<bool>)
    ensures
        r == spec_parse_bool(s@),
{
    let text = String::from_str(s);
    if text == String::from_str("true") {
        Some(true)
    } else if text == String::from_str("false") {
        Some(false)
    } else {
        None
    }
}

/// The characters of `s`, in order.
pub fn chars_of(s: &str) -> (r: Vec<char>)
    ensures
        r@ == s@,
{
    broadcast use vstd::string::axiom_spec_iter;
    let mut v: Vec<char> = Vec::new();
    for c in it: s.chars()
        invariant
            it.seq() == s@,
            v@ == it.seq().take(it.index() as int),
    {
        v.push(c);
        assert(v@ =~= it.seq().take(it.index() as int + 1));
    }
    assert(v@ =~= s@);
    v
}

} // verus!
