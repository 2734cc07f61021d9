//! Parsing of the textual values the queueing service reports: decimal
//! integers for message counters and attribute values, and the queue name
//! taken from the tail of a queue URL.

use vstd::prelude::*;

verus! {

pub open spec fn is_decimal_digit(c: char) -> bool {
    '0' <= c && c <= '9'
}

pub open spec fn digit_value(c: char) -> int {
    c as int - '0' as int
}

pub open spec fn all_digits(s: Seq<char>) -> bool {
    forall|i: int| 0 <= i < s.len() ==> is_decimal_digit(s[i])
}

/// The value of a string of decimal digits, most significant first.
pub open spec fn digits_value(s: Seq<char>) -> int
    decreases s.len(),
{
    if s.len() == 0 {
        0
    } else {
        digits_value(s.drop_last()) * 10 + digit_value(s.last())
    }
}

/// The mathematical value a decimal string denotes: an optional sign
/// followed by at least one digit and nothing else, as `str::parse`
/// understands signed integers.
pub open spec fn spec_parse_int(s: Seq<char>) -> Option<int> {
    if s.len() == 0 {
        None
    } else {
        let digits = if s[0] == '-' || s[0] == '+' {
            s.drop_first()
        } else {
            s
        };
        if digits.len() == 0 || !all_digits(digits) {
            None
        } else if s[0] == '-' {
            Some(-digits_value(digits))
        } else {
            Some(digits_value(digits))
        }
    }
}

pub open spec fn spec_parse_i64(s: Seq<char>) -> Option<i64> {
    match spec_parse_int(s) {
        Some(v) => if i64::MIN <= v && v <= i64::MAX {
            Some(v as i64)
        } else {
            None
        },
        None => None,
    }
}

pub open spec fn spec_parse_i32(s: Seq<char>) -> Option<i32> {
    match spec_parse_int(s) {
        Some(v) => if i32::MIN <= v && v <= i32::MAX {
            Some(v as i32)
        } else {
            None
        },
        None => None,
    }
}

proof fn lemma_digits_value_nonneg(s: Seq<char>)
    requires
        all_digits(s),
    ensures
        digits_value(s) >= 0,
    decreases s.len(),
{
    if s.len() > 0 {
        assert(all_digits(s.drop_last()));
        lemma_digits_value_nonneg(s.drop_last());
    }
}

/// Appending digits never decreases the value of a digit string.
proof fn lemma_digits_value_prefix_le(s: Seq<char>, k: int)
    requires
        all_digits(s),
        0 <= k <= s.len(),
    ensures
        digits_value(s.take(k)) <= digits_value(s),
    decreases s.len() - k,
{
    if k < s.len() {
        assert(all_digits(s.take(k))) by {
            assert(forall|i: int| 0 <= i < k ==> s.take(k)[i] == s[i]);
        }
        lemma_digits_value_nonneg(s.take(k));
        assert(s.take(k + 1).drop_last() =~= s.take(k));
        assert(s.take(k + 1).last() == s[k]);
        assert(digits_value(s.take(k + 1)) == digits_value(s.take(k)) * 10 + digit_value(s[k]));
        lemma_digits_value_prefix_le(s, k + 1);
    } else {
        assert(s.take(k) =~= s);
    }
}

/// Parses a signed decimal integer exactly as `str::parse::<i64>` does: an
/// optional `+` or `-` sign, then one or more digits; anything else, or a
/// value outside the `i64` range, gives `None`.
pub fn parse_i64(s: &str) -> (r: Option<i64>)
    ensures
        r == spec_parse_i64(s@),
{
    let n = s.unicode_len();
    if n == 0 {
        return None;
    }
    let first = s.get_char(0);
    let neg = first == '-';
    let start: usize = if first == '-' || first == '+' {
        1
    } else {
        0
    };
    let ghost digits = s@.subrange(start as int, n as int);
    proof {
        if start == 1 {
            assert(digits =~= s@.drop_first());
        } else {
            assert(digits =~= s@);
        }
    }
    if n == start {
        return None;
    }
    // The magnitude may reach 2^63 for a negative number, 2^63 - 1 for a
    // positive one; anything beyond is out of range whatever follows.
    let bound: i128 = if neg {
        9223372036854775808i128
    } else {
        9223372036854775807i128
    };
    let mut mag: i128 = 0;
    let mut i: usize = start;
    while i < n
        invariant
            start <= i <= n,
            n == s@.len(),
            start < n,
            (start == 0 || start == 1),
            neg == (s@[0] == '-'),
            start == 1 <==> (s@[0] == '-' || s@[0] == '+'),
            start == 1 ==> digits == s@.drop_first(),
            start == 0 ==> digits == s@,
            digits == s@.subrange(start as int, n as int),
            digits.len() == n - start,
            all_digits(digits.take(i - start)),
            mag == digits_value(digits.take(i - start)),
            0 <= mag <= bound,
            bound == 9223372036854775807i128 + if neg { 1int } else { 0int },
        decreases n - i,
    {
        let c = s.get_char(i);
        let ghost prev = digits.take(i - start);
        if c < '0' || c > '9' {
            proof {
                assert(digits[i - start] == c);
                assert(!all_digits(digits)) by {
                    assert(!is_decimal_digit(digits[i - start]));
                }
                assert(spec_parse_int(s@) is None);
            }
            return None;
        }
        let d: i128 = ((c as u32) - ('0' as u32)) as i128;
        mag = mag * 10 + d;
        proof {
            assert(digits.take(i + 1 - start).drop_last() =~= prev);
            assert(digits.take(i + 1 - start).last() == c);
            assert(mag == digits_value(digits.take(i + 1 - start)));
        }
        if mag > bound {
            proof {
                if all_digits(digits) {
                    lemma_digits_value_prefix_le(digits, i + 1 - start);
                    assert(digits_value(digits) >= mag > bound);
                    if neg {
                        assert(spec_parse_int(s@) == Some(-digits_value(digits)));
                        assert(-digits_value(digits) < i64::MIN);
                    } else {
                        assert(spec_parse_int(s@) == Some(digits_value(digits)));
                        assert(digits_value(digits) > i64::MAX);
                    }
                } else {
                    assert(spec_parse_int(s@) is None);
                }
                assert(spec_parse_i64(s@) is None);
            }
            return None;
        }
        i += 1;
    }
    proof {
        assert(digits.take(n - start) =~= digits);
    }
    if neg {
        Some((-mag) as i64)
    } else {
        Some(mag as i64)
    }
}

/// Parses a signed decimal integer exactly as `str::parse::<i32>` does.
pub fn parse_i32(s: &str) -> (r: Option<i32>)
    ensures
        r == spec_parse_i32(s@),
{
    match parse_i64(s) {
        Some(v) => if -2147483648i64 <= v && v <= 2147483647i64 {
            Some(v as i32)
        } else {
            None
        },
        None => None,
    }
}

/// The part of a URL after its last `/`: the whole string when it holds no
/// `/`, empty when it ends in one.
pub open spec fn spec_queue_name(s: Seq<char>) -> Seq<char>
    decreases s.len(),
{
    if s.len() == 0 {
        s
    } else if s.last() == '/' {
        Seq::empty()
    } else {
        spec_queue_name(s.drop_last()).push(s.last())
    }
}

/// Extracts the display name of a queue from its URL: everything after the
/// last `/`.
pub fn queue_name_from_url(url: &str) -> (r: String)
    ensures
        r@ == spec_queue_name(url@),
{
    let n = url.unicode_len();
    let mut cut: usize = 0;
    let mut i: usize = 0;
    while i < n
        invariant
            cut <= i <= n,
            n == url@.len(),
            spec_queue_name(url@.take(i as int)) == url@.subrange(cut as int, i as int),
        decreases n - i,
    {
        let c = url.get_char(i);
        proof {
            assert(url@.take(i + 1).drop_last() =~= url@.take(i as int));
            assert(url@.take(i + 1).last() == c);
        }
        if c == '/' {
            cut = i + 1;
            proof {
                assert(spec_queue_name(url@.take(i + 1)) =~= url@.subrange(cut as int, i + 1));
            }
        } else {
            proof {
                assert(spec_queue_name(url@.take(i + 1)) =~= url@.subrange(cut as int, i + 1));
            }
        }
        i += 1;
    }
    proof {
        assert(url@.take(n as int) =~= url@);
    }
    let name = url.substring_char(cut, n);
    name.to_owned()
}

/// Whether a queue name marks a dead-letter queue by convention: it ends in
/// `-dlq` or `_dlq`.
pub open spec fn spec_is_dlq(s: Seq<char>) -> bool {
    &&& s.len() >= 4
    &&& (s[s.len() - 4] == '-' || s[s.len() - 4] == '_')
    &&& s[s.len() - 3] == 'd'
    &&& s[s.len() - 2] == 'l'
    &&& s[s.len() - 1] == 'q'
}

/// Recognises a dead-letter queue name; a presentation hint only.
pub fn is_dlq_name(name: &str) -> (r: bool)
    ensures
        r == spec_is_dlq(name@),
{
    let n = name.unicode_len();
    if n < 4 {
        return false;
    }
    let sep = name.get_char(n - 4);
    (sep == '-' || sep == '_') && name.get_char(n - 3) == 'd' && name.get_char(n - 2) == 'l'
        && name.get_char(n - 1) == 'q'
}

} // verus!
