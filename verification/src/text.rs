//! Text primitives shared by the normalizer and the router: comparison,
//! substring search, decimal rendering and decimal parsing, all stated over
//! sequences of characters.

use vstd::prelude::*;
use vstd::utf8::{
    decode_utf8, decode_utf8_split, encode_utf8, encode_utf8_decode_utf8, encode_utf8_valid_utf8,
    is_char_boundary, is_char_boundary_iff_not_is_continuation_byte,
    is_char_boundary_start_end_of_seq, length_of_first_scalar, pop_first_scalar, valid_utf8,
    valid_utf8_split,
};

verus! {

/// The characters of an optional text.
pub open spec fn optional_text(o: Option<String>) -> Option<Seq<char>> {
    match o {
        Some(s) => Some(s@),
        None => None,
    }
}

/// A copy of an optional text.
pub fn clone_optional_text(o: &Option<String>) -> (r: Option<String>)
    ensures
        r == *o,
{
    match o {
        Some(s) => Some(s.clone()),
        None => None,
    }
}

/// `needle` appears in `haystack` as a contiguous run.
pub open spec fn occurs_in<T>(needle: Seq<T>, haystack: Seq<T>) -> bool {
    exists|i: int|
        0 <= i && i + needle.len() <= haystack.len() && #[trigger] haystack.subrange(
            i,
            i + needle.len(),
        ) == needle
}

/// Two texts with the same UTF-8 encoding are the same text.
pub proof fn lemma_encoding_is_injective(a: Seq<char>, b: Seq<char>)
    requires
        encode_utf8(a) == encode_utf8(b),
    ensures
        a == b,
{
    encode_utf8_decode_utf8(a);
    encode_utf8_decode_utf8(b);
}

/// The encoding of two texts put together is their encodings put together.
pub proof fn lemma_encode_concat(a: Seq<char>, b: Seq<char>)
    ensures
        encode_utf8(a + b) == encode_utf8(a) + encode_utf8(b),
    decreases a.len(),
{
    if a.len() > 0 {
        lemma_encode_concat(a.drop_first(), b);
        assert((a + b).drop_first() =~= a.drop_first() + b);
        assert((a + b)[0] == a[0]);
    }
}

/// Where a valid encoding starts with another valid encoding, the second
/// ends between two characters of the first.
pub proof fn lemma_valid_prefix_ends_at_boundary(bytes: Seq<u8>, prefix: Seq<u8>)
    requires
        valid_utf8(bytes),
        valid_utf8(prefix),
        prefix.len() <= bytes.len(),
        bytes.subrange(0, prefix.len() as int) == prefix,
    ensures
        is_char_boundary(bytes, prefix.len() as int),
    decreases prefix.len(),
{
    if prefix.len() > 0 {
        let width = length_of_first_scalar(prefix);
        assert(forall|i: int| 0 <= i < prefix.len() ==> bytes[i] == bytes.subrange(
            0,
            prefix.len() as int,
        )[i]);
        assert(width == length_of_first_scalar(bytes));
        assert(1 <= width <= prefix.len());
        let rest = pop_first_scalar(bytes);
        let prefix_rest = pop_first_scalar(prefix);
        assert(rest.subrange(0, prefix_rest.len() as int) =~= prefix_rest);
        lemma_valid_prefix_ends_at_boundary(rest, prefix_rest);
    }
}

/// Where a text occurs in another, its encoding occurs in the other's
/// encoding.
pub proof fn lemma_occurrence_encodes(needle: Seq<char>, haystack: Seq<char>)
    requires
        occurs_in(needle, haystack),
    ensures
        occurs_in(encode_utf8(needle), encode_utf8(haystack)),
{
    let bytes = encode_utf8(haystack);
    let pattern = encode_utf8(needle);
    let i = choose|i: int|
        0 <= i && i + needle.len() <= haystack.len() && #[trigger] haystack.subrange(
            i,
            i + needle.len(),
        ) == needle;
    let before = haystack.subrange(0, i);
    let after = haystack.subrange(i + needle.len(), haystack.len() as int);
    assert(haystack =~= before + needle + after);
    lemma_encode_concat(before, needle);
    lemma_encode_concat(before + needle, after);
    let at = encode_utf8(before).len() as int;
    assert(bytes == encode_utf8(before) + pattern + encode_utf8(after));
    assert(bytes.subrange(at, at + pattern.len()) =~= pattern);
}

/// Where the encoding of a text occurs in the encoding of another, the
/// text occurs in the other: a run of bytes that is itself an encoding can
/// only stand between whole characters.
pub proof fn lemma_occurrence_decodes(needle: Seq<char>, haystack: Seq<char>)
    requires
        occurs_in(encode_utf8(needle), encode_utf8(haystack)),
    ensures
        occurs_in(needle, haystack),
{
    let bytes = encode_utf8(haystack);
    let pattern = encode_utf8(needle);
    encode_utf8_valid_utf8(haystack);
    encode_utf8_valid_utf8(needle);
    encode_utf8_decode_utf8(haystack);
    encode_utf8_decode_utf8(needle);
    if pattern.len() == 0 {
        assert(needle =~= Seq::<char>::empty());
        assert(haystack.subrange(0, 0) =~= needle);
    } else {
        let at = choose|at: int|
            0 <= at && at + pattern.len() <= bytes.len() && #[trigger] bytes.subrange(
                at,
                at + pattern.len(),
            ) == pattern;
        let width = pattern.len() as int;
        assert(bytes[at] == bytes.subrange(at, at + width)[0]);
        is_char_boundary_start_end_of_seq(pattern);
        is_char_boundary_iff_not_is_continuation_byte(pattern, 0);
        is_char_boundary_iff_not_is_continuation_byte(bytes, at);
        assert(is_char_boundary(bytes, at));
        valid_utf8_split(bytes, at);
        decode_utf8_split(bytes, at);
        let head = bytes.subrange(0, at);
        let tail = bytes.subrange(at, bytes.len() as int);
        assert(tail.subrange(0, width) =~= pattern);
        lemma_valid_prefix_ends_at_boundary(tail, pattern);
        valid_utf8_split(tail, width);
        decode_utf8_split(tail, width);
        let before = decode_utf8(head);
        let after = decode_utf8(tail.subrange(width, tail.len() as int));
        assert(decode_utf8(tail) =~= needle + after);
        assert(haystack =~= before + needle + after);
        let i = before.len() as int;
        assert(haystack.subrange(i, i + needle.len()) =~= needle);
    }
}

/// A text occurs in another exactly when its encoding occurs in the
/// other's encoding: a search may go by bytes.
pub proof fn lemma_occurs_in_encoding(needle: Seq<char>, haystack: Seq<char>)
    ensures
        occurs_in(needle, haystack) <==> occurs_in(encode_utf8(needle), encode_utf8(haystack)),
{
    if occurs_in(needle, haystack) {
        lemma_occurrence_encodes(needle, haystack);
    }
    if occurs_in(encode_utf8(needle), encode_utf8(haystack)) {
        lemma_occurrence_decodes(needle, haystack);
    }
}

fn bytes_equal(a: &[u8], b: &[u8]) -> (r: bool)
    ensures
        r == (a@ == b@),
{
    if a.len() != b.len() {
        return false;
    }
    let mut i: usize = 0;
    while i < a.len()
        invariant
            i <= a.len(),
            a.len() == b.len(),
            forall|j: int| 0 <= j < i ==> a@[j] == b@[j],
        decreases a.len() - i,
    {
        if a[i] != b[i] {
            return false;
        }
        i = i + 1;
    }
    assert(a@ =~= b@);
    true
}

fn bytes_match_at(haystack: &[u8], needle: &[u8], at: usize) -> (r: bool)
    requires
        at + needle.len() <= haystack.len(),
    ensures
        r == (haystack@.subrange(at as int, at + needle.len()) == needle@),
{
    let ghost window = haystack@.subrange(at as int, at + needle.len());
    let mut i: usize = 0;
    while i < needle.len()
        invariant
            i <= needle.len(),
            at + needle.len() <= haystack.len(),
            window == haystack@.subrange(at as int, at + needle.len()),
            forall|j: int| 0 <= j < i ==> window[j] == needle@[j],
        decreases needle.len() - i,
    {
        if haystack[at + i] != needle[i] {
            assert(window[i as int] != needle@[i as int]);
            return false;
        }
        i = i + 1;
    }
    assert(window =~= needle@);
    true
}

fn bytes_contain(haystack: &[u8], needle: &[u8]) -> (r: bool)
    ensures
        r == occurs_in(needle@, haystack@),
{
    if needle.len() > haystack.len() {
        return false;
    }
    let last: usize = haystack.len() - needle.len();
    let mut at: usize = 0;
    loop
        invariant
            at <= last,
            last + needle.len() == haystack.len(),
            forall|j: int|
                0 <= j < at ==> #[trigger] haystack@.subrange(j, j + needle.len()) != needle@,
        decreases last - at,
    {
        if bytes_match_at(haystack, needle, at) {
            return true;
        }
        if at == last {
            return false;
        }
        at = at + 1;
    }
}

/// Do `a` and `b` hold the same characters?
pub fn same_text(a: &str, b: &str) -> (r: bool)
    ensures
        r == (a@ == b@),
{
    let r: bool = bytes_equal(a.as_bytes(), b.as_bytes());
    proof {
        if r {
            lemma_encoding_is_injective(a@, b@);
        }
    }
    r
}

/// Does `needle` occur in `haystack`? The empty text occurs in every text.
pub fn text_contains(haystack: &str, needle: &str) -> (r: bool)
    ensures
        r == occurs_in(needle@, haystack@),
{
    proof {
        lemma_occurs_in_encoding(needle@, haystack@);
    }
    bytes_contain(haystack.as_bytes(), needle.as_bytes())
}

/// The character that writes the digit `d`.
pub open spec fn digit_char(d: nat) -> char {
    if d == 0 {
        '0'
    } else if d == 1 {
        '1'
    } else if d == 2 {
        '2'
    } else if d == 3 {
        '3'
    } else if d == 4 {
        '4'
    } else if d == 5 {
        '5'
    } else if d == 6 {
        '6'
    } else if d == 7 {
        '7'
    } else if d == 8 {
        '8'
    } else {
        '9'
    }
}

/// `n` in base ten, most significant digit first, without leading zeros.
pub open spec fn decimal_digits(n: nat) -> Seq<char>
    decreases n,
{
    if n < 10 {
        seq![digit_char(n)]
    } else {
        decimal_digits(n / 10).push(digit_char(n % 10))
    }
}

fn digit_text(d: u64) -> (r: &'static str)
    requires
        d < 10,
    ensures
        r@ == seq![digit_char(d as nat)],
{
    proof {
        reveal_strlit("0");
        reveal_strlit("1");
        reveal_strlit("2");
        reveal_strlit("3");
        reveal_strlit("4");
        reveal_strlit("5");
        reveal_strlit("6");
        reveal_strlit("7");
        reveal_strlit("8");
        reveal_strlit("9");
    }
    if d == 0 {
        "0"
    } else if d == 1 {
        "1"
    } else if d == 2 {
        "2"
    } else if d == 3 {
        "3"
    } else if d == 4 {
        "4"
    } else if d == 5 {
        "5"
    } else if d == 6 {
        "6"
    } else if d == 7 {
        "7"
    } else if d == 8 {
        "8"
    } else {
        "9"
    }
}

/// Writes `n` in base ten.
pub fn decimal_text(n: u64) -> (s: String)
    ensures
        s@ == decimal_digits(n as nat),
    decreases n,
{
    if n < 10 {
        String::from_str(digit_text(n))
    } else {
        let mut s: String = decimal_text(n / 10);
        s.append(digit_text(n % 10));
        assert(s@ =~= decimal_digits(n as nat));
        s
    }
}

/// `c` is one of the ten decimal digits.
pub open spec fn is_digit(c: char) -> bool {
    '0' <= c && c <= '9'
}

/// The number that the digit `c` writes.
pub open spec fn digit_value(c: char) -> nat {
    (c as nat - '0' as nat) as nat
}

/// Every character of `s` is a decimal digit.
pub open spec fn all_digits(s: Seq<char>) -> bool {
    forall|i: int| 0 <= i < s.len() ==> is_digit(#[trigger] s[i])
}

/// The number that a run of digits writes in base ten; the empty run writes 0.
pub open spec fn digits_value(s: Seq<char>) -> nat
    decreases s.len(),
{
    if s.len() == 0 {
        0
    } else {
        digits_value(s.drop_last()) * 10 + digit_value(s.last())
    }
}

/// `s` starts with a plus or a minus sign.
pub open spec fn has_sign(s: Seq<char>) -> bool {
    s.len() > 0 && (s[0] == '+' || s[0] == '-')
}

/// `s` with its leading sign, if any, taken away.
pub open spec fn unsigned_part(s: Seq<char>) -> Seq<char> {
    if has_sign(s) {
        s.subrange(1, s.len() as int)
    } else {
        s
    }
}

/// The integer that `s` writes, where its unsigned part is a run of digits.
pub open spec fn signed_value(s: Seq<char>) -> int {
    if s.len() > 0 && s[0] == '-' {
        -(digits_value(unsigned_part(s)) as int)
    } else {
        digits_value(unsigned_part(s)) as int
    }
}

/// What a text means as a signed 64-bit integer: an optional sign, then one
/// or more decimal digits and nothing else, with a value that fits.
pub open spec fn integer_text_value(s: Seq<char>) -> Option<i64> {
    if unsigned_part(s).len() > 0 && all_digits(unsigned_part(s)) && i64::MIN <= signed_value(s)
        <= i64::MAX {
        Some(signed_value(s) as i64)
    } else {
        None
    }
}

/// A run of digits writes at least as much as any of its prefixes.
pub proof fn lemma_digits_value_prefix(s: Seq<char>, k: int)
    requires
        0 <= k <= s.len(),
    ensures
        digits_value(s.take(k)) <= digits_value(s),
    decreases s.len(),
{
    if k == s.len() {
        assert(s.take(k) =~= s);
    } else {
        lemma_digits_value_prefix(s.drop_last(), k);
        assert(s.drop_last().take(k) =~= s.take(k));
    }
}

/// Reads a signed 64-bit integer written in base ten.
pub fn parse_i64(s: &str) -> (r: Option<i64>)
    ensures
        r == integer_text_value(s@),
{
    if !s.is_ascii() {
        proof {
            // Some character is outside ASCII, so it is neither a sign nor a digit.
            let i = choose|i: int| 0 <= i < s@.len() && !('\0' <= #[trigger] s@[i] <= '\u{7f}');
            if has_sign(s@) {
                assert(i > 0);
                assert(unsigned_part(s@)[i - 1] == s@[i]);
            }
        }
        return None;
    }
    let bytes: &[u8] = s.as_bytes();
    let n: usize = bytes.len();
    proof {
        vstd::string::is_ascii_spec_bytes(s);
        assert(bytes@.len() == s@.len());
        assert(forall|i: int| 0 <= i < n ==> bytes@[i] == #[trigger] s@[i] as u8);
    }
    if n == 0 {
        return None;
    }
    let negative: bool = bytes[0] == 45;
    let start: usize = if bytes[0] == 45 || bytes[0] == 43 {
        1
    } else {
        0
    };
    assert(has_sign(s@) == (start == 1));
    assert(negative == (s@[0] == '-'));
    let ghost body = unsigned_part(s@);
    assert(body =~= s@.subrange(start as int, n as int));
    if start == n {
        return None;
    }
    let limit: u64 = if negative {
        9223372036854775808
    } else {
        9223372036854775807
    };
    let mut acc: u64 = 0;
    let mut i: usize = start;
    assert(body.take(0) =~= Seq::<char>::empty());
    while i < n
        invariant
            start <= i <= n,
            n == bytes@.len(),
            n == s@.len(),
            start <= 1,
            body == unsigned_part(s@),
            body == s@.subrange(start as int, n as int),
            negative == (s@[0] == '-'),
            limit == if negative {
                9223372036854775808u64
            } else {
                9223372036854775807u64
            },
            forall|j: int| 0 <= j < n ==> bytes@[j] == #[trigger] s@[j] as u8,
            vstd::utf8::is_ascii_chars(s@),
            all_digits(body.take(i - start)),
            acc == digits_value(body.take(i - start)),
            acc <= limit,
        decreases n - i,
    {
        let b: u8 = bytes[i];
        let ghost c: char = s@[i as int];
        assert(body[i - start] == c);
        if b < 48 || b > 57 {
            assert(!is_digit(c));
            return None;
        }
        assert(is_digit(c));
        let d: u64 = (b - 48) as u64;
        assert(d == digit_value(c));
        proof {
            let next = body.take(i - start + 1);
            assert(next.drop_last() =~= body.take(i - start));
            assert(next.last() == c);
            assert(digits_value(next) == acc * 10 + d);
            assert forall|j: int| 0 <= j < next.len() implies is_digit(#[trigger] next[j]) by {
                if j < i - start {
                    assert(next[j] == body.take(i - start)[j]);
                }
            }
        }
        if acc > (limit - d) / 10 {
            proof {
                // The digits read so far already write more than fits.
                lemma_digits_value_prefix(body, i - start + 1);
            }
            return None;
        }
        acc = acc * 10 + d;
        i = i + 1;
    }
    assert(body.take(n - start) =~= body);
    if negative {
        if acc == 9223372036854775808 {
            Some(i64::MIN)
        } else {
            let v: i64 = acc as i64;
            Some(-v)
        }
    } else {
        Some(acc as i64)
    }
}

} // verus!
