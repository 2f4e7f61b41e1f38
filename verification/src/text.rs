//! Byte and character level helpers shared by the HTTP, form and code generation logic.
use vstd::prelude::*;
use vstd::utf8::*;

verus! {

broadcast use vstd::seq::group_seq_axioms;

/// The UTF-8 bytes of a string.
pub open spec fn utf8_of(s: Seq<char>) -> Seq<u8> {
    encode_utf8(s)
}

/// No name occurs twice among the pairs: what a map keyed by name holds, kept as a list.
pub open spec fn distinct_names<V>(fs: Seq<(String, V)>) -> bool {
    forall|i: int, j: int| 0 <= i < j < fs.len() ==> (#[trigger] fs[i]).0@ != (#[trigger] fs[j]).0@
}

// ---------------------------------------------------------------------------
// Searching for a byte sequence
// ---------------------------------------------------------------------------

/// `needle` occurs in `hay` starting at index `at`.
pub open spec fn occurs_at(hay: Seq<u8>, needle: Seq<u8>, at: int) -> bool {
    0 <= at && at + needle.len() <= hay.len() && hay.subrange(at, at + needle.len()) == needle
}

/// The first index at or after `start` where `needle` occurs in `hay`.
pub open spec fn find_from(hay: Seq<u8>, needle: Seq<u8>, start: int) -> Option<int>
    decreases hay.len() + 1 - start,
{
    if start < 0 || start + needle.len() > hay.len() {
        None
    } else if occurs_at(hay, needle, start) {
        Some(start)
    } else {
        find_from(hay, needle, start + 1)
    }
}

/// The first index where `needle` occurs in `hay`.
pub open spec fn find_first(hay: Seq<u8>, needle: Seq<u8>) -> Option<int> {
    find_from(hay, needle, 0)
}

/// `needle` is a contiguous part of `hay`.
pub open spec fn has_infix(hay: Seq<u8>, needle: Seq<u8>) -> bool {
    exists|i: int| occurs_at(hay, needle, i)
}

/// What `find_from` returns is an occurrence, and no earlier one exists from `start` on.
pub proof fn lemma_find_from(hay: Seq<u8>, needle: Seq<u8>, start: int)
    requires
        0 <= start,
    ensures
        find_from(hay, needle, start) matches Some(p) ==> start <= p && occurs_at(hay, needle, p)
            && forall|j: int| start <= j < p ==> !occurs_at(hay, needle, j),
        find_from(hay, needle, start) is None ==> forall|j: int|
            start <= j ==> !occurs_at(hay, needle, j),
    decreases hay.len() + 1 - start,
{
    if start + needle.len() > hay.len() {
    } else if occurs_at(hay, needle, start) {
    } else {
        lemma_find_from(hay, needle, start + 1);
    }
}

/// `find_first` finds an occurrence exactly when there is one.
pub proof fn lemma_find_first(hay: Seq<u8>, needle: Seq<u8>)
    ensures
        find_first(hay, needle) matches Some(p) ==> occurs_at(hay, needle, p) && forall|j: int|
            0 <= j < p ==> !occurs_at(hay, needle, j),
        find_first(hay, needle) is Some <==> has_infix(hay, needle),
{
    lemma_find_from(hay, needle, 0);
    if find_first(hay, needle) is None {
        assert forall|i: int| !occurs_at(hay, needle, i) by {
            if i >= 0 {
            }
        }
    }
}

/// Whether `needle` occurs in `hay` at `at`.
fn matches_at(hay: &[u8], needle: &[u8], at: usize) -> (r: bool)
    requires
        at + needle@.len() <= hay@.len(),
    ensures
        r == occurs_at(hay@, needle@, at as int),
{
    let n = needle.len();
    let hl = hay.len();
    let mut k: usize = 0;
    while k < n
        invariant
            k <= n,
            n == needle@.len(),
            hl == hay@.len(),
            at + n <= hl,
            forall|j: int| 0 <= j < k ==> hay@[at + j] == needle@[j],
        decreases n - k,
    {
        if hay[at + k] != needle[k] {
            proof {
                let s = hay@.subrange(at as int, at + n);
                assert(s[k as int] != needle@[k as int]);
            }
            return false;
        }
        k = k + 1;
    }
    assert(hay@.subrange(at as int, at + n) =~= needle@);
    true
}

/// The first index where `needle` occurs in `hay`, as `str::find` reports it.
pub fn find_bytes(hay: &[u8], needle: &[u8]) -> (r: Option<usize>)
    ensures
        r matches Some(p) ==> find_first(hay@, needle@) == Some(p as int),
        r is None ==> find_first(hay@, needle@) is None,
{
    let h = hay.len();
    let n = needle.len();
    if n > h {
        return None;
    }
    let mut i: usize = 0;
    while i <= h - n
        invariant
            h == hay@.len(),
            n == needle@.len(),
            n <= h,
            i <= h - n + 1,
            find_first(hay@, needle@) == find_from(hay@, needle@, i as int),
        decreases h - n + 1 - i,
    {
        if matches_at(hay, needle, i) {
            return Some(i);
        }
        if i == h - n {
            assert(find_from(hay@, needle@, i + 1) is None);
            return None;
        }
        i = i + 1;
    }
    None
}

/// Whether `needle` occurs in `hay`, as `str::contains` reports it.
pub fn contains_bytes(hay: &[u8], needle: &[u8]) -> (r: bool)
    ensures
        r == has_infix(hay@, needle@),
{
    proof {
        lemma_find_first(hay@, needle@);
    }
    find_bytes(hay, needle).is_some()
}

// ---------------------------------------------------------------------------
// White space
// ---------------------------------------------------------------------------

/// The characters with the Unicode property `White_Space`, which `str::trim` removes.
pub open spec fn is_white_space(c: char) -> bool {
    let u = c as u32;
    (9 <= u <= 13) || u == 32 || u == 0x85 || u == 0xA0 || u == 0x1680 || (0x2000 <= u <= 0x200A)
        || u == 0x2028 || u == 0x2029 || u == 0x202F || u == 0x205F || u == 0x3000
}

/// `s` without its leading white space.
pub open spec fn trim_start_ws(s: Seq<char>) -> Seq<char>
    decreases s.len(),
{
    if s.len() > 0 && is_white_space(s[0]) {
        trim_start_ws(s.drop_first())
    } else {
        s
    }
}

/// `s` without its trailing white space.
pub open spec fn trim_end_ws(s: Seq<char>) -> Seq<char>
    decreases s.len(),
{
    if s.len() > 0 && is_white_space(s.last()) {
        trim_end_ws(s.drop_last())
    } else {
        s
    }
}

/// `s` without leading and trailing white space.
pub open spec fn trim_ws(s: Seq<char>) -> Seq<char> {
    trim_end_ws(trim_start_ws(s))
}

/// Calls `str::trim`: its documentation removes leading and trailing characters with the
/// Unicode property `White_Space`, which `is_white_space` lists.
#[verifier::external_body]
pub(crate) fn trim_str(s: &str) -> (r: &str)
    ensures
        r@ == trim_ws(s@),
{
    s.trim()
}

// ---------------------------------------------------------------------------
// Hexadecimal numbers, as `usize::from_str_radix(s, 16)` reads them
// ---------------------------------------------------------------------------

/// The value of a hexadecimal digit.
pub open spec fn hex_digit(c: char) -> Option<nat> {
    let u = c as u32;
    if 48 <= u <= 57 {
        Some((u - 48) as nat)
    } else if 97 <= u <= 102 {
        Some((u - 87) as nat)
    } else if 65 <= u <= 70 {
        Some((u - 55) as nat)
    } else {
        None
    }
}

/// The value of a sequence of hexadecimal digits (0 for none).
pub open spec fn hex_nat(s: Seq<char>) -> Option<nat>
    decreases s.len(),
{
    if s.len() == 0 {
        Some(0)
    } else {
        match (hex_nat(s.drop_last()), hex_digit(s.last())) {
            (Some(v), Some(d)) => Some(v * 16 + d),
            _ => None,
        }
    }
}

/// `s` without a leading `+`.
pub open spec fn strip_plus(s: Seq<char>) -> Seq<char> {
    if s.len() > 0 && s[0] == '+' {
        s.drop_first()
    } else {
        s
    }
}

/// The value of at least one hexadecimal digit, where it fits in `usize`.
pub open spec fn hex_digits_usize(digits: Seq<char>) -> Option<usize> {
    if digits.len() == 0 {
        None
    } else {
        match hex_nat(digits) {
            Some(v) => if v <= usize::MAX {
                Some(v as usize)
            } else {
                None
            },
            None => None,
        }
    }
}

/// What `usize::from_str_radix(s, 16)` accepts: an optional `+` followed by at least one
/// hexadecimal digit, with a value that fits in `usize`.
pub open spec fn hex_usize(s: Seq<char>) -> Option<usize> {
    hex_digits_usize(strip_plus(s))
}

/// A longer run of valid digits is worth at least as much as its prefix.
proof fn lemma_hex_nat_prefix(s: Seq<char>, i: int)
    requires
        0 <= i <= s.len(),
        hex_nat(s) is Some,
    ensures
        hex_nat(s.take(i)) is Some,
        hex_nat(s.take(i))->0 <= hex_nat(s)->0,
    decreases s.len() - i,
{
    if i == s.len() {
        assert(s.take(i) =~= s);
    } else {
        lemma_hex_nat_prefix(s, i + 1);
        let t = s.take(i + 1);
        assert(t.drop_last() =~= s.take(i));
    }
}

/// A run that holds a character which is no digit has no value.
proof fn lemma_hex_nat_bad_digit(s: Seq<char>, k: int)
    requires
        0 <= k < s.len(),
        hex_digit(s[k]) is None,
    ensures
        hex_nat(s) is None,
    decreases s.len(),
{
    if k < s.len() - 1 {
        lemma_hex_nat_bad_digit(s.drop_last(), k);
    }
}

/// Parses `s` as `usize::from_str_radix(s, 16)` does.
pub fn parse_hex_usize(s: &str) -> (r: Option<usize>)
    ensures
        r == hex_usize(s@),
{
    let len = s.unicode_len();
    let mut i: usize = 0;
    if len > 0 && s.get_char(0) == '+' {
        i = 1;
    }
    let start = i;
    let ghost digits = s@.skip(start as int);
    proof {
        if start == 1 {
            assert(digits =~= s@.drop_first());
        } else {
            assert(digits =~= s@);
        }
        assert(strip_plus(s@) == digits);
    }
    if start == len {
        return None;
    }
    let mut v: usize = 0;
    while i < len
        invariant
            start <= i <= len,
            len == s@.len(),
            digits == s@.skip(start as int),
            strip_plus(s@) == digits,
            start < len,
            hex_nat(digits.take(i - start)) == Some(v as nat),
        decreases len - i,
    {
        let c = s.get_char(i);
        let u = c as u32;
        let d: usize;
        assert(digits[i - start] == c);
        if 48 <= u && u <= 57 {
            d = (u - 48) as usize;
        } else if 97 <= u && u <= 102 {
            d = (u - 87) as usize;
        } else if 65 <= u && u <= 70 {
            d = (u - 55) as usize;
        } else {
            proof {
                lemma_hex_nat_bad_digit(digits, i - start);
            }
            return None;
        }
        proof {
            let t = digits.take(i - start + 1);
            assert(t.drop_last() =~= digits.take(i - start));
            assert(t.last() == c);
        }
        if v > (usize::MAX - d) / 16 {
            proof {
                if hex_nat(digits) is Some {
                    lemma_hex_nat_prefix(digits, i - start + 1);
                }
            }
            return None;
        }
        v = v * 16 + d;
        i = i + 1;
    }
    assert(digits.take(len - start) =~= digits);
    Some(v)
}

// ---------------------------------------------------------------------------
// UTF-8 facts
// ---------------------------------------------------------------------------

/// Encoding a concatenation encodes its parts one after the other.
pub proof fn lemma_encode_utf8_concat(a: Seq<char>, b: Seq<char>)
    ensures
        encode_utf8(a + b) == encode_utf8(a) + encode_utf8(b),
    decreases a.len(),
{
    if a.len() == 0 {
        assert(a + b =~= b);
        assert(encode_utf8(a) =~= Seq::<u8>::empty());
        assert(encode_utf8(a) + encode_utf8(b) =~= encode_utf8(b));
    } else {
        lemma_encode_utf8_concat(a.drop_first(), b);
        assert((a + b).drop_first() =~= a.drop_first() + b);
        assert((a + b)[0] == a[0]);
        let e = encode_scalar(a[0] as u32);
        assert(encode_utf8(a + b) == e + encode_utf8(a.drop_first() + b));
        assert(e + (encode_utf8(a.drop_first()) + encode_utf8(b)) =~= (e + encode_utf8(
            a.drop_first(),
        )) + encode_utf8(b));
    }
}

/// In valid UTF-8, a position that holds an ASCII byte starts a character.
pub proof fn lemma_ascii_is_boundary(bytes: Seq<u8>, i: int)
    requires
        valid_utf8(bytes),
        0 <= i < bytes.len(),
        bytes[i] < 0x80,
    ensures
        is_char_boundary(bytes, i),
{
    is_char_boundary_iff_not_is_continuation_byte(bytes, i);
}

/// In valid UTF-8 that starts with an ASCII byte, the next position starts a character.
pub proof fn lemma_after_ascii_head(bytes: Seq<u8>)
    requires
        valid_utf8(bytes),
        bytes.len() > 0,
        bytes[0] < 0x80,
    ensures
        is_char_boundary(bytes, 1),
{
    reveal_with_fuel(is_char_boundary, 2);
    assert(is_leading_byte_width_1(bytes[0]));
    is_char_boundary_start_end_of_seq(pop_first_scalar(bytes));
}

/// In valid UTF-8, the position right after an ASCII byte starts a character (or is the end).
pub proof fn lemma_boundary_after_ascii(bytes: Seq<u8>, k: int)
    requires
        valid_utf8(bytes),
        0 <= k < bytes.len(),
        bytes[k] < 0x80,
    ensures
        is_char_boundary(bytes, k + 1),
{
    lemma_ascii_is_boundary(bytes, k);
    lemma_boundary_step(bytes, k);
}

proof fn lemma_boundary_step(bytes: Seq<u8>, k: int)
    requires
        valid_utf8(bytes),
        0 <= k < bytes.len(),
        bytes[k] < 0x80,
        is_char_boundary(bytes, k),
    ensures
        is_char_boundary(bytes, k + 1),
    decreases bytes.len(),
{
    reveal_with_fuel(is_char_boundary, 2);
    if k == 0 {
        lemma_after_ascii_head(bytes);
    } else {
        let l = length_of_first_scalar(bytes);
        let tail = pop_first_scalar(bytes);
        assert(valid_utf8(tail)) by {
            reveal_with_fuel(valid_utf8, 2);
        }
        assert(is_char_boundary(tail, k - l));
        assert(k - l >= 0);
        assert(tail =~= bytes.subrange(l, bytes.len() as int));
        assert(tail[k - l] == bytes[k]);
        lemma_boundary_step(tail, k - l);
    }
}

// ---------------------------------------------------------------------------
// Conversions that std performs
// ---------------------------------------------------------------------------

/// What `String::from_utf8_lossy` makes of `bytes`.
pub uninterp spec fn utf8_lossy(bytes: Seq<u8>) -> Seq<char>;

/// Calls `String::from_utf8_lossy`. Its result depends on the bytes alone; for valid UTF-8 it
/// is the decoded text (the documentation: invalid sequences are replaced by U+FFFD, a valid
/// input is returned as it is). What it makes of invalid input is left unsaid.
#[verifier::external_body]
pub(crate) fn lossy_string(bytes: &[u8]) -> (r: String)
    ensures
        r@ == utf8_lossy(bytes@),
        valid_utf8(bytes@) ==> r@ == decode_utf8(bytes@),
{
    String::from_utf8_lossy(bytes).into_owned()
}

/// The decimal digits of `n`, as `Display` prints an unsigned integer.
pub open spec fn decimal(n: nat) -> Seq<char>
    decreases n,
{
    if n < 10 {
        seq![(48 + n) as char]
    } else {
        decimal(n / 10).push((48 + n % 10) as char)
    }
}

/// Calls `usize::to_string`, which prints the number in decimal without sign or padding.
#[verifier::external_body]
pub(crate) fn usize_to_string(n: usize) -> (r: String)
    ensures
        r@ == decimal(n as nat),
{
    n.to_string()
}

// ---------------------------------------------------------------------------
// Percent-encoding, as `urlencoding::encode` performs it
// ---------------------------------------------------------------------------

/// The bytes that `urlencoding` leaves as they are: ASCII letters and digits, `-`, `.`, `_`
/// and `~`.
pub open spec fn is_unreserved(b: u8) -> bool {
    (48 <= b <= 57) || (65 <= b <= 90) || (97 <= b <= 122) || b == 45 || b == 46 || b == 95
        || b == 126
}

/// An upper-case hexadecimal digit for `0 <= d < 16`.
pub open spec fn hex_upper(d: u8) -> u8 {
    if d < 10 {
        (48 + d) as u8
    } else {
        (55 + d) as u8
    }
}

/// Each unreserved byte as it is, every other byte as `%` and two upper-case hex digits.
pub open spec fn percent_encode(b: Seq<u8>) -> Seq<u8>
    decreases b.len(),
{
    if b.len() == 0 {
        Seq::empty()
    } else {
        (if is_unreserved(b[0]) {
            seq![b[0]]
        } else {
            seq![37u8, hex_upper(b[0] / 16), hex_upper(b[0] % 16)]
        }) + percent_encode(b.drop_first())
    }
}

/// Calls `urlencoding::encode`, which percent-encodes the UTF-8 bytes of `s`: every byte but
/// ASCII letters, digits and `-` `.` `_` `~` becomes `%` and two upper-case hex digits.
#[verifier::external_body]
pub(crate) fn url_encode(s: &str) -> (r: String)
    ensures
        utf8_of(r@) == percent_encode(utf8_of(s@)),
{
    urlencoding::encode(s).into_owned()
}

/// A byte that a percent-encoded value may hold: an unreserved byte, `%`, or a hex digit.
pub open spec fn is_encoded_byte(b: u8) -> bool {
    is_unreserved(b) || b == 37
}

/// Percent-encoding leaves no byte outside the unreserved set and `%`: in particular no `&`,
/// `=`, `+` or space, so an encoded value stays one field of a form body.
pub proof fn lemma_percent_encode_bytes(b: Seq<u8>)
    ensures
        forall|i: int| 0 <= i < percent_encode(b).len() ==> is_encoded_byte(#[trigger] percent_encode(b)[i]),
    decreases b.len(),
{
    if b.len() > 0 {
        lemma_percent_encode_bytes(b.drop_first());
        let head = if is_unreserved(b[0]) {
            seq![b[0]]
        } else {
            seq![37u8, hex_upper(b[0] / 16), hex_upper(b[0] % 16)]
        };
        let e = percent_encode(b);
        assert(e == head + percent_encode(b.drop_first()));
        assert forall|i: int| 0 <= i < e.len() implies is_encoded_byte(#[trigger] e[i]) by {
            if i < head.len() {
                assert(e[i] == head[i]);
            } else {
                assert(e[i] == percent_encode(b.drop_first())[i - head.len()]);
            }
        }
    }
}

} // verus!
