//! Text primitives shared by the services: whitespace trimming, lowercasing,
//! substring search, exact comparison, and the decimal `u8` syntax.
//!
//! Searches work on the UTF-8 bytes of a string, as `str::find` does, so the
//! positions they return are byte offsets.

use vstd::prelude::*;
use vstd::string::StringExecFns;
use vstd::string::StringSliceAdditionalSpecFns;
use vstd::utf8::*;

verus! {

broadcast use {
    vstd::utf8::encode_utf8_valid_utf8,
    vstd::utf8::encode_utf8_decode_utf8,
    vstd::utf8::decode_utf8_encode_utf8,
    vstd::utf8::is_ascii_chars_encode_utf8,
    vstd::string::group_string_axioms,
};

// ----- Whitespace and trimming -----

/// The Unicode `White_Space` property, which `char::is_whitespace` and
/// `str::trim` use.
pub open spec fn is_unicode_whitespace(c: char) -> bool {
    let u = c as u32;
    ||| 0x09 <= u <= 0x0d
    ||| u == 0x20
    ||| u == 0x85
    ||| u == 0xa0
    ||| u == 0x1680
    ||| 0x2000 <= u <= 0x200a
    ||| u == 0x2028
    ||| u == 0x2029
    ||| u == 0x202f
    ||| u == 0x205f
    ||| u == 0x3000
}

/// `s` without its leading whitespace.
pub open spec fn trim_start_spec(s: Seq<char>) -> Seq<char>
    decreases s.len(),
{
    if s.len() > 0 && is_unicode_whitespace(s[0]) {
        trim_start_spec(s.drop_first())
    } else {
        s
    }
}

/// `s` without its trailing whitespace.
pub open spec fn trim_end_spec(s: Seq<char>) -> Seq<char>
    decreases s.len(),
{
    if s.len() > 0 && is_unicode_whitespace(s.last()) {
        trim_end_spec(s.drop_last())
    } else {
        s
    }
}

/// `s` without leading and trailing whitespace.
pub open spec fn trim_spec(s: Seq<char>) -> Seq<char> {
    trim_end_spec(trim_start_spec(s))
}

/// Trimming the start leaves a suffix that does not start with whitespace.
pub proof fn lemma_trim_start(s: Seq<char>)
    ensures
        trim_start_spec(s).len() <= s.len(),
        trim_start_spec(s) == s.subrange(s.len() - trim_start_spec(s).len(), s.len() as int),
        trim_start_spec(s).len() > 0 ==> !is_unicode_whitespace(trim_start_spec(s)[0]),
    decreases s.len(),
{
    if s.len() > 0 && is_unicode_whitespace(s[0]) {
        lemma_trim_start(s.drop_first());
        assert(s.drop_first().subrange(
            s.drop_first().len() - trim_start_spec(s).len(),
            s.drop_first().len() as int,
        ) =~= s.subrange(s.len() - trim_start_spec(s).len(), s.len() as int));
    } else {
        assert(s.subrange(0, s.len() as int) =~= s);
    }
}

/// Trimming the end leaves a prefix that does not end with whitespace.
pub proof fn lemma_trim_end(s: Seq<char>)
    ensures
        trim_end_spec(s).len() <= s.len(),
        trim_end_spec(s) == s.subrange(0, trim_end_spec(s).len() as int),
        trim_end_spec(s).len() > 0 ==> !is_unicode_whitespace(trim_end_spec(s).last()),
    decreases s.len(),
{
    if s.len() > 0 && is_unicode_whitespace(s.last()) {
        lemma_trim_end(s.drop_last());
        assert(s.drop_last().subrange(0, trim_end_spec(s).len() as int) =~= s.subrange(
            0,
            trim_end_spec(s).len() as int,
        ));
    } else {
        assert(s.subrange(0, s.len() as int) =~= s);
    }
}

/// Trimming twice is trimming once: a trimmed text has nothing more to trim.
pub proof fn lemma_trim_idempotent(s: Seq<char>)
    ensures
        trim_spec(trim_spec(s)) == trim_spec(s),
{
    let u = trim_start_spec(s);
    let t = trim_end_spec(u);
    lemma_trim_start(s);
    lemma_trim_end(u);
    if t.len() > 0 {
        assert(t[0] == u[0]);
        assert(trim_start_spec(t) == t);
        lemma_trim_end(t);
        assert(trim_end_spec(t) == t);
    } else {
        assert(trim_start_spec(t) == t);
        assert(trim_end_spec(t) == t);
    }
}

/// Every character of `s` is whitespace.
pub open spec fn all_whitespace(s: Seq<char>) -> bool {
    forall|i: int| 0 <= i < s.len() ==> is_unicode_whitespace(#[trigger] s[i])
}

/// Leading whitespace in front of a text is trimmed away with the text's own.
proof fn lemma_trim_start_after_whitespace(pre: Seq<char>, x: Seq<char>)
    requires
        all_whitespace(pre),
    ensures
        trim_start_spec(pre + x) == trim_start_spec(x),
    decreases pre.len(),
{
    if pre.len() > 0 {
        assert((pre + x)[0] == pre[0]);
        assert((pre + x).drop_first() =~= pre.drop_first() + x);
        lemma_trim_start_after_whitespace(pre.drop_first(), x);
    } else {
        assert(pre + x =~= x);
    }
}

/// Trailing whitespace after a text is trimmed away with the text's own.
proof fn lemma_trim_end_before_whitespace(y: Seq<char>, post: Seq<char>)
    requires
        all_whitespace(post),
    ensures
        trim_end_spec(y + post) == trim_end_spec(y),
    decreases post.len(),
{
    if post.len() > 0 {
        assert((y + post).last() == post.last());
        assert((y + post).drop_last() =~= y + post.drop_last());
        lemma_trim_end_before_whitespace(y, post.drop_last());
    } else {
        assert(y + post =~= y);
    }
}

/// Trimming the start of a text followed by whitespace: the text's own
/// trimmed start, followed by that whitespace, or nothing if the text is
/// blank.
proof fn lemma_trim_start_before_whitespace(x: Seq<char>, post: Seq<char>)
    requires
        all_whitespace(post),
    ensures
        trim_start_spec(x + post) == if trim_start_spec(x).len() > 0 {
            trim_start_spec(x) + post
        } else {
            Seq::<char>::empty()
        },
    decreases x.len(),
{
    if x.len() > 0 {
        assert((x + post)[0] == x[0]);
        if is_unicode_whitespace(x[0]) {
            assert((x + post).drop_first() =~= x.drop_first() + post);
            lemma_trim_start_before_whitespace(x.drop_first(), post);
        }
    } else {
        assert(x + post =~= post);
        lemma_trim_start_after_whitespace(post, Seq::<char>::empty());
        assert(post + Seq::<char>::empty() =~= post);
    }
}

/// Whitespace around a text does not change the trimmed text.
pub proof fn lemma_trim_padded(pre: Seq<char>, t: Seq<char>, post: Seq<char>)
    requires
        all_whitespace(pre),
        all_whitespace(post),
    ensures
        trim_spec(pre + t + post) == trim_spec(t),
{
    assert(pre + t + post =~= pre + (t + post));
    lemma_trim_start_after_whitespace(pre, t + post);
    lemma_trim_start_before_whitespace(t, post);
    if trim_start_spec(t).len() > 0 {
        lemma_trim_end_before_whitespace(trim_start_spec(t), post);
    }
}

/// Every character of the trimmed text is a character of the text.
pub proof fn lemma_trim_keeps_chars(s: Seq<char>, i: int)
    requires
        0 <= i < trim_spec(s).len(),
    ensures
        exists|j: int| 0 <= j < s.len() && s[j] == trim_spec(s)[i],
{
    let u = trim_start_spec(s);
    lemma_trim_start(s);
    lemma_trim_end(u);
    let t = trim_spec(s);
    assert(t[i] == u[i]);
    assert(u[i] == s[s.len() - u.len() + i]);
}

/// No character of `s` is an ASCII uppercase letter.
pub open spec fn no_ascii_uppercase(s: Seq<char>) -> bool {
    forall|i: int| 0 <= i < s.len() ==> !(0x41 <= (#[trigger] s[i]) as u32 <= 0x5a)
}

/// Trimming only drops characters, so it keeps a text free of ASCII
/// uppercase letters.
pub proof fn lemma_trim_no_ascii_uppercase(s: Seq<char>)
    requires
        no_ascii_uppercase(s),
    ensures
        no_ascii_uppercase(trim_spec(s)),
{
    let t = trim_spec(s);
    assert forall|i: int| 0 <= i < t.len() implies !(0x41 <= (#[trigger] t[i]) as u32 <= 0x5a) by {
        lemma_trim_keeps_chars(s, i);
    }
}

/// Calls `str::trim`: the documentation states that it removes leading and
/// trailing whitespace, whitespace being the Unicode `White_Space` property.
#[verifier::external_body]
pub(crate) fn trim(s: &str) -> (r: &str)
    ensures
        r@ == trim_spec(s@),
{
    s.trim()
}

// ----- Lowercasing -----

/// What `str::to_lowercase` returns: the Unicode lowercase mapping of a
/// character sequence (which may change its length).
pub uninterp spec fn lowercase(s: Seq<char>) -> Seq<char>;

/// The ASCII lowercase of one character: `A`..`Z` become `a`..`z`.
pub open spec fn ascii_lower(c: char) -> char {
    if 0x41 <= (c as u32) <= 0x5a {
        ((c as u32) + 0x20) as char
    } else {
        c
    }
}

/// Calls `str::to_lowercase`. Its result is named by [`lowercase`]; for an
/// ASCII string the Unicode lowercase mapping is the ASCII one, character by
/// character. For any string the result holds no ASCII uppercase letter:
/// every such letter is mapped to its lowercase, and Unicode's lowercase
/// mapping of any character yields none. Nothing more is stated of
/// non-ASCII input.
#[verifier::external_body]
pub(crate) fn to_lowercase(s: &str) -> (r: String)
    ensures
        r@ == lowercase(s@),
        is_ascii_chars(s@) ==> r@ == s@.map_values(|c: char| ascii_lower(c)),
        no_ascii_uppercase(r@),
{
    s.to_lowercase()
}

// ----- Byte-level search -----

/// `p` occurs in `s` starting at byte `i`.
pub open spec fn matches_at(s: Seq<u8>, p: Seq<u8>, i: int) -> bool {
    &&& 0 <= i
    &&& i + p.len() <= s.len()
    &&& s.subrange(i, i + p.len()) == p
}

/// `p` occurs somewhere in `s`.
pub open spec fn contains_bytes(s: Seq<u8>, p: Seq<u8>) -> bool {
    exists|i: int| matches_at(s, p, i)
}

/// The first byte position at or after `k` where `p` occurs in `s`.
pub open spec fn first_match_from(s: Seq<u8>, p: Seq<u8>, k: int) -> Option<int>
    decreases s.len() + 1 - k,
{
    if k < 0 || k + p.len() > s.len() {
        None
    } else if matches_at(s, p, k) {
        Some(k)
    } else {
        first_match_from(s, p, k + 1)
    }
}

/// The first byte position where `p` occurs in `s`, as `str::find` reports it.
pub open spec fn first_match(s: Seq<u8>, p: Seq<u8>) -> Option<int> {
    first_match_from(s, p, 0)
}

/// A search from `k` finds exactly the first occurrence at or after `k`.
pub proof fn lemma_first_match_from(s: Seq<u8>, p: Seq<u8>, k: int)
    requires
        0 <= k,
    ensures
        first_match_from(s, p, k) matches Some(i) ==> k <= i && matches_at(s, p, i) && forall|
            j: int,
        |
            k <= j < i ==> !matches_at(s, p, j),
        first_match_from(s, p, k) is None ==> forall|j: int| k <= j ==> !matches_at(s, p, j),
    decreases s.len() + 1 - k,
{
    if k + p.len() > s.len() {
    } else if matches_at(s, p, k) {
    } else {
        lemma_first_match_from(s, p, k + 1);
        assert forall|j: int| k <= j && matches_at(s, p, j) implies k + 1 <= j by {
            if j == k {
            }
        }
    }
}

/// The first occurrence is an occurrence, and `p` occurs iff a first one exists.
pub proof fn lemma_first_match(s: Seq<u8>, p: Seq<u8>)
    ensures
        first_match(s, p) matches Some(i) ==> matches_at(s, p, i) && forall|j: int|
            0 <= j < i ==> !matches_at(s, p, j),
        first_match(s, p) is Some <==> contains_bytes(s, p),
{
    lemma_first_match_from(s, p, 0);
    if first_match(s, p) is None {
        assert forall|j: int| !matches_at(s, p, j) by {
            if 0 <= j {
            }
        }
    }
}

/// Does `p` occur in `s` at byte `i`?
fn bytes_match_at(s: &[u8], p: &[u8], i: usize) -> (r: bool)
    requires
        i + p@.len() <= s@.len(),
    ensures
        r == matches_at(s@, p@, i as int),
{
    let slen = s.len();
    let mut j: usize = 0;
    while j < p.len()
        invariant
            slen == s@.len(),
            i + p@.len() <= s@.len(),
            0 <= j <= p@.len(),
            forall|t: int| 0 <= t < j ==> s@[i + t] == p@[t],
        decreases p@.len() - j,
    {
        if s[i + j] != p[j] {
            assert(s@.subrange(i as int, i + p@.len())[j as int] != p@[j as int]);
            return false;
        }
        j = j + 1;
    }
    assert(s@.subrange(i as int, i + p@.len()) =~= p@);
    true
}

/// The byte position of the first occurrence of `p` in `s`, like `str::find`.
pub fn find_bytes(s: &[u8], p: &[u8]) -> (r: Option<usize>)
    ensures
        r matches Some(i) ==> first_match(s@, p@) == Some(i as int),
        r is None ==> first_match(s@, p@) is None,
{
    if p.len() > s.len() {
        return None;
    }
    let last = s.len() - p.len();
    let mut k: usize = 0;
    while k <= last
        invariant
            last == s@.len() - p@.len(),
            0 <= k <= last + 1,
            first_match(s@, p@) == first_match_from(s@, p@, k as int),
        decreases last + 1 - k,
    {
        if bytes_match_at(s, p, k) {
            return Some(k);
        }
        if k == last {
            assert(first_match_from(s@, p@, k + 1) is None);
            return None;
        }
        k = k + 1;
    }
    None
}

/// Does `p` occur in `s`?
pub fn contains_bytes_exec(s: &[u8], p: &[u8]) -> (r: bool)
    ensures
        r == contains_bytes(s@, p@),
{
    proof {
        lemma_first_match(s@, p@);
    }
    find_bytes(s, p).is_some()
}


/// Does `s` start with `p`?
pub fn starts_with_bytes(s: &[u8], p: &[u8]) -> (r: bool)
    ensures
        r == matches_at(s@, p@, 0),
{
    if p.len() > s.len() {
        false
    } else {
        bytes_match_at(s, p, 0)
    }
}

// ----- Character boundaries -----

/// In valid UTF-8, the position right after an ASCII byte is a character
/// boundary: no continuation byte can follow an ASCII byte.
pub proof fn lemma_boundary_after_ascii(b: Seq<u8>, j: int)
    requires
        valid_utf8(b),
        0 <= j < b.len(),
        b[j] <= 0x7f,
    ensures
        is_char_boundary(b, j + 1),
    decreases b.len(),
{
    let l = length_of_first_scalar(b);
    let tail = pop_first_scalar(b);
    assert(valid_first_scalar(b) && valid_utf8(tail));
    if j < l {
        if j == 0 {
            assert(l == 1);
            assert(is_char_boundary(tail, 0));
        } else {
            assert(is_continuation_byte(b[j]));
        }
    } else {
        assert(tail[j - l] == b[j]);
        lemma_boundary_after_ascii(tail, j - l);
    }
}

/// In valid UTF-8, the position of an ASCII byte is a character boundary.
pub proof fn lemma_boundary_at_ascii(b: Seq<u8>, j: int)
    requires
        valid_utf8(b),
        0 <= j < b.len(),
        b[j] <= 0x7f,
    ensures
        is_char_boundary(b, j),
{
    is_char_boundary_iff_not_is_continuation_byte(b, j);
}

// ----- Exact comparison -----

/// Are the two strings the same sequence of characters?
pub fn str_eq(a: &str, b: &str) -> (r: bool)
    ensures
        r == (a@ == b@),
{
    let ab = a.as_bytes();
    let bb = b.as_bytes();
    if ab.len() != bb.len() {
        return false;
    }
    let n = ab.len();
    let mut i: usize = 0;
    while i < n
        invariant
            n == ab@.len(),
            n == bb@.len(),
            ab@ == a.spec_bytes(),
            bb@ == b.spec_bytes(),
            0 <= i <= n,
            forall|t: int| 0 <= t < i ==> ab@[t] == bb@[t],
        decreases n - i,
    {
        if ab[i] != bb[i] {
            assert(ab@ != bb@);
            return false;
        }
        i = i + 1;
    }
    assert(ab@ =~= bb@);
    assert(decode_utf8(encode_utf8(a@)) == a@);
    assert(decode_utf8(encode_utf8(b@)) == b@);
    true
}

// ----- Decimal `u8` syntax -----

/// An ASCII decimal digit.
pub open spec fn is_ascii_digit(b: u8) -> bool {
    0x30 <= b <= 0x39
}

/// The number written by a sequence of decimal digits.
pub open spec fn digits_value(ds: Seq<u8>) -> nat
    decreases ds.len(),
{
    if ds.len() == 0 {
        0
    } else {
        digits_value(ds.drop_last()) * 10 + (ds.last() - 0x30) as nat
    }
}

/// The digits of an unsigned number: its text without one leading `+`.
pub open spec fn unsigned_digits(b: Seq<u8>) -> Seq<u8> {
    if b.len() > 0 && b[0] == 0x2b {
        b.drop_first()
    } else {
        b
    }
}

/// What `str::parse::<u8>` accepts, as its documentation states: an optional
/// `+` followed by one or more ASCII digits, whose value fits in a `u8`.
pub open spec fn parse_u8_spec(b: Seq<u8>) -> Option<u8> {
    let ds = unsigned_digits(b);
    if ds.len() > 0 && (forall|i: int| 0 <= i < ds.len() ==> is_ascii_digit(#[trigger] ds[i]))
        && digits_value(ds) <= 255 {
        Some(digits_value(ds) as u8)
    } else {
        None
    }
}

/// Appending a digit never makes the number smaller.
proof fn lemma_digits_value_grows(ds: Seq<u8>)
    requires
        ds.len() > 0,
        is_ascii_digit(ds.last()),
    ensures
        digits_value(ds) >= digits_value(ds.drop_last()),
{
}

/// Parse `s` as a decimal `u8`, with the syntax of `str::parse::<u8>`.
pub fn parse_u8(s: &str) -> (r: Option<u8>)
    ensures
        r == parse_u8_spec(s.spec_bytes()),
{
    let b = s.as_bytes();
    let n = b.len();
    let start: usize = if n > 0 && b[0] == 0x2b {
        1
    } else {
        0
    };
    let ghost ds = unsigned_digits(b@);
    assert(ds =~= b@.subrange(start as int, n as int));
    if start == n {
        return None;
    }
    let mut acc: u32 = 0;
    let mut over = false;
    let mut i: usize = start;
    while i < n
        invariant
            n == b@.len(),
            b@ == s.spec_bytes(),
            ds == unsigned_digits(b@),
            ds == b@.subrange(start as int, n as int),
            start <= i <= n,
            forall|t: int| 0 <= t < i - start ==> is_ascii_digit(#[trigger] ds[t]),
            !over ==> acc as nat == digits_value(ds.subrange(0, i - start)) && acc <= 255,
            over ==> digits_value(ds.subrange(0, i - start)) > 255,
        decreases n - i,
    {
        let d = b[i];
        if d < 0x30 || d > 0x39 {
            assert(ds[i - start] == d);
            assert(!is_ascii_digit(ds[i - start]));
            assert(ds == unsigned_digits(s.spec_bytes()));
            assert(!(forall|t: int| 0 <= t < ds.len() ==> is_ascii_digit(#[trigger] ds[t])));
            return None;
        }
        let ghost prev = ds.subrange(0, i - start);
        let ghost next = ds.subrange(0, i + 1 - start);
        assert(next.drop_last() =~= prev);
        assert(next.last() == d);
        proof {
            lemma_digits_value_grows(next);
        }
        if !over {
            acc = acc * 10 + (d - 0x30) as u32;
            if acc > 255 {
                over = true;
            }
        }
        i = i + 1;
    }
    assert(ds.subrange(0, n - start) =~= ds);
    if over {
        None
    } else {
        Some(acc as u8)
    }
}

/// The decimal digit character for `d < 10`.
pub open spec fn digit_char(d: nat) -> char {
    (d + 0x30) as char
}

/// The decimal notation of `n`, without leading zeros.
pub open spec fn decimal(n: nat) -> Seq<char>
    decreases n,
{
    if n < 10 {
        seq![digit_char(n)]
    } else {
        decimal(n / 10).push(digit_char(n % 10))
    }
}

/// The one-character string of the digit `d`.
fn digit_str(d: u8) -> (r: &'static str)
    requires
        d < 10,
    ensures
        r@ == seq![digit_char(d as nat)],
{
    match d {
        0 => {
            proof { reveal_strlit("0"); }
            "0"
        },
        1 => {
            proof { reveal_strlit("1"); }
            "1"
        },
        2 => {
            proof { reveal_strlit("2"); }
            "2"
        },
        3 => {
            proof { reveal_strlit("3"); }
            "3"
        },
        4 => {
            proof { reveal_strlit("4"); }
            "4"
        },
        5 => {
            proof { reveal_strlit("5"); }
            "5"
        },
        6 => {
            proof { reveal_strlit("6"); }
            "6"
        },
        7 => {
            proof { reveal_strlit("7"); }
            "7"
        },
        8 => {
            proof { reveal_strlit("8"); }
            "8"
        },
        _ => {
            proof { reveal_strlit("9"); }
            "9"
        },
    }
}

/// The decimal notation of `v`, as `u8::to_string` writes it.
pub fn u8_to_decimal(v: u8) -> (r: String)
    ensures
        r@ == decimal(v as nat),
{
    let mut r = String::new();
    if v >= 100 {
        r.append(digit_str(v / 100));
    }
    if v >= 10 {
        r.append(digit_str((v / 10) % 10));
    }
    r.append(digit_str(v % 10));
    proof {
        reveal_with_fuel(decimal, 3);
        if v >= 100 {
            assert(decimal((v / 100) as nat) == seq![digit_char((v / 100) as nat)]);
        }
    }
    assert(r@ =~= decimal(v as nat));
    r
}

} // verus!
