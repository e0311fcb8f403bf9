//! Text primitives: byte-wise equality and ordering of strings (the order
//! that `String: Ord` uses), whitespace trimming and ASCII case folding.

use vstd::prelude::*;
use vstd::string::*;
use vstd::utf8::*;

verus! {

broadcast use vstd::utf8::encode_utf8_decode_utf8;

/// The UTF-8 bytes of a character sequence.
pub open spec fn utf8(s: Seq<char>) -> Seq<u8> {
    encode_utf8(s)
}

/// Three-way comparison of two byte sequences from position `i` on:
/// -1, 0 or 1 as `a[i..]` is less than, equal to or greater than `b[i..]`
/// in lexicographic order.
pub open spec fn order_from(a: Seq<u8>, b: Seq<u8>, i: int) -> int
    decreases a.len() - i,
{
    if i < 0 || i >= a.len() {
        if i >= b.len() || i < 0 { 0 } else { -1 }
    } else if i >= b.len() {
        1
    } else if a[i] < b[i] {
        -1
    } else if a[i] > b[i] {
        1
    } else {
        order_from(a, b, i + 1)
    }
}

/// Lexicographic three-way comparison of byte sequences.
pub open spec fn bytes_order(a: Seq<u8>, b: Seq<u8>) -> int {
    order_from(a, b, 0)
}

/// Three-way comparison of texts by their UTF-8 bytes, which is the order of `str`.
pub open spec fn text_order(a: Seq<char>, b: Seq<char>) -> int {
    bytes_order(utf8(a), utf8(b))
}

/// `a` sorts strictly before `b`.
pub open spec fn text_lt(a: Seq<char>, b: Seq<char>) -> bool {
    text_order(a, b) < 0
}

/// `a` sorts before `b` or equals it.
pub open spec fn text_le(a: Seq<char>, b: Seq<char>) -> bool {
    text_order(a, b) <= 0
}

pub proof fn lemma_order_from_range(a: Seq<u8>, b: Seq<u8>, i: int)
    ensures
        -1 <= order_from(a, b, i) <= 1,
    decreases a.len() - i,
{
    if 0 <= i < a.len() && i < b.len() && a[i] == b[i] {
        lemma_order_from_range(a, b, i + 1);
    }
}

pub proof fn lemma_order_from_antisym(a: Seq<u8>, b: Seq<u8>, i: int)
    requires
        i >= 0,
    ensures
        order_from(a, b, i) == -order_from(b, a, i),
    decreases a.len() - i,
{
    if i < a.len() && i < b.len() && a[i] == b[i] {
        lemma_order_from_antisym(a, b, i + 1);
    }
}

pub proof fn lemma_order_from_zero(a: Seq<u8>, b: Seq<u8>, i: int)
    requires
        0 <= i <= a.len(),
        i <= b.len(),
    ensures
        order_from(a, b, i) == 0 <==> (a.len() == b.len() && a.skip(i) =~= b.skip(i)),
    decreases a.len() - i,
{
    if i < a.len() && i < b.len() && a[i] == b[i] {
        lemma_order_from_zero(a, b, i + 1);
        if a.len() == b.len() && a.skip(i + 1) =~= b.skip(i + 1) {
            assert(a.skip(i) =~= b.skip(i)) by {
                assert forall|k: int| 0 <= k < a.skip(i).len() implies #[trigger] a.skip(i)[k] == b.skip(i)[k] by {
                    if k > 0 {
                        assert(a.skip(i)[k] == a.skip(i + 1)[k - 1]);
                        assert(b.skip(i)[k] == b.skip(i + 1)[k - 1]);
                    }
                }
            }
        }
        if a.len() == b.len() && a.skip(i) =~= b.skip(i) {
            assert(a.skip(i + 1) =~= b.skip(i + 1)) by {
                assert forall|k: int| 0 <= k < a.skip(i + 1).len() implies #[trigger] a.skip(i + 1)[k] == b.skip(i + 1)[k] by {
                    assert(a.skip(i)[k + 1] == b.skip(i)[k + 1]);
                }
            }
        }
    } else if i < a.len() && i < b.len() {
        assert(a.skip(i)[0] != b.skip(i)[0]);
    } else if a.len() == b.len() {
        assert(a.skip(i) =~= b.skip(i));
    } else if i < a.len() {
        assert(a.skip(i).len() != b.skip(i).len());
    }
}

pub proof fn lemma_order_from_trans(a: Seq<u8>, b: Seq<u8>, c: Seq<u8>, i: int)
    requires
        i >= 0,
        order_from(a, b, i) < 0,
        order_from(b, c, i) < 0,
    ensures
        order_from(a, c, i) < 0,
    decreases a.len() - i,
{
    if i < a.len() && i < b.len() && i < c.len() && a[i] == b[i] && b[i] == c[i] {
        lemma_order_from_trans(a, b, c, i + 1);
    }
}

/// Byte-wise comparison orders texts totally: it is antisymmetric,
/// transitive, and zero exactly on equal texts.
pub proof fn lemma_text_order(a: Seq<char>, b: Seq<char>, c: Seq<char>)
    ensures
        -1 <= text_order(a, b) <= 1,
        text_order(a, b) == -text_order(b, a),
        text_order(a, b) == 0 <==> a == b,
        text_lt(a, b) && text_lt(b, c) ==> text_lt(a, c),
        text_le(a, b) && text_le(b, c) ==> text_le(a, c),
{
    lemma_order_from_range(utf8(a), utf8(b), 0);
    lemma_order_from_antisym(utf8(a), utf8(b), 0);
    lemma_order_from_zero(utf8(a), utf8(b), 0);
    lemma_order_from_zero(utf8(b), utf8(c), 0);
    lemma_order_from_zero(utf8(a), utf8(c), 0);
    assert(utf8(a).skip(0) =~= utf8(a));
    assert(utf8(b).skip(0) =~= utf8(b));
    assert(utf8(c).skip(0) =~= utf8(c));
    if utf8(a) == utf8(b) {
        assert(decode_utf8(utf8(a)) == a);
        assert(decode_utf8(utf8(b)) == b);
    }
    if text_lt(a, b) && text_lt(b, c) {
        lemma_order_from_trans(utf8(a), utf8(b), utf8(c), 0);
    }
    if text_le(a, b) && text_le(b, c) {
        if text_lt(a, b) && text_lt(b, c) {
            lemma_order_from_trans(utf8(a), utf8(b), utf8(c), 0);
        } else if text_order(a, b) == 0 {
            assert(decode_utf8(utf8(a)) == a);
            assert(decode_utf8(utf8(b)) == b);
        } else {
            assert(decode_utf8(utf8(c)) == c);
            assert(decode_utf8(utf8(b)) == b);
        }
    }
}

/// Compares two strings by their bytes; the result is `text_order(a@, b@)`.
pub fn str_order(a: &str, b: &str) -> (r: i8)
    ensures
        r as int == text_order(a@, b@),
{
    let ab = a.as_bytes();
    let bb = b.as_bytes();
    let alen = ab.len();
    let blen = bb.len();
    let mut i: usize = 0;
    while i < alen && i < blen
        invariant
            ab@ == utf8(a@),
            bb@ == utf8(b@),
            alen == ab@.len(),
            blen == bb@.len(),
            i <= alen,
            i <= blen,
            order_from(ab@, bb@, 0) == order_from(ab@, bb@, i as int),
        decreases alen - i,
    {
        if ab[i] < bb[i] {
            return -1;
        } else if ab[i] > bb[i] {
            return 1;
        }
        i = i + 1;
    }
    if i < alen {
        1
    } else if i < blen {
        -1
    } else {
        0
    }
}

/// Equality of strings, as `==` on `str` decides it.
pub fn str_eq(a: &str, b: &str) -> (r: bool)
    ensures
        r == (a@ == b@),
{
    let c = str_order(a, b);
    proof {
        lemma_text_order(a@, b@, b@);
    }
    c == 0
}

/// `a` sorts strictly before `b` in the order of `str`.
pub fn str_lt(a: &str, b: &str) -> (r: bool)
    ensures
        r == text_lt(a@, b@),
{
    str_order(a, b) < 0
}

/// The characters that `char::is_whitespace` accepts: the Unicode
/// `White_Space` property.
pub open spec fn is_white_space(c: char) -> bool {
    ||| ('\u{9}' <= c && c <= '\u{d}')
    ||| c == ' '
    ||| c == '\u{85}'
    ||| c == '\u{a0}'
    ||| c == '\u{1680}'
    ||| ('\u{2000}' <= c && c <= '\u{200a}')
    ||| c == '\u{2028}'
    ||| c == '\u{2029}'
    ||| c == '\u{202f}'
    ||| c == '\u{205f}'
    ||| c == '\u{3000}'
}

pub fn char_is_white_space(c: char) -> (r: bool)
    ensures
        r == is_white_space(c),
{
    ('\u{9}' <= c && c <= '\u{d}') || c == ' ' || c == '\u{85}' || c == '\u{a0}'
        || c == '\u{1680}' || ('\u{2000}' <= c && c <= '\u{200a}') || c == '\u{2028}'
        || c == '\u{2029}' || c == '\u{202f}' || c == '\u{205f}' || c == '\u{3000}'
}

/// Leading white space removed.
pub open spec fn trim_start(s: Seq<char>) -> Seq<char>
    decreases s.len(),
{
    if s.len() > 0 && is_white_space(s[0]) {
        trim_start(s.drop_first())
    } else {
        s
    }
}

/// Trailing white space removed.
pub open spec fn trim_end(s: Seq<char>) -> Seq<char>
    decreases s.len(),
{
    if s.len() > 0 && is_white_space(s.last()) {
        trim_end(s.drop_last())
    } else {
        s
    }
}

/// Leading and trailing white space removed, as `str::trim` does.
pub open spec fn trim(s: Seq<char>) -> Seq<char> {
    trim_end(trim_start(s))
}

/// ASCII upper-case letters mapped to lower case, other characters kept.
pub open spec fn ascii_lower_char(c: char) -> char {
    if 'A' <= c && c <= 'Z' {
        ((c as u32) + 32) as char
    } else {
        c
    }
}

/// `to_ascii_lowercase` on a text.
pub open spec fn ascii_lower(s: Seq<char>) -> Seq<char> {
    s.map_values(|c: char| ascii_lower_char(c))
}

/// The text that a loose keyword match compares: trimmed, then ASCII lower-cased.
pub open spec fn loose_form(s: Seq<char>) -> Seq<char> {
    ascii_lower(trim(s))
}

/// A word of lower-case ASCII letters is its own loose form.
pub proof fn lemma_loose_form_of_word(w: Seq<char>)
    requires
        w.len() > 0,
        forall|i: int| 0 <= i < w.len() ==> 'a' <= #[trigger] w[i] <= 'z',
    ensures
        loose_form(w) == w,
{
    assert(!is_white_space(w[0]));
    assert(trim_start(w) == w);
    assert(!is_white_space(w.last()));
    assert(trim_end(w) == w);
    assert(ascii_lower(w) =~= w);
}

fn lower_char(c: char) -> (r: char)
    ensures
        r == ascii_lower_char(c),
{
    if 'A' <= c && c <= 'Z' {
        let u: u32 = c as u32;
        let l: u8 = (u + 32) as u8;
        proof {
            assert(l as u32 == (c as u32) + 32);
        }
        l as char
    } else {
        c
    }
}

/// Whether `s`, with surrounding white space removed and ASCII letters
/// lower-cased, equals `word`.
pub fn loose_eq(s: &str, word: &str) -> (r: bool)
    ensures
        r == (loose_form(s@) == word@),
{
    let n = s.unicode_len();
    let mut i: usize = 0;
    proof {
        assert(s@.skip(0) =~= s@);
    }
    while i < n && char_is_white_space(s.get_char(i))
        invariant
            n == s@.len(),
            i <= n,
            trim_start(s@) == trim_start(s@.skip(i as int)),
        decreases n - i,
    {
        proof {
            assert(s@.skip(i as int).drop_first() =~= s@.skip(i + 1));
        }
        i = i + 1;
    }
    proof {
        if i == n {
            assert(s@.skip(i as int).len() == 0);
        }
        assert(trim_start(s@) == s@.skip(i as int));
        assert(s@.skip(i as int) =~= s@.subrange(i as int, n as int));
    }
    let mut j: usize = n;
    while j > i && char_is_white_space(s.get_char(j - 1))
        invariant
            n == s@.len(),
            i <= j <= n,
            trim(s@) == trim_end(s@.subrange(i as int, j as int)),
        decreases j,
    {
        proof {
            assert(s@.subrange(i as int, j as int).drop_last() =~= s@.subrange(i as int, j - 1));
        }
        j = j - 1;
    }
    let ghost t = s@.subrange(i as int, j as int);
    proof {
        assert(trim(s@) == t);
    }
    let m = word.unicode_len();
    if j - i != m {
        proof {
            assert(loose_form(s@).len() != word@.len());
        }
        return false;
    }
    let mut k: usize = 0;
    while k < m
        invariant
            n == s@.len(),
            m == word@.len(),
            i <= j <= n,
            j - i == m,
            t == s@.subrange(i as int, j as int),
            loose_form(s@) == ascii_lower(t),
            k <= m,
            forall|q: int| 0 <= q < k ==> ascii_lower(t)[q] == word@[q],
        decreases m - k,
    {
        let c = lower_char(s.get_char(i + k));
        if c != word.get_char(k) {
            proof {
                assert(ascii_lower(t)[k as int] != word@[k as int]);
            }
            return false;
        }
        k = k + 1;
    }
    proof {
        assert(loose_form(s@) =~= word@);
    }
    true
}

} // verus!
