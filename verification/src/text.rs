//! Text helpers: concatenation, decimal numbers, trimming, and the orderings
//! and character classes that the rest of the crate builds on.

use vstd::prelude::*;
use vstd::string::*;

verus! {

/// The optional text behind an optional string.
pub open spec fn opt_text(s: Option<String>) -> Option<Seq<char>> {
    match s {
        Some(t) => Some(t@),
        None => None,
    }
}

/// The texts behind a sequence of strings.
pub open spec fn texts(s: Seq<String>) -> Seq<Seq<char>> {
    s.map_values(|t: String| t@)
}

/// `a` followed by `b`.
pub fn concat2(a: &str, b: &str) -> (r: String)
    ensures
        r@ == a@ + b@,
{
    let mut s = a.to_owned();
    s.append(b);
    s
}

/// `a`, `b` and `c` in this order.
pub fn concat3(a: &str, b: &str, c: &str) -> (r: String)
    ensures
        r@ == a@ + b@ + c@,
{
    let mut s = a.to_owned();
    s.append(b);
    s.append(c);
    s
}

/// Whether two texts are the same.
pub fn same_text(a: &str, b: &str) -> (r: bool)
    ensures
        r == (a@ == b@),
{
    let x: &[u8] = a.as_bytes();
    let y: &[u8] = b.as_bytes();
    proof {
        vstd::utf8::encode_utf8_decode_utf8(a@);
        vstd::utf8::encode_utf8_decode_utf8(b@);
    }
    if x.len() != y.len() {
        return false;
    }
    let mut i: usize = 0;
    while i < x.len()
        invariant
            i <= x.len(),
            x.len() == y.len(),
            x@ == vstd::utf8::encode_utf8(a@),
            y@ == vstd::utf8::encode_utf8(b@),
            forall|k: int| 0 <= k < i ==> x@[k] == y@[k],
        decreases x.len() - i,
    {
        if x[i] != y[i] {
            assert(x@ != y@);
            return false;
        }
        i += 1;
    }
    assert(x@ =~= y@);
    true
}

/// The decimal digits of `n`, most significant first.
pub open spec fn decimal_text(n: nat) -> Seq<char>
    decreases n,
{
    if n < 10 {
        seq![digit_char(n)]
    } else {
        decimal_text(n / 10).push(digit_char(n % 10))
    }
}

/// The character of a single decimal digit.
pub open spec fn digit_char(d: nat) -> char {
    if d == 0 { '0' } else if d == 1 { '1' } else if d == 2 { '2' } else if d == 3 { '3' }
    else if d == 4 { '4' } else if d == 5 { '5' } else if d == 6 { '6' } else if d == 7 { '7' }
    else if d == 8 { '8' } else { '9' }
}

fn digit_text(d: u64) -> (r: &'static str)
    requires
        d < 10,
    ensures
        r@ == seq![digit_char(d as nat)],
{
    proof {
        reveal_strlit("0"); reveal_strlit("1"); reveal_strlit("2"); reveal_strlit("3");
        reveal_strlit("4"); reveal_strlit("5"); reveal_strlit("6"); reveal_strlit("7");
        reveal_strlit("8"); reveal_strlit("9");
        assert("0"@ =~= seq!['0']); assert("1"@ =~= seq!['1']); assert("2"@ =~= seq!['2']);
        assert("3"@ =~= seq!['3']); assert("4"@ =~= seq!['4']); assert("5"@ =~= seq!['5']);
        assert("6"@ =~= seq!['6']); assert("7"@ =~= seq!['7']); assert("8"@ =~= seq!['8']);
        assert("9"@ =~= seq!['9']);
    }
    if d == 0 { "0" } else if d == 1 { "1" } else if d == 2 { "2" } else if d == 3 { "3" }
    else if d == 4 { "4" } else if d == 5 { "5" } else if d == 6 { "6" } else if d == 7 { "7" }
    else if d == 8 { "8" } else { "9" }
}

/// `n` in decimal.
pub fn decimal(n: u64) -> (r: String)
    ensures
        r@ == decimal_text(n as nat),
    decreases n,
{
    if n < 10 {
        digit_text(n).to_owned()
    } else {
        let mut s = decimal(n / 10);
        s.append(digit_text(n % 10));
        assert(s@ =~= decimal_text(n as nat));
        s
    }
}

/// The characters of `s`, in order.
pub fn chars_of(s: &str) -> (r: Vec<char>)
    ensures
        r@ == s@,
{
    let mut v: Vec<char> = Vec::new();
    for c in it: s.chars()
        invariant
            it.seq() == s@,
            v@ == s@.take(it.index() as int),
    {
        v.push(c);
    }
    assert(v@ =~= s@);
    v
}

/// White space, as Unicode's White_Space property has it.
pub open spec fn is_white(c: char) -> bool {
    ||| '\u{9}' <= c <= '\u{d}'
    ||| c == ' '
    ||| c == '\u{85}'
    ||| c == '\u{a0}'
    ||| c == '\u{1680}'
    ||| '\u{2000}' <= c <= '\u{200a}'
    ||| c == '\u{2028}'
    ||| c == '\u{2029}'
    ||| c == '\u{202f}'
    ||| c == '\u{205f}'
    ||| c == '\u{3000}'
}

/// Whether a character is white space.
pub fn is_whitespace(c: char) -> (r: bool)
    ensures
        r == is_white(c),
{
    ('\u{9}' <= c && c <= '\u{d}') || c == ' ' || c == '\u{85}' || c == '\u{a0}' || c
        == '\u{1680}' || ('\u{2000}' <= c && c <= '\u{200a}') || c == '\u{2028}' || c
        == '\u{2029}' || c == '\u{202f}' || c == '\u{205f}' || c == '\u{3000}'
}

/// What `char::is_alphanumeric` says of a character.
pub uninterp spec fn is_alnum(c: char) -> bool;

/// Trusted: `char::is_alphanumeric`. Its answer depends on the character
/// alone and is named [`is_alnum`]; nothing else is claimed of it.
#[verifier::external_body]
pub(crate) fn char_is_alphanumeric(c: char) -> (r: bool)
    ensures
        r == is_alnum(c),
{
    c.is_alphanumeric()
}

/// The upper-case form of a character, as `char::to_uppercase` gives it.
pub uninterp spec fn upper_case(c: char) -> Seq<char>;

/// Trusted: `char::to_uppercase`, collected into a string. The text depends on
/// the character alone and is named [`upper_case`].
#[verifier::external_body]
pub(crate) fn char_to_uppercase(c: char) -> (r: String)
    ensures
        r@ == upper_case(c),
{
    c.to_uppercase().to_string()
}

/// The lower-case form of a text, as `str::to_lowercase` gives it.
pub uninterp spec fn lower_case(s: Seq<char>) -> Seq<char>;

/// Trusted: `str::to_lowercase`. The text depends on the argument's characters
/// alone and is named [`lower_case`].
#[verifier::external_body]
pub(crate) fn str_to_lowercase(s: &str) -> (r: String)
    ensures
        r@ == lower_case(s@),
{
    s.to_lowercase()
}

/// Whether every character of `s` is white space.
pub open spec fn is_blank(s: Seq<char>) -> bool {
    forall|i: int| 0 <= i < s.len() ==> is_white(#[trigger] s[i])
}

/// `t` is `s` without its leading and trailing white space: `s` is `t` with
/// blank text on both sides, and `t` neither starts nor ends in white space.
pub open spec fn is_trim_of(t: Seq<char>, s: Seq<char>) -> bool {
    exists|a: int, b: int|
        #![trigger s.subrange(a, b)]
        {
            &&& 0 <= a <= b <= s.len()
            &&& t == s.subrange(a, b)
            &&& is_blank(s.subrange(0, a))
            &&& is_blank(s.subrange(b, s.len() as int))
            &&& t.len() > 0 ==> !is_white(t[0]) && !is_white(t.last())
        }
}

/// `s` without its leading and trailing white space.
pub fn trim(s: &str) -> (r: String)
    ensures
        is_trim_of(r@, s@),
        r@.len() == 0 <==> is_blank(s@),
{
    let chars = chars_of(s);
    let n: usize = chars.len();
    let mut a: usize = 0;
    while a < n && is_whitespace(chars[a])
        invariant
            a <= n,
            n == chars.len(),
            chars@ == s@,
            forall|i: int| 0 <= i < a ==> is_white(#[trigger] s@[i]),
        ensures
            a < n ==> !is_white(s@[a as int]),
        decreases n - a,
    {
        a += 1;
    }
    let mut b: usize = n;
    while b > a && is_whitespace(chars[b - 1])
        invariant
            a <= b <= n,
            n == chars.len(),
            chars@ == s@,
            forall|i: int| b <= i < n ==> is_white(#[trigger] s@[i]),
        ensures
            b > a ==> !is_white(s@[b - 1]),
        decreases b,
    {
        b -= 1;
    }
    proof {
        let t = s@.subrange(a as int, b as int);
        assert(is_blank(s@.subrange(0, a as int)));
        assert(is_blank(s@.subrange(b as int, s@.len() as int)));
        if a < b {
            assert(t[0] == s@[a as int]);
            assert(t.last() == s@[b - 1]);
        }
        assert(is_trim_of(t, s@));
        if a == b {
            assert forall|i: int| 0 <= i < s@.len() implies is_white(#[trigger] s@[i]) by {}
        } else {
            assert(!is_white(s@[a as int]));
        }
    }
    s.substring_char(a, b).to_owned()
}

/// Lexicographic order of byte sequences.
pub open spec fn bytes_before(a: Seq<u8>, b: Seq<u8>) -> bool
    decreases a.len(),
{
    if b.len() == 0 {
        false
    } else if a.len() == 0 {
        true
    } else if a[0] != b[0] {
        a[0] < b[0]
    } else {
        bytes_before(a.drop_first(), b.drop_first())
    }
}

/// The order of strings: lexicographic by their UTF-8 bytes.
pub open spec fn text_before(a: Seq<char>, b: Seq<char>) -> bool {
    bytes_before(vstd::utf8::encode_utf8(a), vstd::utf8::encode_utf8(b))
}

proof fn lemma_bytes_before_transitive(a: Seq<u8>, b: Seq<u8>, c: Seq<u8>)
    requires
        bytes_before(a, b),
        bytes_before(b, c),
    ensures
        bytes_before(a, c),
    decreases a.len(),
{
    if a.len() > 0 && b.len() > 0 && c.len() > 0 && a[0] == b[0] && b[0] == c[0] {
        lemma_bytes_before_transitive(a.drop_first(), b.drop_first(), c.drop_first());
    }
}

proof fn lemma_bytes_before_total(a: Seq<u8>, b: Seq<u8>)
    ensures
        bytes_before(a, b) || bytes_before(b, a) || a == b,
    decreases a.len(),
{
    if a.len() > 0 && b.len() > 0 && a[0] == b[0] {
        lemma_bytes_before_total(a.drop_first(), b.drop_first());
        if a.drop_first() == b.drop_first() {
            assert(a =~= seq![a[0]] + a.drop_first());
            assert(b =~= seq![b[0]] + b.drop_first());
        }
    } else if a.len() == 0 && b.len() == 0 {
        assert(a =~= b);
    }
}

proof fn lemma_bytes_before_irreflexive(a: Seq<u8>)
    ensures
        !bytes_before(a, a),
    decreases a.len(),
{
    if a.len() > 0 {
        lemma_bytes_before_irreflexive(a.drop_first());
    }
}

/// The order of strings is a strict total order.
pub proof fn text_order_is_strict_total(a: Seq<char>, b: Seq<char>, c: Seq<char>)
    ensures
        !text_before(a, a),
        text_before(a, b) && text_before(b, c) ==> text_before(a, c),
        text_before(a, b) || text_before(b, a) || a == b,
{
    let x = vstd::utf8::encode_utf8(a);
    let y = vstd::utf8::encode_utf8(b);
    let z = vstd::utf8::encode_utf8(c);
    lemma_bytes_before_irreflexive(x);
    if bytes_before(x, y) && bytes_before(y, z) {
        lemma_bytes_before_transitive(x, y, z);
    }
    lemma_bytes_before_total(x, y);
    vstd::utf8::encode_utf8_decode_utf8(a);
    vstd::utf8::encode_utf8_decode_utf8(b);
}

/// Whether `a` comes before `b` in the order of strings.
pub fn is_text_before(a: &str, b: &str) -> (r: bool)
    ensures
        r == text_before(a@, b@),
{
    let x: &[u8] = a.as_bytes();
    let y: &[u8] = b.as_bytes();
    let mut i: usize = 0;
    proof {
        assert(x@.skip(0) =~= x@);
        assert(y@.skip(0) =~= y@);
    }
    while i < x.len() && i < y.len()
        invariant
            i <= x.len(),
            i <= y.len(),
            bytes_before(x@, y@) == bytes_before(x@.skip(i as int), y@.skip(i as int)),
            x@ == vstd::utf8::encode_utf8(a@),
            y@ == vstd::utf8::encode_utf8(b@),
        decreases x.len() - i,
    {
        if x[i] != y[i] {
            return x[i] < y[i];
        }
        proof {
            assert(x@.skip(i as int).drop_first() =~= x@.skip(i + 1));
            assert(y@.skip(i as int).drop_first() =~= y@.skip(i + 1));
        }
        i += 1;
    }
    i < y.len()
}

// ---------------------------------------------------------------------------
// Laws

/// Texts and strings go one for one.
pub proof fn texts_are_those_of_the_strings(strings: Seq<String>, one: Option<String>)
    ensures
        texts(strings).len() == strings.len(),
        forall|i: int| 0 <= i < strings.len() ==> #[trigger] texts(strings)[i] == strings[i]@,
        one matches Some(s) ==> opt_text(one) == Some(s@),
        one is None ==> opt_text(one) is None,
{
}

/// The number that decimal digits stand for, most significant first.
pub open spec fn number(digits: Seq<char>) -> int
    decreases digits.len(),
{
    if digits.len() == 0 {
        0
    } else {
        number(digits.drop_last()) * 10 + (digits.last() as int - '0' as int)
    }
}

/// A number in decimal reads back as the number: it is all digits, and starts with a
/// zero only if it is zero. So different numbers have different texts.
pub proof fn a_decimal_number_reads_back(n: nat)
    ensures
        number(decimal_text(n)) == n,
        forall|i: int| 0 <= i < decimal_text(n).len() ==> '0' <= #[trigger] decimal_text(n)[i] <= '9',
        decimal_text(n).len() > 0,
        decimal_text(n)[0] == '0' ==> n == 0,
    decreases n,
{
    if n < 10 {
        let one = decimal_text(n);
        assert(one.drop_last() =~= Seq::empty());
        assert(one.last() == digit_char(n));
        assert(number(one.drop_last()) == 0);
    } else {
        a_decimal_number_reads_back(n / 10);
        let all = decimal_text(n);
        let less = decimal_text(n / 10);
        assert(all.drop_last() =~= less);
        assert(all.last() == digit_char(n % 10));
        assert(all[0] == less[0]);
        assert forall|i: int| 0 <= i < all.len() implies '0' <= #[trigger] all[i] <= '9' by {
            if i < less.len() {
                assert(all[i] == less[i]);
            }
        }
    }
}

/// Spaces, tabs and line breaks are white space, and so are the spaces of other scripts and
/// of typesetting; what leaves ink in ASCII is not, nor is anything else in between.
pub proof fn visible_characters_are_not_white(c: char)
    ensures
        c == ' ' || c == '\t' || c == '\n' || c == '\r' ==> is_white(c),
        '!' <= c <= '~' ==> !is_white(c),
        c < '\t' || '\u{e}' <= c < ' ' || '\u{7f}' <= c < '\u{85}' ==> !is_white(c),
        '\u{86}' <= c < '\u{a0}' || '\u{a1}' <= c < '\u{1680}' ==> !is_white(c),
        '\u{1681}' <= c < '\u{2000}' || '\u{200b}' <= c < '\u{2028}' ==> !is_white(c),
        '\u{202a}' <= c < '\u{202f}' || '\u{2030}' <= c < '\u{205f}' ==> !is_white(c),
        '\u{2060}' <= c < '\u{3000}' || c > '\u{3000}' ==> !is_white(c),
        '\u{2000}' <= c <= '\u{200a}' || '\u{2028}' <= c <= '\u{2029}' ==> is_white(c),
        '\u{b}' <= c <= '\u{c}' || c == '\u{85}' || c == '\u{a0}' || c == '\u{1680}' ==> is_white(c),
        c == '\u{202f}' || c == '\u{205f}' || c == '\u{3000}' ==> is_white(c),
{
}

/// There is one way to trim a text. What is left neither starts nor ends in white space,
/// what was taken off is blank, and trimming again changes nothing.
pub proof fn trimming_is_unique(a: Seq<char>, b: Seq<char>, s: Seq<char>)
    requires
        is_trim_of(a, s),
        is_trim_of(b, s),
    ensures
        a == b,
        a.len() > 0 ==> !is_white(a[0]) && !is_white(a.last()),
        a.len() == 0 <==> forall|i: int| 0 <= i < s.len() ==> is_white(#[trigger] s[i]),
        is_trim_of(a, a),
        exists|front: Seq<char>, back: Seq<char>|
            s == #[trigger] (front + a + back) && (forall|i: int|
                0 <= i < front.len() ==> is_white(#[trigger] front[i])) && (forall|i: int|
                0 <= i < back.len() ==> is_white(#[trigger] back[i])),
{
    let (f, g) = choose|f: int, g: int|
        #![trigger s.subrange(f, g)]
        {
            &&& 0 <= f <= g <= s.len()
            &&& a == s.subrange(f, g)
            &&& is_blank(s.subrange(0, f))
            &&& is_blank(s.subrange(g, s.len() as int))
            &&& a.len() > 0 ==> !is_white(a[0]) && !is_white(a.last())
        };
    let (h, k) = choose|h: int, k: int|
        #![trigger s.subrange(h, k)]
        {
            &&& 0 <= h <= k <= s.len()
            &&& b == s.subrange(h, k)
            &&& is_blank(s.subrange(0, h))
            &&& is_blank(s.subrange(k, s.len() as int))
            &&& b.len() > 0 ==> !is_white(b[0]) && !is_white(b.last())
        };
    let n = s.len() as int;
    assert forall|i: int| 0 <= i < f || g <= i < n implies is_white(#[trigger] s[i]) by {
        if i < f {
            assert(is_white(s.subrange(0, f)[i]));
        } else {
            assert(is_white(s.subrange(g, n)[i - g]));
        }
    }
    assert forall|i: int| 0 <= i < h || k <= i < n implies is_white(#[trigger] s[i]) by {
        if i < h {
            assert(is_white(s.subrange(0, h)[i]));
        } else {
            assert(is_white(s.subrange(k, n)[i - k]));
        }
    }
    if f < g {
        assert(a[0] == s[f] && a.last() == s[g - 1]);
        assert(h <= f < k && h <= g - 1 < k);
    }
    if h < k {
        assert(b[0] == s[h] && b.last() == s[k - 1]);
        assert(f <= h < g && f <= k - 1 < g);
    }
    assert(a =~= b);
    if f < g {
        assert(!is_white(s[f]));
    }
    let front = s.subrange(0, f);
    let back = s.subrange(g, n);
    assert(s =~= front + a + back);
    assert(a.subrange(0, a.len() as int) =~= a);
    assert(is_blank(a.subrange(0, 0)));
    assert(is_blank(a.subrange(a.len() as int, a.len() as int)));
    assert(is_trim_of(a, a));
}

/// Texts are ordered as their bytes are: a common start does not matter, the smaller
/// first byte that differs comes first, and a text comes before what it is the start of.
pub proof fn the_first_difference_decides(start: Seq<u8>, a: Seq<u8>, b: Seq<u8>)
    ensures
        bytes_before(start + a, start + b) == bytes_before(a, b),
        a.len() > 0 && b.len() > 0 && a[0] < b[0] ==> bytes_before(a, b) && !bytes_before(b, a),
        a.len() == 0 && b.len() > 0 ==> bytes_before(a, b) && !bytes_before(b, a),
        forall|x: Seq<char>, y: Seq<char>| #[trigger]
            text_before(x, y) == bytes_before(
                vstd::utf8::encode_utf8(x),
                vstd::utf8::encode_utf8(y),
            ),
    decreases start.len(),
{
    if start.len() == 0 {
        assert(start + a =~= a);
        assert(start + b =~= b);
    } else {
        let rest = start.drop_first();
        the_first_difference_decides(rest, a, b);
        assert((start + a).drop_first() =~= rest + a);
        assert((start + b).drop_first() =~= rest + b);
    }
}

} // verus!
