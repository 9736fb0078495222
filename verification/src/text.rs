//! Text primitives shared by every schema module: comparison of strings by
//! their characters, Unicode white space, decimal rendering of integers and the
//! debug rendering of strings that error messages quote.
use vstd::prelude::*;

verus! {

// ---------------------------------------------------------------------------
// Comparison
// ---------------------------------------------------------------------------

/// Compares two strings character by character.
pub fn str_eq(a: &str, b: &str) -> (r: bool)
    ensures
        r == (a@ == b@),
{
    let n = a.unicode_len();
    if n != b.unicode_len() {
        return false;
    }
    let mut i: usize = 0;
    while i < n
        invariant
            n == a@.len(),
            n == b@.len(),
            i <= n,
            forall|j: int| 0 <= j < i ==> a@[j] == b@[j],
        decreases n - i,
    {
        if a.get_char(i) != b.get_char(i) {
            return false;
        }
        i = i + 1;
    }
    assert(a@ =~= b@);
    true
}

/// `prefix` is the start of `s`.
pub open spec fn starts_with(s: Seq<char>, prefix: Seq<char>) -> bool {
    prefix.len() <= s.len() && s.subrange(0, prefix.len() as int) == prefix
}

/// Tests whether `s` starts with `prefix`, character by character.
pub fn str_starts_with(s: &str, prefix: &str) -> (r: bool)
    ensures
        r == starts_with(s@, prefix@),
{
    let n = prefix.unicode_len();
    if n > s.unicode_len() {
        return false;
    }
    let mut i: usize = 0;
    while i < n
        invariant
            n == prefix@.len(),
            n <= s@.len(),
            i <= n,
            forall|j: int| 0 <= j < i ==> s@[j] == prefix@[j],
        decreases n - i,
    {
        if s.get_char(i) != prefix.get_char(i) {
            assert(s@.subrange(0, n as int)[i as int] != prefix@[i as int]);
            return false;
        }
        i = i + 1;
    }
    assert(s@.subrange(0, n as int) =~= prefix@);
    true
}

// ---------------------------------------------------------------------------
// ASCII character classes
// ---------------------------------------------------------------------------

/// `a`..=`z`.
pub open spec fn is_lower(c: char) -> bool {
    'a' <= c && c <= 'z'
}

/// `A`..=`Z`.
pub open spec fn is_upper(c: char) -> bool {
    'A' <= c && c <= 'Z'
}

/// `0`..=`9`.
pub open spec fn is_digit(c: char) -> bool {
    '0' <= c && c <= '9'
}

/// An ASCII letter or digit.
pub open spec fn is_alnum(c: char) -> bool {
    is_lower(c) || is_upper(c) || is_digit(c)
}

// ---------------------------------------------------------------------------
// Unicode white space
// ---------------------------------------------------------------------------

/// The Unicode `White_Space` property: the characters that `char::is_whitespace`,
/// `str::trim` and the regular-expression class `\s` treat as blank.
pub open spec fn is_white_space(c: char) -> bool {
    ||| ('\u{9}' <= c && c <= '\u{d}')
    ||| c == ' '
    ||| c == '\u{85}'
    ||| c == '\u{a0}'
    ||| c == '\u{1680}'
    ||| ('\u{2000}' <= c && c <= '\u{200a}')
    ||| c == '\u{2028}'
    ||| c == '\u{2029}'
    ||| c == '\u{202f}'
    ||| c == '\u{205f}'
    ||| c == '\u{3000}'
}

/// `s` holds at least one character that is not white space.
pub open spec fn has_non_white_space(s: Seq<char>) -> bool {
    exists|i: int| 0 <= i < s.len() && !is_white_space(#[trigger] s[i])
}

/// `s` holds at least one white space character.
pub open spec fn has_white_space(s: Seq<char>) -> bool {
    exists|i: int| 0 <= i < s.len() && is_white_space(#[trigger] s[i])
}

/// Decides `is_white_space` for one character.
pub fn char_is_white_space(c: char) -> (r: bool)
    ensures
        r == is_white_space(c),
{
    ('\u{9}' <= c && c <= '\u{d}') || c == ' ' || c == '\u{85}' || c == '\u{a0}' || c
        == '\u{1680}' || ('\u{2000}' <= c && c <= '\u{200a}') || c == '\u{2028}' || c
        == '\u{2029}' || c == '\u{202f}' || c == '\u{205f}' || c == '\u{3000}'
}

/// Scans `s` for a character that is not white space (the `\S` search, and a
/// string that is not empty once trimmed).
pub fn str_has_non_white_space(s: &str) -> (r: bool)
    ensures
        r == has_non_white_space(s@),
{
    let n = s.unicode_len();
    let mut i: usize = 0;
    while i < n
        invariant
            n == s@.len(),
            i <= n,
            forall|j: int| 0 <= j < i ==> is_white_space(#[trigger] s@[j]),
        decreases n - i,
    {
        if !char_is_white_space(s.get_char(i)) {
            assert(!is_white_space(s@[i as int]));
            return true;
        }
        i = i + 1;
    }
    false
}

/// Scans `s` for a white space character.
pub fn str_has_white_space(s: &str) -> (r: bool)
    ensures
        r == has_white_space(s@),
{
    let n = s.unicode_len();
    let mut i: usize = 0;
    while i < n
        invariant
            n == s@.len(),
            i <= n,
            forall|j: int| 0 <= j < i ==> !is_white_space(#[trigger] s@[j]),
        decreases n - i,
    {
        if char_is_white_space(s.get_char(i)) {
            assert(is_white_space(s@[i as int]));
            return true;
        }
        i = i + 1;
    }
    false
}

// ---------------------------------------------------------------------------
// Decimal rendering
// ---------------------------------------------------------------------------

/// The character of decimal digit `d`.
pub open spec fn digit_char(d: int) -> char {
    (48 + d) as char
}

/// Decimal digits of a natural number, most significant first, no leading zeros.
pub open spec fn nat_digits(n: nat) -> Seq<char>
    decreases n,
{
    if n < 10 {
        seq![digit_char(n as int)]
    } else {
        nat_digits(n / 10).push(digit_char((n % 10) as int))
    }
}

/// Decimal text of an integer as `Display` writes it: a `-` before negative ones.
pub open spec fn decimal(n: int) -> Seq<char> {
    if n < 0 {
        seq!['-'] + nat_digits((-n) as nat)
    } else {
        nat_digits(n as nat)
    }
}

fn digit_text(d: u64) -> (r: &'static str)
    requires
        d < 10,
    ensures
        r@ == seq![digit_char(d as int)],
{
    proof {
        reveal_strlit("0");
        reveal_strlit("1");
        reveal_strlit("2");
        reveal_strlit("3");
        reveal_strlit("4");
        reveal_strlit("5");
        reveal_strlit("6");
        reveal_strlit("7");
        reveal_strlit("8");
        reveal_strlit("9");
    }
    if d == 0 {
        "0"
    } else if d == 1 {
        "1"
    } else if d == 2 {
        "2"
    } else if d == 3 {
        "3"
    } else if d == 4 {
        "4"
    } else if d == 5 {
        "5"
    } else if d == 6 {
        "6"
    } else if d == 7 {
        "7"
    } else if d == 8 {
        "8"
    } else {
        "9"
    }
}

/// Renders `n` in decimal.
pub fn u64_text(n: u64) -> (r: String)
    ensures
        r@ == nat_digits(n as nat),
{
    let mut m: u64 = n;
    let mut acc = String::new();
    loop
        invariant_except_break
            nat_digits(n as nat) == nat_digits(m as nat) + acc@,
        ensures
            nat_digits(n as nat) == acc@,
        decreases m,
    {
        let d = m % 10;
        let piece = digit_text(d);
        let mut s = String::from_str(piece);
        s.append(acc.as_str());
        let ghost prev = acc@;
        acc = s;
        if m < 10 {
            assert(nat_digits(m as nat) == seq![digit_char(m as int)]);
            assert(nat_digits(n as nat) =~= acc@);
            break ;
        }
        assert(nat_digits(m as nat) == nat_digits((m / 10) as nat).push(digit_char((m % 10) as int)));
        assert(nat_digits(n as nat) =~= nat_digits((m / 10) as nat) + acc@);
        m = m / 10;
    }
    acc
}

/// Renders `n` in decimal.
pub fn usize_text(n: usize) -> (r: String)
    ensures
        r@ == decimal(n as int),
{
    u64_text(n as u64)
}

/// Renders `n` in decimal, with a leading `-` when it is negative.
pub fn i64_text(n: i64) -> (r: String)
    ensures
        r@ == decimal(n as int),
{
    if n < 0 {
        let magnitude: u64 = (0i128 - (n as i128)) as u64;
        let digits = u64_text(magnitude);
        let mut s = String::from_str("-");
        proof {
            reveal_strlit("-");
        }
        s.append(digits.as_str());
        s
    } else {
        u64_text(n as u64)
    }
}

// ---------------------------------------------------------------------------
// Debug rendering of strings
// ---------------------------------------------------------------------------

/// What `<str as Debug>::fmt` writes for a string: the text between double
/// quotes with quotes, backslashes, control and other non-printable characters
/// escaped.
pub uninterp spec fn str_debug(s: Seq<char>) -> Seq<char>;

/// Renders `s` with `<str as Debug>::fmt` (the `{:?}` form). The contract
/// claims only that the result is a function of the characters of `s`, named
/// `str_debug`; the escaping rules themselves are not restated.
#[verifier::external_body]
pub(crate) fn debug_text(s: &str) -> (r: String)
    ensures
        r@ == str_debug(s@),
{
    format!("{:?}", s)
}

/// `items` joined with `sep` between neighbours.
pub open spec fn join(items: Seq<Seq<char>>, sep: Seq<char>) -> Seq<char>
    decreases items.len(),
{
    if items.len() == 0 {
        Seq::empty()
    } else if items.len() == 1 {
        items[0]
    } else {
        join(items.drop_last(), sep) + sep + items.last()
    }
}

/// What `{:?}` writes for a list of strings: `["a", "b"]`.
pub open spec fn debug_list(items: Seq<Seq<char>>) -> Seq<char> {
    seq!['['] + join(items.map_values(|s: Seq<char>| str_debug(s)), seq![',', ' ']) + seq![']']
}

/// Renders a list of strings the way `{:?}` renders a slice of `&str`.
pub fn debug_list_text(items: &[&str]) -> (r: String)
    ensures
        r@ == debug_list(items@.map_values(|s: &str| s@)),
{
    let ghost views = items@.map_values(|s: &str| s@);
    let ghost shown = views.map_values(|s: Seq<char>| str_debug(s));
    let mut body = String::new();
    let n = items.len();
    let mut i: usize = 0;
    while i < n
        invariant
            n == items@.len(),
            i <= n,
            views == items@.map_values(|s: &str| s@),
            shown == views.map_values(|s: Seq<char>| str_debug(s)),
            body@ == join(shown.take(i as int), seq![',', ' ']),
        decreases n - i,
    {
        let d = debug_text(items[i]);
        if i > 0 {
            body.append(", ");
            proof {
                reveal_strlit(", ");
            }
        }
        body.append(d.as_str());
        assert(shown.take(i + 1).drop_last() =~= shown.take(i as int));
        i = i + 1;
    }
    assert(shown.take(n as int) =~= shown);
    let mut out = String::from_str("[");
    out.append(body.as_str());
    out.append("]");
    proof {
        reveal_strlit("[");
        reveal_strlit("]");
    }
    out
}

// ---------------------------------------------------------------------------
// Order of strings
// ---------------------------------------------------------------------------

/// `a` sorts strictly before `b` in the order of `str`'s `Ord`: character by
/// character (UTF-8 byte order and code point order agree), a proper prefix
/// first.
pub open spec fn str_less(a: Seq<char>, b: Seq<char>) -> bool {
    exists|i: int| #[trigger] differs_first_at(a, b, i)
}

/// `a` and `b` agree on their first `i` characters and `a` is smaller at
/// position `i`, either by ending there or by a smaller character.
pub open spec fn differs_first_at(a: Seq<char>, b: Seq<char>, i: int) -> bool {
    &&& 0 <= i <= a.len()
    &&& i <= b.len()
    &&& a.subrange(0, i) == b.subrange(0, i)
    &&& ((i == a.len() && i < b.len()) || (i < a.len() && i < b.len() && a[i] < b[i]))
}

/// No string sorts before itself.
pub proof fn str_less_irreflexive(a: Seq<char>)
    ensures
        !str_less(a, a),
{
}

/// Of two strings, at most one sorts before the other.
pub proof fn str_less_asymmetric(a: Seq<char>, b: Seq<char>)
    ensures
        !(str_less(a, b) && str_less(b, a)),
{
    if str_less(a, b) && str_less(b, a) {
        let p = choose|i: int| differs_first_at(a, b, i);
        let q = choose|i: int| differs_first_at(b, a, i);
        if p < q {
            assert(a.subrange(0, q)[p] == b.subrange(0, q)[p]);
        } else if q < p {
            assert(a.subrange(0, p)[q] == b.subrange(0, p)[q]);
        }
    }
}

/// A string that sorts before a second one sorts before every string the
/// second one sorts before.
pub proof fn str_less_transitive(a: Seq<char>, b: Seq<char>, c: Seq<char>)
    requires
        str_less(a, b),
        str_less(b, c),
    ensures
        str_less(a, c),
{
    let p = choose|i: int| differs_first_at(a, b, i);
    let q = choose|i: int| differs_first_at(b, c, i);
    if p < q {
        assert(a.subrange(0, p) =~= c.subrange(0, p)) by {
            assert forall|j: int| 0 <= j < p implies a.subrange(0, p)[j] == c.subrange(0, p)[j] by {
                assert(a.subrange(0, p)[j] == b.subrange(0, p)[j]);
                assert(b.subrange(0, q)[j] == c.subrange(0, q)[j]);
            }
        }
        assert(b.subrange(0, q)[p] == c.subrange(0, q)[p]);
        assert(differs_first_at(a, c, p));
    } else if q < p {
        assert(a.subrange(0, q) =~= c.subrange(0, q)) by {
            assert forall|j: int| 0 <= j < q implies a.subrange(0, q)[j] == c.subrange(0, q)[j] by {
                assert(a.subrange(0, p)[j] == b.subrange(0, p)[j]);
                assert(b.subrange(0, q)[j] == c.subrange(0, q)[j]);
            }
        }
        assert(a.subrange(0, p)[q] == b.subrange(0, p)[q]);
        assert(differs_first_at(a, c, q));
    } else {
        assert(a.subrange(0, p) =~= c.subrange(0, p)) by {
            assert forall|j: int| 0 <= j < p implies a.subrange(0, p)[j] == c.subrange(0, p)[j] by {
                assert(a.subrange(0, p)[j] == b.subrange(0, p)[j]);
                assert(b.subrange(0, q)[j] == c.subrange(0, q)[j]);
            }
        }
        assert(differs_first_at(a, c, p));
    }
}

} // verus!
