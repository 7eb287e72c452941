//! Text helpers: trimming, case, decimal and hexadecimal rendering.
use vstd::prelude::*;
use vstd::string::StrSliceExecFns;

verus! {

broadcast use vstd::seq::group_seq_axioms;

/// Appends one character to a `String` (`String::push`).
#[verifier::external_body]
pub(crate) fn push_char(s: &mut String, c: char)
    ensures
        final(s)@ == old(s)@.push(c),
{
    s.push(c);
}

/// Appends the text of a `&str` to a `String` (`String::push_str`).
#[verifier::external_body]
pub(crate) fn push_text(s: &mut String, t: &str)
    ensures
        final(s)@ == old(s)@ + t@,
{
    s.push_str(t);
}

/// The characters with the Unicode `White_Space` property, which is what
/// `char::is_whitespace` and `str::trim` go by.
pub open spec fn is_white(c: char) -> bool {
    ||| ('\u{9}' <= c && c <= '\u{d}')
    ||| c == ' '
    ||| c == '\u{85}'
    ||| c == '\u{a0}'
    ||| c == '\u{1680}'
    ||| ('\u{2000}' <= c && c <= '\u{200a}')
    ||| c == '\u{2028}'
    ||| c == '\u{2029}'
    ||| c == '\u{202f}'
    ||| c == '\u{205f}'
    ||| c == '\u{3000}'
}

pub fn white(c: char) -> (r: bool)
    ensures
        r == is_white(c),
{
    ('\u{9}' <= c && c <= '\u{d}') || c == ' ' || c == '\u{85}' || c == '\u{a0}' || c == '\u{1680}'
        || ('\u{2000}' <= c && c <= '\u{200a}') || c == '\u{2028}' || c == '\u{2029}' || c
        == '\u{202f}' || c == '\u{205f}' || c == '\u{3000}'
}

/// `s` with its leading whitespace removed.
pub open spec fn trim_start(s: Seq<char>) -> Seq<char>
    decreases s.len(),
{
    if s.len() > 0 && is_white(s[0]) {
        trim_start(s.drop_first())
    } else {
        s
    }
}

/// `s` with its trailing whitespace removed.
pub open spec fn trim_end(s: Seq<char>) -> Seq<char>
    decreases s.len(),
{
    if s.len() > 0 && is_white(s.last()) {
        trim_end(s.drop_last())
    } else {
        s
    }
}

/// `str::trim`: leading and trailing whitespace removed.
pub open spec fn trimmed(s: Seq<char>) -> Seq<char> {
    trim_end(trim_start(s))
}

/// An owned copy of the characters `from..to` of `s`.
pub fn slice_chars(s: &str, from: usize, to: usize) -> (r: String)
    requires
        from <= to <= s@.len(),
    ensures
        r@ == s@.subrange(from as int, to as int),
{
    s.substring_char(from, to).to_owned()
}

/// `s.trim().to_string()`.
pub fn trim(s: &str) -> (r: String)
    ensures
        r@ == trimmed(s@),
{
    let n = s.unicode_len();
    let mut i: usize = 0;
    assert(s@.subrange(0, n as int) =~= s@);
    while i < n && white(s.get_char(i))
        invariant
            i <= n,
            n == s@.len(),
            trim_start(s@) == trim_start(s@.subrange(i as int, n as int)),
        decreases n - i,
    {
        assert(s@.subrange(i as int, n as int).drop_first() =~= s@.subrange(i as int + 1, n as int));
        i = i + 1;
    }
    let mut j: usize = n;
    assert(trim_start(s@) == s@.subrange(i as int, n as int));
    while j > i && white(s.get_char(j - 1))
        invariant
            i <= j <= n,
            n == s@.len(),
            trimmed(s@) == trim_end(s@.subrange(i as int, j as int)),
        decreases j - i,
    {
        assert(s@.subrange(i as int, j as int).drop_last() =~= s@.subrange(i as int, j - 1));
        j = j - 1;
    }
    slice_chars(s, i, j)
}

/// ASCII lower case of one character; other characters are kept.
pub open spec fn lower_char(c: char) -> char {
    if 'A' <= c && c <= 'Z' {
        ((c as u32) + 32) as char
    } else {
        c
    }
}

pub open spec fn is_ascii_alnum(c: char) -> bool {
    ('a' <= c && c <= 'z') || ('A' <= c && c <= 'Z') || ('0' <= c && c <= '9')
}

/// `s.to_lowercase()` for a string of ASCII letters and digits.
pub fn lowercase_alnum(s: &String) -> (r: String)
    requires
        forall|k: int| 0 <= k < s@.len() ==> is_ascii_alnum(#[trigger] s@[k]),
    ensures
        r@ == s@.map_values(|c: char| lower_char(c)),
{
    let t = s.as_str();
    let n = t.unicode_len();
    let mut out = String::new();
    let mut i: usize = 0;
    while i < n
        invariant
            i <= n,
            n == s@.len(),
            t@ == s@,
            out@ =~= s@.take(i as int).map_values(|c: char| lower_char(c)),
        decreases n - i,
    {
        let c = t.get_char(i);
        let lc = if 'A' <= c && c <= 'Z' {
            char_from_ascii((c as u8) + 32)
        } else {
            c
        };
        proof {
            if 'A' <= c && c <= 'Z' {
                assert(lc as u32 == (c as u32) + 32);
            }
        }
        push_char(&mut out, lc);
        assert(s@.take(i as int + 1) =~= s@.take(i as int).push(c));
        i = i + 1;
    }
    assert(s@.take(n as int) =~= s@);
    out
}

/// The character of an ASCII byte.
pub fn char_from_ascii(b: u8) -> (c: char)
    requires
        b < 128,
    ensures
        c as u32 == b as u32,
{
    b as char
}

/// The decimal digit character of `d`.
pub open spec fn digit_char(d: int) -> char {
    (('0' as u32) + d) as char
}

/// The decimal rendering of `n`, as `u64::to_string` gives it.
pub open spec fn decimal(n: nat) -> Seq<char>
    decreases n,
{
    if n < 10 {
        seq![digit_char(n as int)]
    } else {
        decimal(n / 10).push(digit_char((n % 10) as int))
    }
}

/// `n.to_string()`.
pub fn u64_to_decimal(n: u64) -> (r: String)
    ensures
        r@ == decimal(n as nat),
{
    if n == 0 {
        let mut zero = String::new();
        push_char(&mut zero, '0');
        assert(zero@ =~= decimal(0));
        return zero;
    }
    let mut digits: Vec<char> = Vec::new();
    let mut m = n;
    assert(decimal(n as nat) + reversed(digits@) =~= decimal(n as nat));
    // Collect the digits from the least significant one.
    while m > 0
        invariant
            decimal(n as nat) == decimal_tail(m as nat, digits@),
        decreases m,
    {
        let d = (m % 10) as u8;
        let c = char_from_ascii(48 + d);
        proof {
            lemma_decimal_tail_step(m as nat, digits@, c);
        }
        digits.push(c);
        m = m / 10;
    }
    let mut out = String::new();
    let mut k: usize = digits.len();
    proof {
        lemma_decimal_tail_zero(digits@);
        assert(digits@.take(k as int) =~= digits@);
        assert(out@ + reversed(digits@) =~= reversed(digits@));
    }
    while k > 0
        invariant
            k <= digits@.len(),
            out@ + reversed(digits@.take(k as int)) == reversed(digits@),
            decimal(n as nat) == reversed(digits@),
        decreases k,
    {
        let c = digits[k - 1];
        proof {
            assert(digits@.take(k as int).drop_last() =~= digits@.take(k - 1));
            assert(digits@.take(k as int).last() == c);
            assert(reversed(digits@.take(k as int)) =~= seq![c] + reversed(digits@.take(k - 1)));
            assert(out@.push(c) + reversed(digits@.take(k - 1)) =~= out@ + (seq![c] + reversed(
                digits@.take(k - 1),
            )));
        }
        push_char(&mut out, c);
        k = k - 1;
    }
    assert(digits@.take(0) =~= Seq::<char>::empty());
    assert(reversed(Seq::<char>::empty()) =~= Seq::<char>::empty());
    assert(out@ + Seq::<char>::empty() =~= out@);
    out
}

/// `s` in reverse order.
pub open spec fn reversed(s: Seq<char>) -> Seq<char>
    decreases s.len(),
{
    if s.len() == 0 {
        Seq::empty()
    } else {
        seq![s.last()] + reversed(s.drop_last())
    }
}

/// The decimal rendering of `m` followed by the digits collected so far,
/// which are kept least significant first.
pub open spec fn decimal_tail(m: nat, collected: Seq<char>) -> Seq<char> {
    if m == 0 {
        reversed(collected)
    } else {
        decimal(m) + reversed(collected)
    }
}

proof fn lemma_decimal_tail_step(m: nat, collected: Seq<char>, c: char)
    requires
        m > 0,
        c == digit_char((m % 10) as int),
    ensures
        decimal_tail(m, collected) == decimal_tail(m / 10, collected.push(c)),
{
    let pushed = collected.push(c);
    assert(pushed.drop_last() =~= collected);
    assert(reversed(pushed) == seq![c] + reversed(collected));
    if m < 10 {
        assert(decimal(m) == seq![c]);
        assert(m / 10 == 0);
    } else {
        assert(decimal(m) == decimal(m / 10).push(c));
        assert(decimal(m / 10).push(c) + reversed(collected) =~= decimal(m / 10) + (seq![c]
            + reversed(collected)));
    }
}

proof fn lemma_decimal_tail_zero(collected: Seq<char>)
    ensures
        decimal_tail(0, collected) == reversed(collected),
{
}

/// The lower-case hexadecimal digit of a nibble.
pub open spec fn hex_digit(d: int) -> char {
    if d < 10 {
        (('0' as u32) + d) as char
    } else {
        (('a' as u32) + d - 10) as char
    }
}

/// Two lower-case hexadecimal digits per byte, as `format!("{:02x}", b)` writes each.
pub open spec fn hex_lower(bytes: Seq<u8>) -> Seq<char>
    decreases bytes.len(),
{
    if bytes.len() == 0 {
        Seq::empty()
    } else {
        hex_lower(bytes.drop_last()) + seq![
            hex_digit((bytes.last() / 16) as int),
            hex_digit((bytes.last() % 16) as int),
        ]
    }
}

pub proof fn lemma_hex_lower_len(bytes: Seq<u8>)
    ensures
        hex_lower(bytes).len() == 2 * bytes.len(),
    decreases bytes.len(),
{
    if bytes.len() > 0 {
        lemma_hex_lower_len(bytes.drop_last());
    }
}

pub(crate) fn nibble_char(d: u8) -> (c: char)
    requires
        d < 16,
    ensures
        c == hex_digit(d as int),
{
    if d < 10 {
        char_from_ascii(48 + d)
    } else {
        char_from_ascii(87 + d)
    }
}

/// The lower-case hexadecimal rendering of `bytes`.
pub fn to_hex_lower(bytes: &[u8]) -> (r: String)
    ensures
        r@ == hex_lower(bytes@),
{
    let mut out = String::new();
    let mut i: usize = 0;
    while i < bytes.len()
        invariant
            i <= bytes@.len(),
            out@ == hex_lower(bytes@.take(i as int)),
        decreases bytes@.len() - i,
    {
        let b = bytes[i];
        let hi = nibble_char(b / 16);
        let lo = nibble_char(b % 16);
        push_char(&mut out, hi);
        push_char(&mut out, lo);
        proof {
            let t = bytes@.take(i as int + 1);
            assert(t.drop_last() =~= bytes@.take(i as int));
            assert(t.last() == b);
            assert(out@ =~= hex_lower(t));
        }
        i = i + 1;
    }
    assert(bytes@.take(bytes@.len() as int) =~= bytes@);
    out
}


/// The first position at or after `from` that holds `c`.
pub open spec fn first_from(s: Seq<char>, c: char, from: int) -> Option<int>
    decreases s.len() - from,
{
    if from < 0 || from >= s.len() {
        None
    } else if s[from] == c {
        Some(from)
    } else {
        first_from(s, c, from + 1)
    }
}

/// The first position that holds `c`.
pub open spec fn first_index(s: Seq<char>, c: char) -> Option<int> {
    first_from(s, c, 0)
}

pub proof fn lemma_first_from_bounds(s: Seq<char>, c: char, from: int)
    ensures
        first_from(s, c, from) matches Some(k) ==> from <= k < s.len() && s[k] == c && (forall|
            j: int,
        | from <= j < k ==> s[j] != c),
        first_from(s, c, from) is None && 0 <= from ==> forall|j: int|
            from <= j < s.len() ==> s[j] != c,
    decreases s.len() - from,
{
    if 0 <= from < s.len() && s[from] != c {
        lemma_first_from_bounds(s, c, from + 1);
    }
}

/// The position of the first `c` in `s` at or after `from`, if any.
pub fn find_char_from(s: &str, c: char, from: usize) -> (r: Option<usize>)
    ensures
        match r {
            Some(k) => first_from(s@, c, from as int) == Some(k as int),
            None => first_from(s@, c, from as int) is None,
        },
{
    let n = s.unicode_len();
    let mut i = from;
    while i < n
        invariant
            from <= i,
            n == s@.len(),
            first_from(s@, c, from as int) == first_from(s@, c, i as int),
        decreases n - i,
    {
        if s.get_char(i) == c {
            return Some(i);
        }
        i = i + 1;
    }
    None
}

} // verus!
