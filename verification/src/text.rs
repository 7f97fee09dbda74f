//! Text helpers: decimal and hexadecimal rendering, whitespace trimming,
//! ASCII upper-casing and JSON string escaping.
use vstd::prelude::*;

verus! {

/// Appends one character to a string.
///
/// Calls `String::push`, whose documentation says it appends the character
/// to the end of the string; the contract says that of the character view.
#[verifier::external_body]
pub(crate) fn push_char(s: &mut String, c: char)
    ensures
        final(s)@ == old(s)@.push(c),
{
    s.push(c);
}

/// The lower-case hexadecimal digit for `d` (`d` below 16).
pub open spec fn hex_digit(d: nat) -> char {
    if d == 0 {
        '0'
    } else if d == 1 {
        '1'
    } else if d == 2 {
        '2'
    } else if d == 3 {
        '3'
    } else if d == 4 {
        '4'
    } else if d == 5 {
        '5'
    } else if d == 6 {
        '6'
    } else if d == 7 {
        '7'
    } else if d == 8 {
        '8'
    } else if d == 9 {
        '9'
    } else if d == 10 {
        'a'
    } else if d == 11 {
        'b'
    } else if d == 12 {
        'c'
    } else if d == 13 {
        'd'
    } else if d == 14 {
        'e'
    } else {
        'f'
    }
}

fn digit_char(d: u64) -> (c: char)
    requires
        d < 16,
    ensures
        c == hex_digit(d as nat),
{
    match d {
        0 => '0',
        1 => '1',
        2 => '2',
        3 => '3',
        4 => '4',
        5 => '5',
        6 => '6',
        7 => '7',
        8 => '8',
        9 => '9',
        10 => 'a',
        11 => 'b',
        12 => 'c',
        13 => 'd',
        14 => 'e',
        _ => 'f',
    }
}

/// The decimal numeral of `n`, without leading zeros.
pub open spec fn decimal(n: nat) -> Seq<char>
    decreases n,
{
    if n < 10 {
        seq![hex_digit(n)]
    } else {
        decimal(n / 10).push(hex_digit(n % 10))
    }
}

/// The last `width` hexadecimal digits of `n`, most significant first.
pub open spec fn hex_digits(n: nat, width: nat) -> Seq<char>
    decreases width,
{
    if width == 0 {
        Seq::empty()
    } else {
        hex_digits(n / 16, (width - 1) as nat).push(hex_digit(n % 16))
    }
}

/// Appends the decimal numeral of `n`.
pub fn write_decimal(out: &mut String, n: u64)
    ensures
        final(out)@ == old(out)@ + decimal(n as nat),
    decreases n,
{
    if n < 10 {
        push_char(out, digit_char(n));
        proof {
            assert(decimal(n as nat) =~= seq![hex_digit(n as nat)]);
            assert(final(out)@ =~= old(out)@ + decimal(n as nat));
        }
    } else {
        write_decimal(out, n / 10);
        let ghost mid = out@;
        push_char(out, digit_char(n % 10));
        proof {
            assert(final(out)@ =~= old(out)@ + decimal(n as nat));
        }
    }
}

/// Appends the last `width` hexadecimal digits of `n`.
pub fn write_hex(out: &mut String, n: u64, width: u64)
    ensures
        final(out)@ == old(out)@ + hex_digits(n as nat, width as nat),
    decreases width,
{
    if width == 0 {
        proof {
            assert(final(out)@ =~= old(out)@ + hex_digits(n as nat, width as nat));
        }
    } else {
        write_hex(out, n / 16, width - 1);
        push_char(out, digit_char(n % 16));
        proof {
            assert(final(out)@ =~= old(out)@ + hex_digits(n as nat, width as nat));
        }
    }
}

/// Sixteen lower-case hexadecimal digits of `n`, zero padded.
pub fn hex16(n: u64) -> (s: String)
    ensures
        s@ == hex_digits(n as nat, 16),
{
    let mut s = String::new();
    write_hex(&mut s, n, 16);
    proof {
        assert(s@ =~= hex_digits(n as nat, 16));
    }
    s
}

/// Unicode white space, as `char::is_whitespace` and `str::trim` know it.
pub open spec fn is_space(c: char) -> bool {
    ||| '\u{9}' <= c <= '\u{d}'
    ||| c == ' '
    ||| c == '\u{85}'
    ||| c == '\u{a0}'
    ||| c == '\u{1680}'
    ||| '\u{2000}' <= c <= '\u{200a}'
    ||| c == '\u{2028}'
    ||| c == '\u{2029}'
    ||| c == '\u{202f}'
    ||| c == '\u{205f}'
    ||| c == '\u{3000}'
}

fn char_is_space(c: char) -> (b: bool)
    ensures
        b == is_space(c),
{
    ('\u{9}' <= c && c <= '\u{d}') || c == ' ' || c == '\u{85}' || c == '\u{a0}' || c == '\u{1680}'
        || ('\u{2000}' <= c && c <= '\u{200a}') || c == '\u{2028}' || c == '\u{2029}' || c
        == '\u{202f}' || c == '\u{205f}' || c == '\u{3000}'
}

/// `s` without its leading white space.
pub open spec fn trim_start(s: Seq<char>) -> Seq<char>
    decreases s.len(),
{
    if s.len() > 0 && is_space(s[0]) {
        trim_start(s.drop_first())
    } else {
        s
    }
}

/// `s` without its trailing white space.
pub open spec fn trim_end(s: Seq<char>) -> Seq<char>
    decreases s.len(),
{
    if s.len() > 0 && is_space(s.last()) {
        trim_end(s.drop_last())
    } else {
        s
    }
}

/// `s` without leading and trailing white space.
pub open spec fn trim(s: Seq<char>) -> Seq<char> {
    trim_end(trim_start(s))
}

proof fn lemma_trim_start_skip(s: Seq<char>, i: int)
    requires
        0 <= i <= s.len(),
        forall|j: int| 0 <= j < i ==> is_space(s[j]),
    ensures
        trim_start(s) == trim_start(s.subrange(i, s.len() as int)),
    decreases i,
{
    if i > 0 {
        assert(s.len() > 0 && is_space(s[0]));
        let t = s.drop_first();
        assert forall|j: int| 0 <= j < i - 1 implies is_space(t[j]) by {
            assert(t[j] == s[j + 1]);
        }
        lemma_trim_start_skip(t, i - 1);
        assert(t.subrange(i - 1, t.len() as int) =~= s.subrange(i, s.len() as int));
    } else {
        assert(s.subrange(0, s.len() as int) =~= s);
    }
}

proof fn lemma_trim_end_skip(s: Seq<char>, k: int)
    requires
        0 <= k <= s.len(),
        forall|j: int| k <= j < s.len() ==> is_space(s[j]),
    ensures
        trim_end(s) == trim_end(s.subrange(0, k)),
    decreases s.len() - k,
{
    if k < s.len() {
        assert(is_space(s.last()));
        let t = s.drop_last();
        lemma_trim_end_skip(t, k);
        assert(t.subrange(0, k) =~= s.subrange(0, k));
    } else {
        assert(s.subrange(0, k) =~= s);
    }
}

/// Returns `s` without leading and trailing white space.
pub fn trimmed(s: &str) -> (r: String)
    ensures
        r@ == trim(s@),
{
    let n = s.unicode_len();
    let mut i: usize = 0;
    while i < n && char_is_space(s.get_char(i))
        invariant
            n == s@.len(),
            i <= n,
            forall|j: int| 0 <= j < i ==> is_space(s@[j]),
        decreases n - i,
    {
        i = i + 1;
    }
    let mut k: usize = n;
    while k > i && char_is_space(s.get_char(k - 1))
        invariant
            n == s@.len(),
            i <= k <= n,
            forall|j: int| k <= j < n ==> is_space(s@[j]),
        decreases k,
    {
        k = k - 1;
    }
    let mut r = String::new();
    let mut j: usize = i;
    while j < k
        invariant
            n == s@.len(),
            i <= j <= k <= n,
            r@ == s@.subrange(i as int, j as int),
        decreases k - j,
    {
        push_char(&mut r, s.get_char(j));
        j = j + 1;
        proof {
            assert(r@ =~= s@.subrange(i as int, j as int));
        }
    }
    proof {
        let tail = s@.subrange(i as int, n as int);
        lemma_trim_start_skip(s@, i as int);
        // The character at `i`, if any before `k`, is not white space.
        if i < n {
            if i < k {
                assert(!is_space(s@[i as int]));
                assert(tail[0] == s@[i as int]);
            } else {
                assert(!is_space(s@[i as int]));
                assert(tail[0] == s@[i as int]);
            }
        }
        assert(trim_start(tail) == tail);
        assert forall|j2: int| (k - i) <= j2 < tail.len() implies is_space(tail[j2]) by {
            assert(tail[j2] == s@[j2 + i]);
        }
        lemma_trim_end_skip(tail, k - i);
        let inner = tail.subrange(0, k - i);
        assert(inner =~= s@.subrange(i as int, k as int));
        if inner.len() > 0 {
            assert(inner.last() == s@[k - 1]);
        }
        assert(trim_end(inner) == inner);
    }
    r
}

/// Whether `s` is empty once trimmed.
pub fn is_blank(s: &str) -> (b: bool)
    ensures
        b == (trim(s@).len() == 0),
{
    let t = trimmed(s);
    t.unicode_len() == 0
}

/// The ASCII upper-case form of `c`.
pub open spec fn ascii_upper(c: char) -> char {
    if 'a' <= c <= 'z' {
        ((c as u32) - 32) as char
    } else {
        c
    }
}

/// The ASCII upper-case form of every character of `s`.
pub open spec fn upper(s: Seq<char>) -> Seq<char> {
    s.map_values(|c: char| ascii_upper(c))
}

/// Upper-cases one ASCII letter and leaves every other character as it is.
fn char_to_upper(c: char) -> (r: char)
    ensures
        r == ascii_upper(c),
{
    if 'a' <= c && c <= 'z' {
        let b: u8 = c as u8;
        (b - 32) as char
    } else {
        c
    }
}

/// Returns `s` with ASCII letters upper-cased.
pub fn upper_string(s: &str) -> (r: String)
    ensures
        r@ == upper(s@),
{
    let n = s.unicode_len();
    let mut r = String::new();
    let mut j: usize = 0;
    while j < n
        invariant
            n == s@.len(),
            j <= n,
            r@ == upper(s@.subrange(0, j as int)),
        decreases n - j,
    {
        let c = s.get_char(j);
        push_char(&mut r, char_to_upper(c));
        j = j + 1;
        proof {
            assert(r@ =~= upper(s@.subrange(0, j as int)));
        }
    }
    proof {
        assert(s@.subrange(0, n as int) =~= s@);
    }
    r
}

/// The ASCII lower-case form of `c`.
pub open spec fn ascii_lower(c: char) -> char {
    if 'A' <= c <= 'Z' {
        ((c as u32) + 32) as char
    } else {
        c
    }
}

/// The ASCII lower-case form of every character of `s`.
pub open spec fn lower(s: Seq<char>) -> Seq<char> {
    s.map_values(|c: char| ascii_lower(c))
}

/// Lower-cases one ASCII letter and leaves every other character as it is.
fn char_to_lower(c: char) -> (r: char)
    ensures
        r == ascii_lower(c),
{
    if 'A' <= c && c <= 'Z' {
        let b: u8 = c as u8;
        (b + 32) as char
    } else {
        c
    }
}

/// Returns `s` with ASCII letters lower-cased.
pub fn lower_string(s: &str) -> (r: String)
    ensures
        r@ == lower(s@),
{
    let n = s.unicode_len();
    let mut r = String::new();
    let mut j: usize = 0;
    while j < n
        invariant
            n == s@.len(),
            j <= n,
            r@ == lower(s@.subrange(0, j as int)),
        decreases n - j,
    {
        let c = s.get_char(j);
        push_char(&mut r, char_to_lower(c));
        j = j + 1;
        proof {
            assert(r@ =~= lower(s@.subrange(0, j as int)));
        }
    }
    proof {
        assert(s@.subrange(0, n as int) =~= s@);
    }
    r
}

/// The canonical form of a token symbol: trimmed and upper-cased.
pub open spec fn canonical(s: Seq<char>) -> Seq<char> {
    upper(trim(s))
}


proof fn lemma_trim_start_front(s: Seq<char>)
    ensures
        trim_start(s).len() == 0 || !is_space(trim_start(s)[0]),
        exists|i: int| 0 <= i <= s.len() && trim_start(s) == s.subrange(i, s.len() as int),
    decreases s.len(),
{
    if s.len() > 0 && is_space(s[0]) {
        lemma_trim_start_front(s.drop_first());
        let i = choose|i: int|
            0 <= i <= s.drop_first().len() && trim_start(s.drop_first()) == s.drop_first().subrange(
                i,
                s.drop_first().len() as int,
            );
        assert(s.drop_first().subrange(i, s.drop_first().len() as int) =~= s.subrange(
            i + 1,
            s.len() as int,
        ));
    } else {
        assert(s.subrange(0, s.len() as int) =~= s);
    }
}

proof fn lemma_trim_end_back(s: Seq<char>)
    ensures
        trim_end(s).len() == 0 || !is_space(trim_end(s).last()),
        trim_end(s).len() <= s.len(),
        forall|j: int| 0 <= j < trim_end(s).len() ==> trim_end(s)[j] == s[j],
    decreases s.len(),
{
    if s.len() > 0 && is_space(s.last()) {
        lemma_trim_end_back(s.drop_last());
        assert forall|j: int| 0 <= j < trim_end(s).len() implies trim_end(s)[j] == s[j] by {
            assert(s.drop_last()[j] == s[j]);
        }
    }
}

/// A trimmed text starts and ends with non-space characters.
pub proof fn lemma_trim_ends(s: Seq<char>)
    ensures
        trim(s).len() == 0 || (!is_space(trim(s)[0]) && !is_space(trim(s).last())),
{
    lemma_trim_start_front(s);
    lemma_trim_end_back(trim_start(s));
}

/// Trimming a text whose ends are not white space changes nothing.
pub proof fn lemma_trim_fixed(s: Seq<char>)
    requires
        s.len() == 0 || (!is_space(s[0]) && !is_space(s.last())),
    ensures
        trim(s) == s,
{
}

/// Canonicalizing a canonical symbol changes nothing.
pub proof fn lemma_canonical_idempotent(s: Seq<char>)
    ensures
        canonical(canonical(s)) == canonical(s),
{
    let t = trim(s);
    lemma_trim_ends(s);
    let u = upper(t);
    if u.len() > 0 {
        assert(u[0] == ascii_upper(t[0]));
        assert(u.last() == ascii_upper(t.last()));
    }
    lemma_trim_fixed(u);
    assert(upper(u) =~= u);
}

/// Returns the canonical form of a token symbol.
pub fn canonical_symbol(symbol: &str) -> (r: String)
    ensures
        r@ == canonical(symbol@),
{
    let t = trimmed(symbol);
    upper_string(t.as_str())
}

/// The JSON escape of one character, as `serde_json` writes it.
pub open spec fn json_escape_char(c: char) -> Seq<char> {
    if c == '"' {
        seq!['\\', '"']
    } else if c == '\\' {
        seq!['\\', '\\']
    } else if c == '\u{8}' {
        seq!['\\', 'b']
    } else if c == '\u{9}' {
        seq!['\\', 't']
    } else if c == '\u{a}' {
        seq!['\\', 'n']
    } else if c == '\u{c}' {
        seq!['\\', 'f']
    } else if c == '\u{d}' {
        seq!['\\', 'r']
    } else if (c as u32) < 32 {
        seq!['\\', 'u', '0', '0', hex_digit((c as u32 / 16) as nat), hex_digit((c as u32 % 16) as nat)]
    } else {
        seq![c]
    }
}

/// The JSON escape of every character of `s`.
pub open spec fn json_escape(s: Seq<char>) -> Seq<char>
    decreases s.len(),
{
    if s.len() == 0 {
        Seq::empty()
    } else {
        json_escape(s.drop_last()) + json_escape_char(s.last())
    }
}

/// A JSON string literal holding `s`.
pub open spec fn json_string(s: Seq<char>) -> Seq<char> {
    seq!['"'] + json_escape(s) + seq!['"']
}

fn push_escaped(out: &mut String, c: char)
    ensures
        final(out)@ == old(out)@ + json_escape_char(c),
{
    if c == '"' {
        push_char(out, '\\');
        push_char(out, '"');
    } else if c == '\\' {
        push_char(out, '\\');
        push_char(out, '\\');
    } else if c == '\u{8}' {
        push_char(out, '\\');
        push_char(out, 'b');
    } else if c == '\u{9}' {
        push_char(out, '\\');
        push_char(out, 't');
    } else if c == '\u{a}' {
        push_char(out, '\\');
        push_char(out, 'n');
    } else if c == '\u{c}' {
        push_char(out, '\\');
        push_char(out, 'f');
    } else if c == '\u{d}' {
        push_char(out, '\\');
        push_char(out, 'r');
    } else if (c as u32) < 32 {
        let code = c as u32;
        push_char(out, '\\');
        push_char(out, 'u');
        push_char(out, '0');
        push_char(out, '0');
        push_char(out, digit_char((code / 16) as u64));
        push_char(out, digit_char((code % 16) as u64));
    } else {
        push_char(out, c);
    }
    proof {
        assert(final(out)@ =~= old(out)@ + json_escape_char(c));
    }
}

/// Appends `s` as a JSON string literal.
pub fn write_json_string(out: &mut String, s: &str)
    ensures
        final(out)@ == old(out)@ + json_string(s@),
{
    let n = s.unicode_len();
    push_char(out, '"');
    let ghost base = out@;
    let mut j: usize = 0;
    while j < n
        invariant
            n == s@.len(),
            j <= n,
            out@ == base + json_escape(s@.subrange(0, j as int)),
        decreases n - j,
    {
        let c = s.get_char(j);
        let ghost before = out@;
        push_escaped(out, c);
        proof {
            let p = s@.subrange(0, j + 1);
            assert(p.drop_last() =~= s@.subrange(0, j as int));
            assert(p.last() == c);
            assert(json_escape(p) == json_escape(p.drop_last()) + json_escape_char(c));
            assert(out@ =~= base + json_escape(p));
        }
        j = j + 1;
    }
    push_char(out, '"');
    proof {
        assert(s@.subrange(0, n as int) =~= s@);
        assert(final(out)@ =~= old(out)@ + json_string(s@));
    }
}

} // verus!
