//! Text building blocks: numbers in decimal and hexadecimal notation, white
//! space, and the order of texts.
use vstd::prelude::*;
use vstd::string::*;

verus! {

/// `String::push` appends the given character to the end of the string.
pub assume_specification[ String::push ](s: &mut String, ch: char)
    ensures
        final(s)@ == old(s)@.push(ch),
;

/// `char::from_u32` gives the character with the given code point, and nothing
/// for a number that is no Unicode scalar value: a surrogate, or one above
/// 0x10FFFF.
pub assume_specification[ char::from_u32 ](i: u32) -> (c: Option<char>)
    ensures
        c == if i < 0xD800 || 0xE000 <= i <= 0x10_FFFF {
            Some(i as char)
        } else {
            None
        },
;

/// The characters of `s`, one per element.
pub fn chars_of(s: &str) -> (v: Vec<char>)
    ensures
        v@ == s@,
{
    let mut v: Vec<char> = Vec::new();
    for c in it: s.chars()
        invariant
            it.seq() == s@,
            v@ == s@.take(it.index() as int),
    {
        v.push(c);
    }
    assert(s@.take(s@.len() as int) == s@);
    v
}

/// The text made of the characters `v[from..to]`.
pub fn text_of(v: &Vec<char>, from: usize, to: usize) -> (s: String)
    requires
        from <= to <= v@.len(),
    ensures
        s@ == v@.subrange(from as int, to as int),
{
    let mut s = String::new();
    let mut i: usize = from;
    while i < to
        invariant
            from <= i <= to <= v@.len(),
            s@ == v@.subrange(from as int, i as int),
        decreases to - i,
    {
        s.push(v[i]);
        i = i + 1;
        assert(s@ == v@.subrange(from as int, i as int));
    }
    s
}

/// `a` followed by `b`.
pub fn joined(a: &str, b: &str) -> (s: String)
    ensures
        s@ == a@ + b@,
{
    let mut s = a.to_string();
    s.append(b);
    s
}

// ---------------------------------------------------------------------------
// Numbers
// ---------------------------------------------------------------------------
/// The character of a decimal digit.
pub open spec fn digit_char(d: int) -> char {
    (48 + d) as char
}

/// Decimal notation of `n`, without leading zeros.
pub open spec fn decimal(n: nat) -> Seq<char>
    decreases n,
{
    if n < 10 {
        seq![digit_char(n as int)]
    } else {
        decimal(n / 10).push(digit_char((n % 10) as int))
    }
}

/// Decimal notation of `n`, filled with zeros on the left up to `width` characters.
pub open spec fn padded(n: nat, width: nat) -> Seq<char> {
    let d = decimal(n);
    if d.len() < width {
        Seq::new((width - d.len()) as nat, |i: int| '0') + d
    } else {
        d
    }
}

fn digit(d: u64) -> (c: char)
    requires
        d < 10,
    ensures
        c == digit_char(d as int),
{
    match d {
        0 => '0',
        1 => '1',
        2 => '2',
        3 => '3',
        4 => '4',
        5 => '5',
        6 => '6',
        7 => '7',
        8 => '8',
        _ => '9',
    }
}

/// Appends the decimal notation of `n`.
pub fn push_decimal(out: &mut String, n: u64)
    ensures
        final(out)@ == old(out)@ + decimal(n as nat),
    decreases n,
{
    if n >= 10 {
        push_decimal(out, n / 10);
    }
    out.push(digit(n % 10));
}

/// Appends the decimal notation of `n`, filled with zeros up to `width` characters.
pub fn push_padded(out: &mut String, n: u64, width: usize)
    ensures
        final(out)@ == old(out)@ + padded(n as nat, width as nat),
{
    let mut d = String::new();
    push_decimal(&mut d, n);
    assert(d@ == decimal(n as nat));
    let mut len: usize = d.as_str().unicode_len();
    let ghost start = len as int;
    let ghost before = out@;
    while len < width
        invariant
            start <= len,
            start < width ==> len <= width,
            start >= width ==> len == start,
            out@ == before + Seq::new((len - start) as nat, |i: int| '0'),
        decreases width - len,
    {
        out.push('0');
        len = len + 1;
        assert(out@ == before + Seq::new((len - start) as nat, |i: int| '0'));
    }
    out.append(d.as_str());
    assert(out@ == before + padded(n as nat, width as nat));
}

/// The character of a hexadecimal digit in lower case.
pub open spec fn hex_lower(d: int) -> char {
    if d < 10 {
        (48 + d) as char
    } else {
        (87 + d) as char
    }
}

/// The four hexadecimal digits of a 16-bit number, in lower case.
pub open spec fn hex4_lower(n: u16) -> Seq<char> {
    seq![
        hex_lower(n as int / 4096),
        hex_lower((n as int / 256) % 16),
        hex_lower((n as int / 16) % 16),
        hex_lower(n as int % 16),
    ]
}

fn hex_digit(d: u16) -> (c: char)
    requires
        d < 16,
    ensures
        c == hex_lower(d as int),
{
    match d {
        10 => 'a',
        11 => 'b',
        12 => 'c',
        13 => 'd',
        14 => 'e',
        15 => 'f',
        _ => digit(d as u64),
    }
}

/// Appends the four hexadecimal digits of `n`.
pub fn push_hex4(out: &mut String, n: u16)
    ensures
        final(out)@ == old(out)@ + hex4_lower(n),
{
    let ghost before = out@;
    out.push(hex_digit(n / 4096));
    out.push(hex_digit((n / 256) % 16));
    out.push(hex_digit((n / 16) % 16));
    out.push(hex_digit(n % 16));
    assert(out@ == before + hex4_lower(n));
}

/// Every decimal notation has at least one digit.
pub proof fn lemma_decimal_len(n: nat)
    ensures
        decimal(n).len() >= 1,
        n < 10 ==> decimal(n).len() == 1,
        10 <= n < 100 ==> decimal(n).len() == 2,
        100 <= n < 1000 ==> decimal(n).len() == 3,
        1000 <= n < 10000 ==> decimal(n).len() == 4,
    decreases n,
{
    if n >= 10 {
        lemma_decimal_len(n / 10);
    }
}

/// Different numbers have different decimal notations.
pub proof fn lemma_decimal_injective(a: nat, b: nat)
    requires
        decimal(a) == decimal(b),
    ensures
        a == b,
    decreases a,
{
    let da = decimal(a);
    let db = decimal(b);
    lemma_decimal_len(a);
    lemma_decimal_len(b);
    if a >= 10 {
        lemma_decimal_len(a / 10);
    }
    if b >= 10 {
        lemma_decimal_len(b / 10);
    }
    assert(da.last() == digit_char((a % 10) as int));
    assert(db.last() == digit_char((b % 10) as int));
    assert(a % 10 == b % 10);
    if a >= 10 && b >= 10 {
        assert(da.drop_last() == decimal(a / 10));
        assert(db.drop_last() == decimal(b / 10));
        lemma_decimal_injective(a / 10, b / 10);
    }
}

/// Two-digit and four-digit fields have a fixed width and give their number back.
pub proof fn lemma_padded_field(n: nat, width: nat)
    requires
        (width == 2 && n < 100) || (width == 4 && n < 10000),
    ensures
        padded(n, width).len() == width,
        width == 2 ==> padded(n, width) == seq![
            digit_char((n / 10) as int),
            digit_char((n % 10) as int),
        ],
        width == 4 ==> padded(n, width) == seq![
            digit_char((n / 1000) as int),
            digit_char(((n / 100) % 10) as int),
            digit_char(((n / 10) % 10) as int),
            digit_char((n % 10) as int),
        ],
{
    lemma_decimal_len(n);
    reveal_with_fuel(decimal, 4);
    assert(digit_char(0) == '0');
    let p = padded(n, width);
    if width == 2 {
        assert(p == seq![digit_char((n / 10) as int), digit_char((n % 10) as int)]);
    } else {
        assert((n / 10) / 10 == n / 100);
        assert((n / 100) / 10 == n / 1000);
        assert(p == seq![
            digit_char((n / 1000) as int),
            digit_char(((n / 100) % 10) as int),
            digit_char(((n / 10) % 10) as int),
            digit_char((n % 10) as int),
        ]);
    }
}

// ---------------------------------------------------------------------------
// UTF-16
// ---------------------------------------------------------------------------
/// The first halves of surrogate pairs.
pub open spec fn is_high(u: u16) -> bool {
    0xD800 <= u <= 0xDBFF
}

/// The second halves of surrogate pairs.
pub open spec fn is_low(u: u16) -> bool {
    0xDC00 <= u <= 0xDFFF
}

/// The character of a surrogate pair.
pub open spec fn pair_char(high: u16, low: u16) -> char {
    (0x1_0000 + (high - 0xD800) * 0x400 + (low - 0xDC00)) as char
}

/// The text that UTF-16 code units stand for. A surrogate without its other
/// half is replaced by U+FFFD.
pub open spec fn utf16_lossy(units: Seq<u16>) -> Seq<char>
    decreases units.len(),
{
    if units.len() == 0 {
        Seq::empty()
    } else if units.len() >= 2 && is_high(units[0]) && is_low(units[1]) {
        seq![pair_char(units[0], units[1])] + utf16_lossy(units.skip(2))
    } else if is_high(units[0]) || is_low(units[0]) {
        seq!['\u{fffd}'] + utf16_lossy(units.skip(1))
    } else {
        seq![units[0] as char] + utf16_lossy(units.skip(1))
    }
}

fn char_of(code: u32) -> (c: char)
    requires
        code < 0xD800 || 0xE000 <= code <= 0x10_FFFF,
    ensures
        c == code as char,
{
    match char::from_u32(code) {
        Some(c) => c,
        None => '\u{fffd}',
    }
}

/// The text that the first `len` of some UTF-16 code units stand for.
pub fn utf16_text(units: &Vec<u16>, len: usize) -> (s: String)
    requires
        len <= units@.len(),
    ensures
        s@ == utf16_lossy(units@.take(len as int)),
{
    let ghost text = units@.take(len as int);
    let mut s = String::new();
    let mut i: usize = 0;
    assert(text.skip(0) == text);
    while i < len
        invariant
            i <= len <= units@.len(),
            text == units@.take(len as int),
            s@ + utf16_lossy(text.skip(i as int)) == utf16_lossy(text),
        decreases len - i,
    {
        let ghost rest = text.skip(i as int);
        let ghost before = s@;
        let u: u16 = units[i];
        if i + 1 < len && 0xD800 <= u && u <= 0xDBFF && 0xDC00 <= units[i + 1] && units[i + 1]
            <= 0xDFFF {
            let low: u16 = units[i + 1];
            let c = char_of(0x1_0000 + (u as u32 - 0xD800) * 0x400 + (low as u32 - 0xDC00));
            s.push(c);
            assert(rest.skip(2) == text.skip(i + 2));
            assert(s@ + utf16_lossy(rest.skip(2)) == before + (seq![c] + utf16_lossy(
                rest.skip(2),
            )));
            i = i + 2;
        } else {
            let c = if 0xD800 <= u && u <= 0xDFFF {
                '\u{fffd}'
            } else {
                char_of(u as u32)
            };
            s.push(c);
            assert(rest.skip(1) == text.skip(i + 1));
            assert(s@ + utf16_lossy(rest.skip(1)) == before + (seq![c] + utf16_lossy(
                rest.skip(1),
            )));
            i = i + 1;
        }
    }
    assert(text.skip(len as int).len() == 0);
    s
}

// ---------------------------------------------------------------------------
// White space
// ---------------------------------------------------------------------------
/// The characters with the Unicode property `White_Space`.
pub open spec fn is_white(c: char) -> bool {
    ||| '\u{9}' <= c <= '\u{d}'
    ||| c == '\u{20}'
    ||| c == '\u{85}'
    ||| c == '\u{a0}'
    ||| c == '\u{1680}'
    ||| '\u{2000}' <= c <= '\u{200a}'
    ||| c == '\u{2028}'
    ||| c == '\u{2029}'
    ||| c == '\u{202f}'
    ||| c == '\u{205f}'
    ||| c == '\u{3000}'
}

/// Whether `c` is white space.
pub fn white(c: char) -> (b: bool)
    ensures
        b == is_white(c),
{
    ('\u{9}' <= c && c <= '\u{d}') || c == '\u{20}' || c == '\u{85}' || c == '\u{a0}' || c
        == '\u{1680}' || ('\u{2000}' <= c && c <= '\u{200a}') || c == '\u{2028}' || c == '\u{2029}'
        || c == '\u{202f}' || c == '\u{205f}' || c == '\u{3000}'
}

/// `s` without its leading white space.
pub open spec fn trim_start(s: Seq<char>) -> Seq<char>
    decreases s.len(),
{
    if s.len() > 0 && is_white(s.first()) {
        trim_start(s.drop_first())
    } else {
        s
    }
}

/// `s` without its trailing white space.
pub open spec fn trim_end(s: Seq<char>) -> Seq<char>
    decreases s.len(),
{
    if s.len() > 0 && is_white(s.last()) {
        trim_end(s.drop_last())
    } else {
        s
    }
}

/// `s` without white space at either end.
pub open spec fn trim(s: Seq<char>) -> Seq<char> {
    trim_end(trim_start(s))
}

/// `s` without white space at either end.
pub fn trimmed(s: &str) -> (r: String)
    ensures
        r@ == trim(s@),
{
    let v = chars_of(s);
    let mut lo: usize = 0;
    let mut hi: usize = v.len();
    assert(v@.skip(0) == v@);
    while lo < hi && white(v[lo])
        invariant
            lo <= hi == v@.len(),
            trim_start(v@.skip(lo as int)) == trim_start(v@),
        decreases hi - lo,
    {
        assert(v@.skip(lo as int).drop_first() == v@.skip(lo + 1));
        lo = lo + 1;
    }
    assert(trim_start(v@) == v@.skip(lo as int));
    assert(v@.skip(lo as int) == v@.subrange(lo as int, hi as int));
    let ghost full = hi as int;
    while lo < hi && white(v[hi - 1])
        invariant
            lo <= hi <= full == v@.len(),
            trim_end(v@.subrange(lo as int, hi as int)) == trim_end(
                v@.subrange(lo as int, full),
            ),
        decreases hi - lo,
    {
        assert(v@.subrange(lo as int, hi as int).drop_last() == v@.subrange(
            lo as int,
            hi - 1,
        ));
        hi = hi - 1;
    }
    assert(trim_end(v@.subrange(lo as int, hi as int)) == v@.subrange(lo as int, hi as int));
    text_of(&v, lo, hi)
}

// ---------------------------------------------------------------------------
// Order
// ---------------------------------------------------------------------------
/// Whether text `a` comes strictly before text `b`, comparing character by
/// character by code point; a proper prefix comes first.
pub open spec fn text_before(a: Seq<char>, b: Seq<char>) -> bool
    decreases a.len(),
{
    if b.len() == 0 {
        false
    } else if a.len() == 0 {
        true
    } else if a.first() != b.first() {
        a.first() < b.first()
    } else {
        text_before(a.drop_first(), b.drop_first())
    }
}

/// Whether text `a` comes strictly before text `b`.
pub fn precedes(a: &str, b: &str) -> (r: bool)
    ensures
        r == text_before(a@, b@),
{
    let va = chars_of(a);
    let vb = chars_of(b);
    let mut i: usize = 0;
    assert(va@.skip(0) == va@);
    assert(vb@.skip(0) == vb@);
    while i < va.len() && i < vb.len()
        invariant
            va@ == a@,
            vb@ == b@,
            i <= va@.len(),
            i <= vb@.len(),
            text_before(va@.skip(i as int), vb@.skip(i as int)) == text_before(va@, vb@),
        decreases va.len() - i,
    {
        assert(va@.skip(i as int).drop_first() == va@.skip(i + 1));
        assert(vb@.skip(i as int).drop_first() == vb@.skip(i + 1));
        assert(va@.skip(i as int).first() == va@[i as int]);
        assert(vb@.skip(i as int).first() == vb@[i as int]);
        if va[i] != vb[i] {
            return va[i] < vb[i];
        }
        i = i + 1;
    }
    i < vb.len()
}

/// No text comes before itself.
pub proof fn lemma_before_irreflexive(a: Seq<char>)
    ensures
        !text_before(a, a),
    decreases a.len(),
{
    if a.len() > 0 {
        lemma_before_irreflexive(a.drop_first());
    }
}

/// Of two different texts one comes before the other.
pub proof fn lemma_before_total(a: Seq<char>, b: Seq<char>)
    requires
        a != b,
    ensures
        text_before(a, b) || text_before(b, a),
    decreases a.len(),
{
    if a.len() == 0 {
        assert(b.len() > 0) by {
            if b.len() == 0 {
                assert(a == b);
            }
        }
    } else if b.len() > 0 && a.first() == b.first() {
        if a.drop_first() == b.drop_first() {
            assert(a == seq![a.first()] + a.drop_first());
            assert(b == seq![b.first()] + b.drop_first());
        }
        lemma_before_total(a.drop_first(), b.drop_first());
    }
}

/// The order of texts is transitive.
pub proof fn lemma_before_transitive(a: Seq<char>, b: Seq<char>, c: Seq<char>)
    requires
        text_before(a, b),
        text_before(b, c),
    ensures
        text_before(a, c),
    decreases a.len(),
{
    if a.len() > 0 && a.first() == b.first() && b.first() == c.first() {
        lemma_before_transitive(a.drop_first(), b.drop_first(), c.drop_first());
    }
}

/// Texts that start with parts of the same length are ordered by these parts, and
/// by the rest where the parts agree.
pub proof fn lemma_before_concat(a: Seq<char>, b: Seq<char>, c: Seq<char>, d: Seq<char>)
    requires
        a.len() == b.len(),
    ensures
        text_before(a + c, b + d) <==> text_before(a, b) || (a == b && text_before(c, d)),
    decreases a.len(),
{
    if a.len() == 0 {
        assert(a + c == c);
        assert(b + d == d);
        assert(a == b);
        assert(!text_before(a, b));
    } else {
        let a1 = a.drop_first();
        let b1 = b.drop_first();
        assert((a + c).first() == a.first());
        assert((b + d).first() == b.first());
        assert((a + c).drop_first() == a1 + c);
        assert((b + d).drop_first() == b1 + d);
        lemma_before_concat(a1, b1, c, d);
        if a.first() == b.first() {
            assert(a == seq![a.first()] + a1);
            assert(b == seq![b.first()] + b1);
            assert(a == b <==> a1 == b1);
        } else {
            assert(a != b);
        }
    }
}

/// Two decimal digits of a number below 100.
spec fn pair(n: nat) -> Seq<char> {
    seq![digit_char((n / 10) as int), digit_char((n % 10) as int)]
}

proof fn lemma_pair_order(m: nat, n: nat, c: Seq<char>, f: Seq<char>)
    requires
        m < 100,
        n < 100,
    ensures
        text_before(pair(m) + c, pair(n) + f) <==> m < n || (m == n && text_before(c, f)),
        pair(m) == pair(n) <==> m == n,
{
    let (p0, p1) = (digit_char((m / 10) as int), digit_char((m % 10) as int));
    let (q0, q1) = (digit_char((n / 10) as int), digit_char((n % 10) as int));
    lemma_digits_order((m / 10) as int, (n / 10) as int, seq![p1] + c, seq![q1] + f);
    lemma_digits_order((m % 10) as int, (n % 10) as int, c, f);
    assert(pair(m) + c == seq![p0] + (seq![p1] + c));
    assert(pair(n) + f == seq![q0] + (seq![q1] + f));
    if pair(m) == pair(n) {
        assert(pair(m)[0] == pair(n)[0] && pair(m)[1] == pair(n)[1]);
    }
}

/// Fields of the same width are ordered as their numbers.
pub proof fn lemma_padded_order(m: nat, n: nat, width: nat)
    requires
        (width == 2 && m < 100 && n < 100) || (width == 4 && m < 10000 && n < 10000),
    ensures
        text_before(padded(m, width), padded(n, width)) <==> m < n,
        padded(m, width) == padded(n, width) <==> m == n,
{
    lemma_padded_field(m, width);
    lemma_padded_field(n, width);
    let none = Seq::<char>::empty();
    if width == 2 {
        lemma_pair_order(m, n, none, none);
        assert(pair(m) + none == padded(m, width));
        assert(pair(n) + none == padded(n, width));
        assert(pair(m) == padded(m, width));
        assert(pair(n) == padded(n, width));
    } else {
        lemma_four_digits(m);
        lemma_four_digits(n);
        lemma_pair_order(m / 100, n / 100, pair(m % 100), pair(n % 100));
        lemma_pair_order(m % 100, n % 100, none, none);
        assert(pair(m % 100) + none == pair(m % 100));
        assert(pair(n % 100) + none == pair(n % 100));
        if padded(m, 4) == padded(n, 4) {
            assert((pair(m / 100) + pair(m % 100)).take(2) == pair(m / 100));
            assert((pair(n / 100) + pair(n % 100)).take(2) == pair(n / 100));
            assert((pair(m / 100) + pair(m % 100)).skip(2) == pair(m % 100));
            assert((pair(n / 100) + pair(n % 100)).skip(2) == pair(n % 100));
        }
    }
}

proof fn lemma_four_digits(n: nat)
    requires
        n < 10000,
    ensures
        padded(n, 4) == pair(n / 100) + pair(n % 100),
{
    lemma_padded_field(n, 4);
    assert((n / 100) / 10 == n / 1000);
    assert((n % 100) / 10 == (n / 10) % 10);
    assert((n % 100) % 10 == n % 10);
}

proof fn lemma_digits_order(d: int, e: int, c: Seq<char>, f: Seq<char>)
    requires
        0 <= d < 10,
        0 <= e < 10,
    ensures
        text_before(seq![digit_char(d)] + c, seq![digit_char(e)] + f) <==> d < e || (d == e
            && text_before(c, f)),
        digit_char(d) == digit_char(e) <==> d == e,
{
    let a = seq![digit_char(d)];
    let b = seq![digit_char(e)];
    lemma_before_concat(a, b, c, f);
    assert(a.drop_first().len() == 0);
    assert(b.drop_first().len() == 0);
    assert(a.first() == digit_char(d));
    assert(b.first() == digit_char(e));
    assert(!text_before(a.drop_first(), b.drop_first()));
    assert(a == b <==> digit_char(d) == digit_char(e)) by {
        if a == b {
            assert(a[0] == b[0]);
        }
    }
}

// ---------------------------------------------------------------------------
// Laws of notation
// ---------------------------------------------------------------------------
/// The number that a digit stands for, decimal or hexadecimal in lower case.
pub open spec fn digit_value(c: char) -> int {
    if c <= '9' {
        c as int - 48
    } else {
        c as int - 87
    }
}

/// The number that a text of digits stands for.
pub open spec fn number_of(s: Seq<char>, base: int) -> int
    decreases s.len(),
{
    if s.len() == 0 {
        0
    } else {
        base * number_of(s.drop_last(), base) + digit_value(s.last())
    }
}

/// Decimal notation reads back as its number, has decimal digits only, and no
/// leading zero but in zero itself.
pub proof fn law_decimal_reads_back(n: nat)
    ensures
        number_of(decimal(n), 10) == n,
        decimal(n).len() > 0,
        forall|i: int| 0 <= i < decimal(n).len() ==> '0' <= #[trigger] decimal(n)[i] <= '9',
        n > 0 ==> decimal(n)[0] != '0',
    decreases n,
{
    let s = decimal(n);
    if n < 10 {
        assert(s.drop_last().len() == 0);
        assert(number_of(s.drop_last(), 10) == 0);
        assert(s.last() == digit_char(n as int));
    } else {
        law_decimal_reads_back(n / 10);
        assert(s.drop_last() == decimal(n / 10));
        assert(s.last() == digit_char((n % 10) as int));
        assert forall|i: int| 0 <= i < s.len() implies '0' <= #[trigger] s[i] <= '9' by {
            if i < s.len() - 1 {
                assert(s[i] == decimal(n / 10)[i]);
            }
        }
        assert(s[0] == decimal(n / 10)[0]);
    }
}

/// A padded number is its decimal notation behind zeros, as many as the width
/// lacks and no more.
pub proof fn law_padding(n: nat, width: nat, i: int)
    ensures
        padded(n, width).len() == if decimal(n).len() < width {
            width
        } else {
            decimal(n).len()
        },
        padded(n, width).skip(padded(n, width).len() - decimal(n).len()) == decimal(n),
        0 <= i < padded(n, width).len() - decimal(n).len() ==> padded(n, width)[i] == '0',
{
    let p = padded(n, width);
    assert(p.skip(p.len() - decimal(n).len()) == decimal(n));
}

/// Four hexadecimal digits in lower case read back as their number.
pub proof fn law_hexadecimal_reads_back(n: u16, i: int)
    ensures
        hex4_lower(n).len() == 4,
        number_of(hex4_lower(n), 16) == n,
        0 <= i < 4 ==> '0' <= hex4_lower(n)[i] <= '9' || 'a' <= hex4_lower(n)[i] <= 'f',
{
    let s = hex4_lower(n);
    let a = n as int / 4096;
    let b = (n as int / 256) % 16;
    let c = (n as int / 16) % 16;
    let d = n as int % 16;
    assert(digit_value(s[0]) == a && digit_value(s[1]) == b && digit_value(s[2]) == c
        && digit_value(s[3]) == d);
    let s3 = s.drop_last();
    let s2 = s3.drop_last();
    let s1 = s2.drop_last();
    assert(s1.drop_last().len() == 0);
    assert(number_of(s1.drop_last(), 16) == 0);
    assert(number_of(s1, 16) == a);
    assert(number_of(s2, 16) == 16 * a + b);
    assert(number_of(s3, 16) == 16 * (16 * a + b) + c);
    assert(n == 4096 * a + 256 * b + 16 * c + d);
}

/// Trimming cuts white space off both ends and nothing else: the rest is a part of
/// the text, everything around it is white space, and it neither starts nor ends
/// with white space.
pub proof fn law_trimming(s: Seq<char>)
    ensures
        exists|i: int, j: int|
            0 <= i <= j <= s.len() && trim(s) == #[trigger] s.subrange(i, j) && (forall|k: int|
                0 <= k < i || j <= k < s.len() ==> is_white(#[trigger] s[k])),
        trim(s).len() > 0 ==> !is_white(trim(s)[0]) && !is_white(trim(s).last()),
{
    lemma_trim_start(s);
    let t = trim_start(s);
    let i = s.len() - t.len();
    lemma_trim_end(t);
    let j = i + trim_end(t).len();
    assert(trim(s) == s.subrange(i, j));
    assert forall|k: int| 0 <= k < i || j <= k < s.len() implies is_white(#[trigger] s[k]) by {
        if j <= k {
            assert(s[k] == t[k - i]);
        }
    }
    if trim(s).len() > 0 {
        assert(trim(s)[0] == t[0]);
    }
}

proof fn lemma_trim_start(s: Seq<char>)
    ensures
        trim_start(s).len() <= s.len(),
        trim_start(s) == s.skip(s.len() - trim_start(s).len()),
        forall|k: int| 0 <= k < s.len() - trim_start(s).len() ==> is_white(#[trigger] s[k]),
        trim_start(s).len() > 0 ==> !is_white(trim_start(s)[0]),
    decreases s.len(),
{
    if s.len() > 0 && is_white(s.first()) {
        let rest = s.drop_first();
        lemma_trim_start(rest);
        let t = trim_start(s);
        assert(t == s.skip(s.len() - t.len()));
        assert forall|k: int| 0 <= k < s.len() - t.len() implies is_white(#[trigger] s[k]) by {
            if k > 0 {
                assert(s[k] == rest[k - 1]);
            }
        }
    } else {
        assert(s.skip(0) == s);
    }
}

proof fn lemma_trim_end(s: Seq<char>)
    ensures
        trim_end(s).len() <= s.len(),
        trim_end(s) == s.take(trim_end(s).len() as int),
        forall|k: int| trim_end(s).len() <= k < s.len() ==> is_white(#[trigger] s[k]),
        trim_end(s).len() > 0 ==> !is_white(trim_end(s).last()),
    decreases s.len(),
{
    if s.len() > 0 && is_white(s.last()) {
        let rest = s.drop_last();
        lemma_trim_end(rest);
        let t = trim_end(s);
        assert(t == s.take(t.len() as int));
        assert forall|k: int| t.len() <= k < s.len() implies is_white(#[trigger] s[k]) by {
            if k < s.len() - 1 {
                assert(s[k] == rest[k]);
            }
        }
    } else {
        assert(s.take(s.len() as int) == s);
    }
}

/// Which characters are white space, by their code points.
pub proof fn law_white_space(c: char)
    ensures
        is_white(c) <==> {
            let u = c as int;
            ||| 9 <= u <= 13
            ||| u == 32
            ||| u == 0x85
            ||| u == 0xA0
            ||| u == 0x1680
            ||| 0x2000 <= u <= 0x200A
            ||| u == 0x2028
            ||| u == 0x2029
            ||| u == 0x202F
            ||| u == 0x205F
            ||| u == 0x3000
        },
{
}

/// The first difference of two texts decides their order, and a text comes before
/// what it is continued to.
pub proof fn law_order_of_texts(p: Seq<char>, x: char, a: Seq<char>, y: char, b: Seq<char>)
    ensures
        x != y ==> (text_before(p + (seq![x] + a), p + (seq![y] + b)) <==> x < y),
        text_before(p, p + (seq![x] + a)),
        !text_before(p + (seq![x] + a), p),
{
    let none = Seq::<char>::empty();
    lemma_before_irreflexive(p);
    lemma_before_concat(p, p, seq![x] + a, seq![y] + b);
    lemma_before_concat(p, p, none, seq![x] + a);
    lemma_before_concat(p, p, seq![x] + a, none);
    assert(p + none == p);
    assert((seq![x] + a).first() == x);
    assert((seq![y] + b).first() == y);
}

/// The UTF-16 code units of a text.
pub open spec fn utf16_of(s: Seq<char>) -> Seq<u16>
    decreases s.len(),
{
    if s.len() == 0 {
        Seq::empty()
    } else {
        let u = s.first() as int;
        let units = if u < 0x1_0000 {
            seq![u as u16]
        } else {
            seq![
                (0xD800 + (u - 0x1_0000) / 0x400) as u16,
                (0xDC00 + (u - 0x1_0000) % 0x400) as u16,
            ]
        };
        units + utf16_of(s.drop_first())
    }
}

proof fn lemma_char_range(c: char)
    ensures
        ({
            let u = c as int;
            &&& (0 <= u && u < 0xD800) || (0xE000 <= u && u <= 0x10_FFFF)
            &&& u <= 0xFFFF ==> (u as u16) as char == c
        }),
{
}

/// Every text is read back from its UTF-16 code units.
pub proof fn law_utf16_reads_back(s: Seq<char>)
    ensures
        utf16_lossy(utf16_of(s)) == s,
    decreases s.len(),
{
    if s.len() > 0 {
        let u = s.first() as int;
        let rest = s.drop_first();
        let units = utf16_of(s);
        law_utf16_reads_back(rest);
        lemma_char_range(s.first());
        if u < 0x1_0000 {
            assert(units.skip(1) == utf16_of(rest));
            assert(units[0] == u);
            assert(units[0] as char == s.first());
        } else {
            assert(units.skip(2) == utf16_of(rest));
            let high = units[0];
            let low = units[1];
            assert(high == 0xD800 + (u - 0x1_0000) / 0x400);
            assert(low == 0xDC00 + (u - 0x1_0000) % 0x400);
            assert((high - 0xD800) * 0x400 + (low - 0xDC00) == u - 0x1_0000);
            assert(pair_char(high, low) == s.first());
        }
        assert(seq![s.first()] + rest == s);
    } else {
        assert(utf16_of(s).len() == 0);
    }
}

/// A surrogate without its other half becomes U+FFFD and takes nothing else with
/// it.
pub proof fn law_lone_surrogates(units: Seq<u16>)
    requires
        units.len() > 0,
        0xD800 <= units[0] <= 0xDFFF,
        units[0] >= 0xDC00 || units.len() == 1 || units[1] < 0xDC00 || units[1] > 0xDFFF,
    ensures
        utf16_lossy(units) == seq!['\u{fffd}'] + utf16_lossy(units.skip(1)),
{
}

} // verus!
