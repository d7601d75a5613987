//! Names of WAV files.
use vstd::prelude::*;
use vstd::string::*;

use crate::text::{joined, push_decimal, push_padded};
use crate::winpath::join_path;

verus! {

/// A local date and time.
#[derive(Debug, Clone, Copy, PartialEq, Eq, Structural)]
pub struct LocalTime {
    pub year: u16,
    pub month: u16,
    pub day: u16,
    pub hour: u16,
    pub minute: u16,
    pub second: u16,
}

/// How the numbers of a series are written.
#[derive(Debug, Clone, Copy, PartialEq, Eq, Structural)]
pub enum SequenceType {
    /// 1, 2, 3
    Numeric,
    /// a, b, c
    AlphabeticLower,
    /// A, B, C
    AlphabeticUpper,
}

/// How a file name is found.
#[derive(Debug, PartialEq, Eq)]
pub enum NamingMode {
    /// Source and time.
    Timestamped,
    /// Always the same name.
    Fixed(String),
    /// A prefix and the next number of a series.
    AutoIncrement { prefix: String, sequence: SequenceType },
}

// ---------------------------------------------------------------------------
// Time stamps
// ---------------------------------------------------------------------------
/// `YYYYMMDD-HHMMSS`
pub open spec fn stamp(t: LocalTime) -> Seq<char> {
    crate::text::padded(t.year as nat, 4) + crate::text::padded(t.month as nat, 2)
        + crate::text::padded(t.day as nat, 2) + "-"@ + crate::text::padded(t.hour as nat, 2)
        + crate::text::padded(t.minute as nat, 2) + crate::text::padded(t.second as nat, 2)
}

/// `<prefix>-YYYYMMDD-HHMMSS.wav`
pub open spec fn stamped_name(prefix: Seq<char>, t: LocalTime) -> Seq<char> {
    prefix + "-"@ + stamp(t) + ".wav"@
}

/// The default name of a recording: `<prefix>-YYYYMMDD-HHMMSS.wav`.
pub fn default_output_path(prefix: &str, t: &LocalTime) -> (s: String)
    ensures
        s@ == stamped_name(prefix@, *t),
{
    let mut s = joined(prefix, "-");
    push_padded(&mut s, t.year as u64, 4);
    push_padded(&mut s, t.month as u64, 2);
    push_padded(&mut s, t.day as u64, 2);
    s.append("-");
    push_padded(&mut s, t.hour as u64, 2);
    push_padded(&mut s, t.minute as u64, 2);
    push_padded(&mut s, t.second as u64, 2);
    s.append(".wav");
    assert(s@ == stamped_name(prefix@, *t));
    s
}

/// Whether every field fits its place in a stamp, as those of every real date
/// and time up to the year 9999 do.
pub open spec fn on_the_clock(t: LocalTime) -> bool {
    t.year < 10000 && t.month < 100 && t.day < 100 && t.hour < 100 && t.minute < 100 && t.second
        < 100
}

/// A stamp has fifteen characters, each field at its place.
proof fn lemma_stamp_fields(t: LocalTime)
    requires
        on_the_clock(t),
    ensures
        stamp(t).len() == 15,
        stamp(t).subrange(0, 4) == crate::text::padded(t.year as nat, 4),
        stamp(t).subrange(4, 6) == crate::text::padded(t.month as nat, 2),
        stamp(t).subrange(6, 8) == crate::text::padded(t.day as nat, 2),
        stamp(t).subrange(9, 11) == crate::text::padded(t.hour as nat, 2),
        stamp(t).subrange(11, 13) == crate::text::padded(t.minute as nat, 2),
        stamp(t).subrange(13, 15) == crate::text::padded(t.second as nat, 2),
{
    reveal_strlit("-");
    crate::text::lemma_padded_field(t.year as nat, 4);
    crate::text::lemma_padded_field(t.month as nat, 2);
    crate::text::lemma_padded_field(t.day as nat, 2);
    crate::text::lemma_padded_field(t.hour as nat, 2);
    crate::text::lemma_padded_field(t.minute as nat, 2);
    crate::text::lemma_padded_field(t.second as nat, 2);
    let s = stamp(t);
    assert(s.subrange(0, 4) == crate::text::padded(t.year as nat, 4));
    assert(s.subrange(4, 6) == crate::text::padded(t.month as nat, 2));
    assert(s.subrange(6, 8) == crate::text::padded(t.day as nat, 2));
    assert(s.subrange(9, 11) == crate::text::padded(t.hour as nat, 2));
    assert(s.subrange(11, 13) == crate::text::padded(t.minute as nat, 2));
    assert(s.subrange(13, 15) == crate::text::padded(t.second as nat, 2));
}

/// A field gives its number back.
proof fn lemma_field_injective(a: nat, b: nat, width: nat)
    requires
        (width == 2 && a < 100 && b < 100) || (width == 4 && a < 10000 && b < 10000),
        crate::text::padded(a, width) == crate::text::padded(b, width),
    ensures
        a == b,
{
    crate::text::lemma_padded_field(a, width);
    crate::text::lemma_padded_field(b, width);
    let p = crate::text::padded(a, width);
    let q = crate::text::padded(b, width);
    assert(p[0] == q[0] && p[1] == q[1]);
    if width == 4 {
        assert(p[2] == q[2] && p[3] == q[3]);
        assert(a / 1000 == b / 1000);
        assert((a / 100) % 10 == (b / 100) % 10);
        assert((a / 10) % 10 == (b / 10) % 10);
    }
}

/// Recordings of one source that start in different seconds have different
/// default names.
pub proof fn law_stamped_names_differ(prefix: Seq<char>, t: LocalTime, u: LocalTime)
    requires
        on_the_clock(t),
        on_the_clock(u),
        t != u,
    ensures
        stamped_name(prefix, t) != stamped_name(prefix, u),
{
    if stamped_name(prefix, t) == stamped_name(prefix, u) {
        reveal_strlit("-");
        reveal_strlit(".wav");
        lemma_stamp_fields(t);
        lemma_stamp_fields(u);
        let from: int = prefix.len() + 1int;
        assert(stamped_name(prefix, t).subrange(from, from + 15) == stamp(t));
        assert(stamped_name(prefix, u).subrange(from, from + 15) == stamp(u));
        lemma_field_injective(t.year as nat, u.year as nat, 4);
        lemma_field_injective(t.month as nat, u.month as nat, 2);
        lemma_field_injective(t.day as nat, u.day as nat, 2);
        lemma_field_injective(t.hour as nat, u.hour as nat, 2);
        lemma_field_injective(t.minute as nat, u.minute as nat, 2);
        lemma_field_injective(t.second as nat, u.second as nat, 2);
    }
}

/// Whether `t` is earlier than `u`.
pub open spec fn earlier(t: LocalTime, u: LocalTime) -> bool {
    ||| t.year < u.year
    ||| t.year == u.year && t.month < u.month
    ||| t.year == u.year && t.month == u.month && t.day < u.day
    ||| same_day(t, u) && t.hour < u.hour
    ||| same_day(t, u) && t.hour == u.hour && t.minute < u.minute
    ||| same_day(t, u) && t.hour == u.hour && t.minute == u.minute && t.second < u.second
}

/// Whether `t` and `u` are on the same day.
pub open spec fn same_day(t: LocalTime, u: LocalTime) -> bool {
    t.year == u.year && t.month == u.month && t.day == u.day
}

/// Stamps sort as the times do.
proof fn lemma_stamp_order(t: LocalTime, u: LocalTime)
    requires
        on_the_clock(t),
        on_the_clock(u),
    ensures
        crate::text::text_before(stamp(t), stamp(u)) <==> earlier(t, u),
{
    reveal_strlit("-");
    lemma_stamp_fields(t);
    lemma_stamp_fields(u);
    let dash = "-"@;
    let (y1, y2) = (crate::text::padded(t.year as nat, 4), crate::text::padded(u.year as nat, 4));
    let (o1, o2) = (crate::text::padded(t.month as nat, 2), crate::text::padded(u.month as nat, 2));
    let (d1, d2) = (crate::text::padded(t.day as nat, 2), crate::text::padded(u.day as nat, 2));
    let (h1, h2) = (crate::text::padded(t.hour as nat, 2), crate::text::padded(u.hour as nat, 2));
    let (m1, m2) = (
        crate::text::padded(t.minute as nat, 2),
        crate::text::padded(u.minute as nat, 2),
    );
    let (s1, s2) = (
        crate::text::padded(t.second as nat, 2),
        crate::text::padded(u.second as nat, 2),
    );
    crate::text::lemma_padded_field(t.year as nat, 4);
    crate::text::lemma_padded_field(u.year as nat, 4);
    crate::text::lemma_padded_field(t.month as nat, 2);
    crate::text::lemma_padded_field(u.month as nat, 2);
    crate::text::lemma_padded_field(t.day as nat, 2);
    crate::text::lemma_padded_field(u.day as nat, 2);
    crate::text::lemma_padded_field(t.hour as nat, 2);
    crate::text::lemma_padded_field(u.hour as nat, 2);
    crate::text::lemma_padded_field(t.minute as nat, 2);
    crate::text::lemma_padded_field(u.minute as nat, 2);
    crate::text::lemma_padded_order(t.year as nat, u.year as nat, 4);
    crate::text::lemma_padded_order(t.month as nat, u.month as nat, 2);
    crate::text::lemma_padded_order(t.day as nat, u.day as nat, 2);
    crate::text::lemma_padded_order(t.hour as nat, u.hour as nat, 2);
    crate::text::lemma_padded_order(t.minute as nat, u.minute as nat, 2);
    crate::text::lemma_padded_order(t.second as nat, u.second as nat, 2);
    crate::text::lemma_before_irreflexive(dash);
    let (a1, a2) = (m1 + s1, m2 + s2);
    let (b1, b2) = (h1 + a1, h2 + a2);
    let (c1, c2) = (dash + b1, dash + b2);
    let (e1, e2) = (d1 + c1, d2 + c2);
    let (f1, f2) = (o1 + e1, o2 + e2);
    crate::text::lemma_before_concat(m1, m2, s1, s2);
    crate::text::lemma_before_concat(h1, h2, a1, a2);
    crate::text::lemma_before_concat(dash, dash, b1, b2);
    crate::text::lemma_before_concat(d1, d2, c1, c2);
    crate::text::lemma_before_concat(o1, o2, e1, e2);
    crate::text::lemma_before_concat(y1, y2, f1, f2);
    assert(stamp(t) == y1 + f1);
    assert(stamp(u) == y2 + f2);
}

/// The default names of one prefix sort as the times do. They differ exactly
/// where the seconds differ, are twenty characters longer than the prefix, and
/// name no directory that the prefix does not name.
pub proof fn law_stamped_names_sort(prefix: Seq<char>, t: LocalTime, u: LocalTime)
    requires
        on_the_clock(t),
        on_the_clock(u),
    ensures
        crate::text::text_before(stamped_name(prefix, t), stamped_name(prefix, u)) <==> earlier(
            t,
            u,
        ),
        stamped_name(prefix, t) == stamped_name(prefix, u) <==> t == u,
        stamped_name(prefix, t).len() == prefix.len() + 20,
        stamped_name(prefix, t).take(prefix.len() as int) == prefix,
        crate::winpath::is_plain(stamped_name(prefix, t).skip(prefix.len() as int)),
{
    reveal_strlit("-");
    reveal_strlit(".wav");
    lemma_stamp_fields(t);
    lemma_stamp_fields(u);
    if t != u {
        law_stamped_names_differ(prefix, t, u);
    }
    let dash = "-"@;
    let wav = ".wav"@;
    let (a, b) = (stamp(t), stamp(u));
    lemma_stamp_order(t, u);
    crate::text::lemma_before_irreflexive(prefix);
    crate::text::lemma_before_irreflexive(dash);
    crate::text::lemma_before_irreflexive(wav);
    crate::text::lemma_before_concat(a, b, wav, wav);
    crate::text::lemma_before_concat(dash, dash, a + wav, b + wav);
    crate::text::lemma_before_concat(prefix, prefix, dash + (a + wav), dash + (b + wav));
    assert(stamped_name(prefix, t) == prefix + (dash + (a + wav)));
    assert(stamped_name(prefix, u) == prefix + (dash + (b + wav)));
    assert(stamped_name(prefix, t).take(prefix.len() as int) == prefix);
    let tail = stamped_name(prefix, t).skip(prefix.len() as int);
    assert(tail == dash + a + wav);
    lemma_stamp_plain(t);
    assert(crate::winpath::is_plain(dash));
    assert(crate::winpath::is_plain(wav));
    crate::winpath::lemma_plain_concat();
}

// ---------------------------------------------------------------------------
// Series
// ---------------------------------------------------------------------------
/// The `k`-th letter from `first`.
pub open spec fn letter_from(first: char, k: int) -> char {
    (first as int + k) as char
}

/// The `n`-th label of the series a, b, ..., z, aa, ab, ...
pub open spec fn letters(first: char, n: nat) -> Seq<char>
    decreases n,
{
    if n == 0 {
        Seq::empty()
    } else {
        letters(first, ((n - 1) / 26) as nat).push(letter_from(first, (n - 1) % 26))
    }
}

/// The `n`-th label of a series.
pub open spec fn label(sequence: SequenceType, n: nat) -> Seq<char> {
    match sequence {
        SequenceType::Numeric => crate::text::decimal(n),
        SequenceType::AlphabeticLower => letters('a', n),
        SequenceType::AlphabeticUpper => letters('A', n),
    }
}

fn nth_letter(k: u64) -> (c: char)
    requires
        k < 26,
    ensures
        c == letter_from('a', k as int),
{
    match k {
        0 => 'a',
        1 => 'b',
        2 => 'c',
        3 => 'd',
        4 => 'e',
        5 => 'f',
        6 => 'g',
        7 => 'h',
        8 => 'i',
        9 => 'j',
        10 => 'k',
        11 => 'l',
        12 => 'm',
        13 => 'n',
        14 => 'o',
        15 => 'p',
        16 => 'q',
        17 => 'r',
        18 => 's',
        19 => 't',
        20 => 'u',
        21 => 'v',
        22 => 'w',
        23 => 'x',
        24 => 'y',
        _ => 'z',
    }
}

fn nth_capital(k: u64) -> (c: char)
    requires
        k < 26,
    ensures
        c == letter_from('A', k as int),
{
    match k {
        0 => 'A',
        1 => 'B',
        2 => 'C',
        3 => 'D',
        4 => 'E',
        5 => 'F',
        6 => 'G',
        7 => 'H',
        8 => 'I',
        9 => 'J',
        10 => 'K',
        11 => 'L',
        12 => 'M',
        13 => 'N',
        14 => 'O',
        15 => 'P',
        16 => 'Q',
        17 => 'R',
        18 => 'S',
        19 => 'T',
        20 => 'U',
        21 => 'V',
        22 => 'W',
        23 => 'X',
        24 => 'Y',
        _ => 'Z',
    }
}

fn push_letters(out: &mut String, upper: bool, n: u64)
    ensures
        final(out)@ == old(out)@ + letters(
            if upper {
                'A'
            } else {
                'a'
            },
            n as nat,
        ),
    decreases n,
{
    if n > 0 {
        push_letters(out, upper, (n - 1) / 26);
        if upper {
            out.push(nth_capital((n - 1) % 26));
        } else {
            out.push(nth_letter((n - 1) % 26));
        }
    }
}

/// Appends the `n`-th label of a series.
pub fn push_label(out: &mut String, sequence: SequenceType, n: u64)
    ensures
        final(out)@ == old(out)@ + label(sequence, n as nat),
{
    match sequence {
        SequenceType::Numeric => push_decimal(out, n),
        SequenceType::AlphabeticLower => push_letters(out, false, n),
        SequenceType::AlphabeticUpper => push_letters(out, true, n),
    }
}

proof fn lemma_letters_injective(first: char, m: nat, n: nat)
    requires
        first == 'a' || first == 'A',
        letters(first, m) == letters(first, n),
    ensures
        m == n,
    decreases m,
{
    let a = letters(first, m);
    let b = letters(first, n);
    if m > 0 && n > 0 {
        assert(a.last() == letter_from(first, (m - 1) % 26));
        assert(b.last() == letter_from(first, (n - 1) % 26));
        assert(a.drop_last() == letters(first, ((m - 1) / 26) as nat));
        assert(b.drop_last() == letters(first, ((n - 1) / 26) as nat));
        lemma_letters_injective(first, ((m - 1) / 26) as nat, ((n - 1) / 26) as nat);
        assert((m - 1) % 26 == (n - 1) % 26);
        assert(m - 1 == 26 * ((m - 1) / 26) + (m - 1) % 26);
        assert(n - 1 == 26 * ((n - 1) / 26) + (n - 1) % 26);
    } else if m > 0 {
        assert(a.len() > 0);
    } else if n > 0 {
        assert(b.len() > 0);
    }
}

/// The labels of a series are all different.
pub proof fn law_labels_differ(sequence: SequenceType, m: nat, n: nat)
    requires
        m != n,
    ensures
        label(sequence, m) != label(sequence, n),
{
    if label(sequence, m) == label(sequence, n) {
        match sequence {
            SequenceType::Numeric => crate::text::lemma_decimal_injective(m, n),
            SequenceType::AlphabeticLower => lemma_letters_injective('a', m, n),
            SequenceType::AlphabeticUpper => lemma_letters_injective('A', m, n),
        }
    }
}

// ---------------------------------------------------------------------------
// File names
// ---------------------------------------------------------------------------
/// The name of the next file. `number` counts in a series, which starts at 1.
pub open spec fn file_name_for(
    source: Seq<char>,
    mode: NamingMode,
    number: Option<usize>,
    now: LocalTime,
) -> Seq<char> {
    match mode {
        NamingMode::Timestamped => stamped_name(source, now),
        NamingMode::Fixed(name) => name@ + ".wav"@,
        NamingMode::AutoIncrement { prefix, sequence } => prefix@ + label(
            sequence,
            match number {
                Some(n) => n as nat,
                None => 1,
            },
        ) + ".wav"@,
    }
}

/// The path of the next file in the directory `dir`.
pub fn generate_output_filename(
    source: &str,
    mode: &NamingMode,
    dir: &str,
    number: Option<usize>,
    now: &LocalTime,
) -> (path: String)
    ensures
        path@ == crate::winpath::join_of(dir@, file_name_for(source@, *mode, number, *now)),
{
    let name = match mode {
        NamingMode::Timestamped => default_output_path(source, now),
        NamingMode::Fixed(name) => joined(name.as_str(), ".wav"),
        NamingMode::AutoIncrement { prefix, sequence } => {
            let n: u64 = match number {
                Some(n) => n as u64,
                None => 1,
            };
            let mut s = prefix.clone();
            push_label(&mut s, *sequence, n);
            s.append(".wav");
            s
        },
    };
    join_path(dir, name.as_str())
}

proof fn lemma_decimal_plain(n: nat)
    ensures
        crate::winpath::is_plain(crate::text::decimal(n)),
    decreases n,
{
    if n >= 10 {
        lemma_decimal_plain(n / 10);
    }
}

proof fn lemma_padded_plain(n: nat, width: nat)
    ensures
        crate::winpath::is_plain(crate::text::padded(n, width)),
{
    lemma_decimal_plain(n);
}

proof fn lemma_stamp_plain(t: LocalTime)
    ensures
        crate::winpath::is_plain(stamp(t)),
{
    reveal_strlit("-");
    lemma_padded_plain(t.year as nat, 4);
    lemma_padded_plain(t.month as nat, 2);
    lemma_padded_plain(t.day as nat, 2);
    lemma_padded_plain(t.hour as nat, 2);
    lemma_padded_plain(t.minute as nat, 2);
    lemma_padded_plain(t.second as nat, 2);
    assert(crate::winpath::is_plain("-"@));
    crate::winpath::lemma_plain_concat();
}

/// A stamped name holds nothing that a path could be split at, unless its
/// prefix does.
pub proof fn lemma_stamped_name_plain(prefix: Seq<char>, t: LocalTime)
    requires
        crate::winpath::is_plain(prefix),
    ensures
        crate::winpath::is_plain(stamped_name(prefix, t)),
        stamped_name(prefix, t).last() == 'v',
{
    reveal_strlit("-");
    reveal_strlit(".wav");
    lemma_stamp_plain(t);
    assert(crate::winpath::is_plain("-"@));
    assert(crate::winpath::is_plain(".wav"@));
    crate::winpath::lemma_plain_concat();
}

proof fn lemma_letters_plain(first: char, n: nat)
    requires
        first == 'a' || first == 'A',
    ensures
        n > 0 ==> crate::winpath::is_plain(letters(first, n)),
    decreases n,
{
    if n > 0 {
        let before = letters(first, ((n - 1) / 26) as nat);
        let c = letter_from(first, (n - 1) % 26);
        lemma_letters_plain(first, ((n - 1) / 26) as nat);
        assert(!crate::winpath::is_sep(c) && c != ':' && c != '?');
        assert(letters(first, n) == before.push(c));
        assert forall|i: int| 0 <= i < letters(first, n).len() implies !crate::winpath::is_sep(
            #[trigger] letters(first, n)[i],
        ) && letters(first, n)[i] != ':' && letters(first, n)[i] != '?' by {
            if i < before.len() {
                assert(letters(first, n)[i] == before[i]);
            }
        }
    }
}

/// Two recordings of a series never share a file: different numbers give
/// different paths, whatever the directory and the prefix.
pub proof fn law_series_paths_differ(
    dir: Seq<char>,
    source: Seq<char>,
    mode: NamingMode,
    m: usize,
    n: usize,
    t: LocalTime,
    u: LocalTime,
)
    requires
        mode is AutoIncrement,
        m != n,
        m > 0,
        n > 0,
    ensures
        crate::winpath::join_of(dir, file_name_for(source, mode, Some(m), t))
            != crate::winpath::join_of(dir, file_name_for(source, mode, Some(n), u)),
{
    let prefix = mode->prefix@;
    let sequence = mode->sequence;
    let a = label(sequence, m as nat);
    let b = label(sequence, n as nat);
    lemma_decimal_plain(m as nat);
    lemma_decimal_plain(n as nat);
    lemma_letters_plain('a', m as nat);
    lemma_letters_plain('a', n as nat);
    lemma_letters_plain('A', m as nat);
    lemma_letters_plain('A', n as nat);
    law_labels_differ(sequence, m as nat, n as nat);
    reveal_strlit(".wav");
    let wav = ".wav"@;
    let x = a + wav;
    let y = b + wav;
    assert(crate::winpath::is_plain(x));
    assert(crate::winpath::is_plain(y));
    assert(x != y) by {
        if x == y {
            assert(x.take(x.len() - 4) == a);
            assert(y.take(y.len() - 4) == b);
        }
    }
    crate::winpath::lemma_join_injective(dir, prefix, x, y);
    assert(prefix + a + wav == prefix + x);
    assert(prefix + b + wav == prefix + y);
}

// ---------------------------------------------------------------------------
// Laws of names
// ---------------------------------------------------------------------------
/// A default name: the prefix, the date as year, month and day, the time as hour,
/// minute and second, each with its full width, and the ending.
pub proof fn law_fields_of_a_name(prefix: Seq<char>, t: LocalTime)
    ensures
        stamped_name(prefix, t) == prefix + "-"@ + (crate::text::padded(t.year as nat, 4)
            + crate::text::padded(t.month as nat, 2) + crate::text::padded(t.day as nat, 2) + "-"@
            + crate::text::padded(t.hour as nat, 2) + crate::text::padded(t.minute as nat, 2)
            + crate::text::padded(t.second as nat, 2)) + ".wav"@,
{
}

/// The number of a label of letters: the place of its last letter, and 26 times
/// the number of the letters before it.
pub open spec fn number_of_letters(first: char, s: Seq<char>) -> int
    decreases s.len(),
{
    if s.len() == 0 {
        0
    } else {
        26 * number_of_letters(first, s.drop_last()) + (s.last() as int - first as int + 1)
    }
}

/// A label reads back as its number: in decimal notation, or in letters from `a`
/// to `z`, or from `A` to `Z`.
pub proof fn law_labels_read_back(n: nat)
    ensures
        crate::text::number_of(label(SequenceType::Numeric, n), 10) == n,
        number_of_letters('a', label(SequenceType::AlphabeticLower, n)) == n,
        number_of_letters('A', label(SequenceType::AlphabeticUpper, n)) == n,
        forall|i: int|
            0 <= i < label(SequenceType::AlphabeticLower, n).len() ==> 'a' <= #[trigger] label(
                SequenceType::AlphabeticLower,
                n,
            )[i] <= 'z',
        forall|i: int|
            0 <= i < label(SequenceType::AlphabeticUpper, n).len() ==> 'A' <= #[trigger] label(
                SequenceType::AlphabeticUpper,
                n,
            )[i] <= 'Z',
{
    crate::text::law_decimal_reads_back(n);
    lemma_letters_read_back('a', n);
    lemma_letters_read_back('A', n);
}

proof fn lemma_letters_read_back(first: char, n: nat)
    requires
        first == 'a' || first == 'A',
    ensures
        number_of_letters(first, letters(first, n)) == n,
        forall|i: int|
            0 <= i < letters(first, n).len() ==> first as int <= #[trigger] letters(
                first,
                n,
            )[i] as int <= first as int + 25,
    decreases n,
{
    if n > 0 {
        let m = ((n - 1) / 26) as nat;
        let s = letters(first, n);
        lemma_letters_read_back(first, m);
        assert(s.drop_last() == letters(first, m));
        assert(s.last() as int == first as int + (n - 1) % 26);
        assert(n - 1 == 26 * ((n - 1) / 26) + (n - 1) % 26);
        assert forall|i: int| 0 <= i < s.len() implies first as int <= #[trigger] s[i] as int
            <= first as int + 25 by {
            if i < s.len() - 1 {
                assert(s[i] == letters(first, m)[i]);
            }
        }
    }
}

/// The name of a file by its mode: source and time, always the same, or the prefix
/// of the series and the label of the number, which is 1 where none is given.
pub proof fn law_file_names(
    source: Seq<char>,
    mode: NamingMode,
    number: Option<usize>,
    now: LocalTime,
)
    ensures
        ({
            let name = file_name_for(source, mode, number, now);
            &&& mode is Timestamped ==> name == source + "-"@ + stamp(now) + ".wav"@
            &&& mode matches NamingMode::Fixed(fixed) ==> name == fixed@ + ".wav"@
            &&& mode matches NamingMode::AutoIncrement { prefix, sequence } ==> {
                &&& number is Some ==> name == prefix@ + label(sequence, number->0 as nat)
                    + ".wav"@
                &&& number is None ==> name == prefix@ + label(sequence, 1) + ".wav"@
            }
        }),
{
}

/// A name depends only on what its mode is about: a fixed name on nothing, a name
/// of a series on the number, a stamped name on source and time.
pub proof fn law_names_are_independent(
    mode: NamingMode,
    source: Seq<char>,
    number: Option<usize>,
    now: LocalTime,
    other_source: Seq<char>,
    other_number: Option<usize>,
    other: LocalTime,
)
    ensures
        mode is Fixed ==> file_name_for(source, mode, number, now) == file_name_for(
            other_source,
            mode,
            other_number,
            other,
        ),
        mode is AutoIncrement ==> file_name_for(source, mode, number, now) == file_name_for(
            other_source,
            mode,
            number,
            other,
        ),
        mode is Timestamped ==> file_name_for(source, mode, number, now) == file_name_for(
            source,
            mode,
            other_number,
            now,
        ),
{
}

/// The order of two times, by seconds of a calendar whose fields are all below a
/// hundred.
pub proof fn law_earlier_times(t: LocalTime, u: LocalTime)
    requires
        on_the_clock(t),
        on_the_clock(u),
    ensures
        earlier(t, u) <==> ((((t.year * 100 + t.month) * 100 + t.day) * 100 + t.hour) * 100
            + t.minute) * 100 + t.second < ((((u.year * 100 + u.month) * 100 + u.day) * 100
            + u.hour) * 100 + u.minute) * 100 + u.second,
        t.year <= 9999 && t.month <= 12 && t.day <= 31 && t.hour <= 23 && t.minute <= 59
            && t.second <= 59 ==> on_the_clock(t),
{
}

} // verus!
