//! Text encodings shared by the rest of the crate: UTF-16 code units and
//! decimal numerals.

use vstd::prelude::*;

verus! {

/// The UTF-16 code units of one character: itself below U+10000, a
/// surrogate pair from there on.
pub open spec fn utf16_units(c: char) -> Seq<u16> {
    let n = c as u32;
    if n < 0x10000 {
        seq![n as u16]
    } else {
        seq![
            (0xD800 + (n - 0x10000) / 0x400) as u16,
            (0xDC00 + (n - 0x10000) % 0x400) as u16,
        ]
    }
}

/// The UTF-16 encoding of a string.
pub open spec fn utf16(s: Seq<char>) -> Seq<u16>
    decreases s.len(),
{
    if s.len() == 0 {
        Seq::empty()
    } else {
        utf16(s.drop_last()) + utf16_units(s.last())
    }
}

/// Encodes a string as UTF-16.
pub fn encode_utf16(s: &str) -> (out: Vec<u16>)
    ensures
        out@ == utf16(s@),
{
    let mut out: Vec<u16> = Vec::new();
    for c in it: s.chars()
        invariant
            it.seq() == s@,
            out@ == utf16(s@.take(it.index())),
    {
        let n: u32 = c as u32;
        proof {
            let k = it.index();
            assert(s@.take(k + 1).drop_last() == s@.take(k));
            assert(s@.take(k + 1).last() == c);
        }
        if n < 0x10000 {
            out.push(n as u16);
        } else {
            let rest: u32 = n - 0x10000;
            out.push((0xD800 + rest / 0x400) as u16);
            out.push((0xDC00 + rest % 0x400) as u16);
        }
    }
    proof {
        assert(s@.take(s@.len() as int) == s@);
    }
    out
}

/// The encoding of two strings in a row is the encoding of the first
/// followed by that of the second.
pub proof fn utf16_of_concatenation(a: Seq<char>, b: Seq<char>)
    ensures
        utf16(a + b) == utf16(a) + utf16(b),
    decreases b.len(),
{
    if b.len() == 0 {
        assert(a + b =~= a);
        assert(utf16(a) + utf16(b) =~= utf16(a));
    } else {
        assert((a + b).drop_last() =~= a + b.drop_last());
        assert((a + b).last() == b.last());
        utf16_of_concatenation(a, b.drop_last());
        assert(utf16(a + b) =~= utf16(a) + utf16(b));
    }
}

/// A character takes one code unit below U+10000 and two from there on.
pub proof fn utf16_length_of_push(s: Seq<char>, c: char)
    ensures
        utf16(s.push(c)).len() == utf16(s).len() + if (c as u32) < 0x10000 {
            1nat
        } else {
            2nat
        },
{
    assert(s.push(c).drop_last() =~= s);
    assert(s.push(c).last() == c);
}

/// True for the first half of a surrogate pair.
pub open spec fn is_high_surrogate(unit: u16) -> bool {
    0xD800 <= unit <= 0xDBFF
}

/// True for the second half of a surrogate pair.
pub open spec fn is_low_surrogate(unit: u16) -> bool {
    0xDC00 <= unit <= 0xDFFF
}

/// The character that a surrogate pair stands for.
pub open spec fn paired(high: u16, low: u16) -> char {
    (0x10000 + (high - 0xD800) * 0x400 + (low - 0xDC00)) as char
}

/// The string that a run of UTF-16 code units stands for. A surrogate
/// pair gives its character, every other code unit that is no surrogate
/// gives its own, and a surrogate without its other half gives U+FFFD.
pub open spec fn utf16_lossy(units: Seq<u16>) -> Seq<char>
    decreases units.len(),
{
    if units.len() == 0 {
        Seq::empty()
    } else if is_high_surrogate(units[0]) && units.len() > 1 && is_low_surrogate(units[1]) {
        seq![paired(units[0], units[1])] + utf16_lossy(units.skip(2))
    } else if is_high_surrogate(units[0]) || is_low_surrogate(units[0]) {
        seq!['\u{FFFD}'] + utf16_lossy(units.drop_first())
    } else {
        seq![units[0] as char] + utf16_lossy(units.drop_first())
    }
}

/// Decoding the code units of a character in front of other code units
/// gives the character in front of what the others decode to.
proof fn lemma_decode_one(c: char, rest: Seq<u16>)
    ensures
        utf16_lossy(utf16_units(c) + rest) == seq![c] + utf16_lossy(rest),
{
    let units = utf16_units(c) + rest;
    let n = c as u32;
    if n < 0x10000 {
        assert(units[0] == n as u16);
        assert(units.drop_first() =~= rest);
        assert(units[0] as char == c);
    } else {
        let high = (0xD800 + (n - 0x10000) / 0x400) as u16;
        let low = (0xDC00 + (n - 0x10000) % 0x400) as u16;
        assert(units[0] == high);
        assert(units[1] == low);
        assert(units.skip(2) =~= rest);
        assert(0x10000 + (high - 0xD800) * 0x400 + (low - 0xDC00) == n) by {
            assert((n - 0x10000) == ((n - 0x10000) / 0x400) * 0x400 + (n - 0x10000) % 0x400);
        }
        assert(paired(high, low) == c);
    }
}

/// A string is read back from its UTF-16 encoding.
pub proof fn utf16_round_trip(s: Seq<char>)
    ensures
        utf16_lossy(utf16(s)) == s,
    decreases s.len(),
{
    if s.len() == 0 {
    } else {
        let first = s.take(1);
        let rest = s.drop_first();
        assert(first + rest =~= s);
        utf16_of_concatenation(first, rest);
        assert(first.drop_last() =~= Seq::<char>::empty());
        assert(first.last() == s[0]);
        assert(utf16(first.drop_last()) =~= Seq::<u16>::empty());
        assert(utf16(first) == utf16(first.drop_last()) + utf16_units(first.last()));
        assert(utf16(first) =~= utf16_units(s[0]));
        lemma_decode_one(s[0], utf16(rest));
        utf16_round_trip(rest);
        assert(seq![s[0]] + rest =~= s);
    }
}

/// The view of an optional string.
pub open spec fn opt_text(s: Option<String>) -> Option<Seq<char>> {
    match s {
        Some(s) => Some(s@),
        None => None,
    }
}

/// Copies an optional string.
pub fn clone_opt_string(s: &Option<String>) -> (out: Option<String>)
    ensures
        opt_text(out) == opt_text(*s),
        out == *s,
{
    match s {
        Some(s) => Some(s.clone()),
        None => None,
    }
}

/// The views of a list of strings.
pub open spec fn text_views(items: Seq<String>) -> Seq<Seq<char>> {
    Seq::new(items.len(), |i: int| items[i]@)
}

/// The characters of a string.
pub fn chars_of(s: &str) -> (out: Vec<char>)
    ensures
        out@ == s@,
{
    let mut out: Vec<char> = Vec::new();
    for c in it: s.chars()
        invariant
            it.seq() == s@,
            out@ == s@.take(it.index()),
    {
        out.push(c);
        assert(out@ =~= s@.take(it.index() + 1));
    }
    assert(s@.take(s@.len() as int) =~= s@);
    out
}

/// True for the characters that Unicode counts as white space.
pub uninterp spec fn white_space(c: char) -> bool;

/// Calls `char::is_whitespace`. The contract names the result and claims
/// no more than that it is a function of the character.
#[verifier::external_body]
fn is_white_space(c: char) -> (out: bool)
    ensures
        out == white_space(c),
{
    c.is_whitespace()
}

/// The string without the white space at its start.
pub open spec fn trimmed_start(s: Seq<char>) -> Seq<char>
    decreases s.len(),
{
    if s.len() > 0 && white_space(s[0]) {
        trimmed_start(s.drop_first())
    } else {
        s
    }
}

/// The string without the white space at its end.
pub open spec fn trimmed_end(s: Seq<char>) -> Seq<char>
    decreases s.len(),
{
    if s.len() > 0 && white_space(s.last()) {
        trimmed_end(s.drop_last())
    } else {
        s
    }
}

/// The string without the white space at its start and at its end.
pub open spec fn trimmed(s: Seq<char>) -> Seq<char> {
    trimmed_end(trimmed_start(s))
}

proof fn lemma_trimmed_start(s: Seq<char>, k: int)
    requires
        0 <= k <= s.len(),
        forall|i: int| 0 <= i < k ==> white_space(s[i]),
        k < s.len() ==> !white_space(s[k]),
    ensures
        trimmed_start(s) == s.subrange(k, s.len() as int),
    decreases k,
{
    if k == 0 {
        assert(s.subrange(0, s.len() as int) =~= s);
    } else {
        let rest = s.drop_first();
        assert forall|i: int| 0 <= i < k - 1 implies white_space(rest[i]) by {
            assert(rest[i] == s[i + 1]);
        }
        lemma_trimmed_start(rest, k - 1);
        assert(rest.subrange(k - 1, rest.len() as int) =~= s.subrange(k, s.len() as int));
    }
}

proof fn lemma_trimmed_end(s: Seq<char>, k: int)
    requires
        0 <= k <= s.len(),
        forall|i: int| k <= i < s.len() ==> white_space(s[i]),
        k > 0 ==> !white_space(s[k - 1]),
    ensures
        trimmed_end(s) == s.subrange(0, k),
    decreases s.len() - k,
{
    if k == s.len() {
        assert(s.subrange(0, k) =~= s);
    } else {
        let rest = s.drop_last();
        lemma_trimmed_end(rest, k);
        assert(rest.subrange(0, k) =~= s.subrange(0, k));
    }
}

/// Removes the white space at the start and at the end of a string.
pub fn trim(s: &str) -> (out: String)
    ensures
        out@ == trimmed(s@),
{
    let chars = chars_of(s);
    let n = chars.len();
    let mut from: usize = 0;
    while from < n && is_white_space(chars[from])
        invariant
            0 <= from <= n,
            n == chars@.len(),
            forall|i: int| 0 <= i < from ==> white_space(chars@[i]),
        decreases n - from,
    {
        from += 1;
    }
    let mut to: usize = n;
    while to > from && is_white_space(chars[to - 1])
        invariant
            from <= to <= n,
            n == chars@.len(),
            forall|i: int| to <= i < n ==> white_space(chars@[i]),
        decreases to,
    {
        to -= 1;
    }
    proof {
        lemma_trimmed_start(s@, from as int);
        let rest = s@.subrange(from as int, n as int);
        assert forall|i: int| to - from <= i < rest.len() implies white_space(rest[i]) by {
            assert(rest[i] == s@[i + from]);
        }
        if to > from {
            assert(rest[to - from - 1] == s@[to - 1]);
        }
        lemma_trimmed_end(rest, to - from);
        assert(rest.subrange(0, to - from) =~= s@.subrange(from as int, to as int));
    }
    s.substring_char(from, to).to_owned()
}

/// True where `piece` stands somewhere in `whole`, in one piece.
pub open spec fn occurs_in(piece: Seq<char>, whole: Seq<char>) -> bool {
    exists|at: int|
        0 <= at && at + piece.len() <= whole.len() && #[trigger] whole.subrange(
            at,
            at + piece.len(),
        ) == piece
}

/// True where `s` begins with `prefix`.
pub open spec fn has_prefix(s: Seq<char>, prefix: Seq<char>) -> bool {
    prefix.len() <= s.len() && s.subrange(0, prefix.len() as int) == prefix
}

/// Tells whether `s` begins with `prefix`.
pub fn starts_with(s: &str, prefix: &str) -> (out: bool)
    ensures
        out == has_prefix(s@, prefix@),
{
    let n = prefix.unicode_len();
    if s.unicode_len() < n {
        return false;
    }
    same_text(s.substring_char(0, n), prefix)
}

/// Tells whether two strings hold the same characters.
pub fn same_text(a: &str, b: &str) -> (out: bool)
    ensures
        out == (a@ == b@),
{
    let a = a.to_owned();
    let b = b.to_owned();
    a == b
}

/// The text with `to` behind each of its characters.
pub open spec fn spread(text: Seq<char>, to: Seq<char>) -> Seq<char>
    decreases text.len(),
{
    if text.len() == 0 {
        Seq::empty()
    } else {
        seq![text[0]] + to + spread(text.drop_first(), to)
    }
}

/// The text with every occurrence of `from` replaced by `to`. The
/// occurrences are taken from left to right and do not overlap; the empty
/// string occurs before every character and behind the last.
pub open spec fn replaced(text: Seq<char>, from: Seq<char>, to: Seq<char>) -> Seq<char>
    decreases text.len(),
{
    if from.len() == 0 {
        to + spread(text, to)
    } else if text.len() < from.len() {
        text
    } else if text.subrange(0, from.len() as int) == from {
        to + replaced(text.skip(from.len() as int), from, to)
    } else {
        seq![text[0]] + replaced(text.drop_first(), from, to)
    }
}

fn occurs_at(text: &Vec<char>, from: &Vec<char>, at: usize) -> (out: bool)
    requires
        at + from@.len() <= text@.len(),
    ensures
        out == (text@.subrange(at as int, at + from@.len()) == from@),
{
    let n = text.len();
    let mut k: usize = 0;
    while k < from.len()
        invariant
            0 <= k <= from.len(),
            n == text@.len(),
            at + from@.len() <= n,
            forall|j: int| 0 <= j < k ==> text@[at + j] == from@[j],
        decreases from.len() - k,
    {
        if text[at + k] != from[k] {
            assert(text@.subrange(at as int, at + from@.len())[k as int] != from@[k as int]);
            return false;
        }
        k += 1;
    }
    assert(text@.subrange(at as int, at + from@.len()) =~= from@);
    true
}

fn spread_over(text: &str, to: &str) -> (out: String)
    ensures
        out@ == spread(text@, to@),
{
    let n = text.unicode_len();
    let mut out = String::new();
    let mut i: usize = 0;
    assert(text@.skip(0) =~= text@);
    while i < n
        invariant
            0 <= i <= n,
            n == text@.len(),
            out@ + spread(text@.skip(i as int), to@) == spread(text@, to@),
        decreases n - i,
    {
        let ghost rest = text@.skip(i as int);
        assert(rest.drop_first() =~= text@.skip(i + 1));
        assert(text@.subrange(i as int, i + 1) =~= seq![rest[0]]);
        let ghost before = out@;
        out.append(text.substring_char(i, i + 1));
        out.append(to);
        assert(out@ + spread(text@.skip(i + 1), to@) =~= before + spread(rest, to@));
        i += 1;
    }
    assert(spread(text@.skip(n as int), to@) =~= Seq::<char>::empty());
    assert(out@ =~= out@ + Seq::<char>::empty());
    out
}

/// Replaces every occurrence of `from` in `text` by `to`.
pub fn replace_all(text: &str, from: &str, to: &str) -> (out: String)
    ensures
        out@ == replaced(text@, from@, to@),
{
    let chars = chars_of(text);
    let pattern = chars_of(from);
    let n = chars.len();
    let m = pattern.len();
    let mut out = String::new();
    if m == 0 {
        out.append(to);
        out.append(spread_over(text, to).as_str());
        return out;
    }
    if n < m {
        return text.to_owned();
    }
    let mut i: usize = 0;
    let mut run: usize = 0;
    assert(text@.skip(0) =~= text@);
    assert(out@ + text@.subrange(0, 0) =~= Seq::<char>::empty());
    while i <= n - m
        invariant
            0 < m <= n,
            n == text@.len(),
            m == from@.len(),
            chars@ == text@,
            pattern@ == from@,
            run <= i <= n,
            out@ + text@.subrange(run as int, i as int) + replaced(text@.skip(i as int), from@, to@)
                == replaced(text@, from@, to@),
        decreases n - i,
    {
        let ghost rest = text@.skip(i as int);
        let ghost before = out@;
        let ghost pending = text@.subrange(run as int, i as int);
        assert(rest.subrange(0, m as int) =~= text@.subrange(i as int, i + m));
        if occurs_at(&chars, &pattern, i) {
            assert(rest.skip(m as int) =~= text@.skip(i + m));
            out.append(text.substring_char(run, i));
            out.append(to);
            i += m;
            run = i;
            assert(out@ + text@.subrange(run as int, i as int) + replaced(
                text@.skip(i as int),
                from@,
                to@,
            ) =~= before + pending + replaced(rest, from@, to@));
        } else {
            assert(rest.drop_first() =~= text@.skip(i + 1));
            assert(text@.subrange(run as int, i + 1) =~= pending + seq![rest[0]]);
            i += 1;
            assert(out@ + text@.subrange(run as int, i as int) + replaced(
                text@.skip(i as int),
                from@,
                to@,
            ) =~= before + pending + replaced(rest, from@, to@));
        }
    }
    proof {
        let rest = text@.skip(i as int);
        assert(rest.len() < m);
        assert(replaced(rest, from@, to@) == rest);
        assert(text@.subrange(run as int, i as int) + rest =~= text@.subrange(run as int, n as int));
    }
    let ghost before = out@;
    out.append(text.substring_char(run, n));
    assert(out@ =~= before + text@.subrange(run as int, i as int) + text@.skip(i as int));
    out
}

/// The numeral for one decimal digit.
pub open spec fn digit(d: int) -> char {
    if d == 0 {
        '0'
    } else if d == 1 {
        '1'
    } else if d == 2 {
        '2'
    } else if d == 3 {
        '3'
    } else if d == 4 {
        '4'
    } else if d == 5 {
        '5'
    } else if d == 6 {
        '6'
    } else if d == 7 {
        '7'
    } else if d == 8 {
        '8'
    } else {
        '9'
    }
}

/// The decimal numeral of a natural number, without leading zeros.
pub open spec fn decimal(n: nat) -> Seq<char>
    decreases n,
{
    if n < 10 {
        seq![digit(n as int)]
    } else {
        decimal(n / 10).push(digit((n % 10) as int))
    }
}

fn digit_str(d: u128) -> (out: &'static str)
    requires
        d < 10,
    ensures
        out@ == seq![digit(d as int)],
{
    proof {
        reveal_strlit("0");
        reveal_strlit("1");
        reveal_strlit("2");
        reveal_strlit("3");
        reveal_strlit("4");
        reveal_strlit("5");
        reveal_strlit("6");
        reveal_strlit("7");
        reveal_strlit("8");
        reveal_strlit("9");
    }
    let out = if d == 0 {
        "0"
    } else if d == 1 {
        "1"
    } else if d == 2 {
        "2"
    } else if d == 3 {
        "3"
    } else if d == 4 {
        "4"
    } else if d == 5 {
        "5"
    } else if d == 6 {
        "6"
    } else if d == 7 {
        "7"
    } else if d == 8 {
        "8"
    } else {
        "9"
    };
    assert(out@ =~= seq![digit(d as int)]);
    out
}

/// Appends the decimal numeral of `n` to `out`.
pub fn push_decimal(out: &mut String, n: u128)
    ensures
        final(out)@ == old(out)@ + decimal(n as nat),
    decreases n,
{
    if n >= 10 {
        push_decimal(out, n / 10);
    }
    out.append(digit_str(n % 10));
    assert(out@ =~= old(out)@ + decimal(n as nat));
}

/// The decimal numeral of `n` as a string.
pub fn decimal_string(n: u128) -> (out: String)
    ensures
        out@ == decimal(n as nat),
{
    let mut out = String::new();
    push_decimal(&mut out, n);
    assert(out@ =~= decimal(n as nat));
    out
}

/// The value of a decimal digit, if the character is one.
pub open spec fn digit_value(c: char) -> Option<nat> {
    if '0' <= c <= '9' {
        Some((c as u32 - '0' as u32) as nat)
    } else {
        None
    }
}

/// The value of a non-empty run of decimal digits; `None` where a
/// character is no digit or the run is empty.
pub open spec fn digits_value(s: Seq<char>) -> Option<nat>
    decreases s.len(),
{
    if s.len() == 0 {
        None
    } else if s.len() == 1 {
        digit_value(s[0])
    } else {
        match (digits_value(s.drop_last()), digit_value(s.last())) {
            (Some(high), Some(low)) => Some(high * 10 + low),
            _ => None,
        }
    }
}

/// What a base-ten numeral denotes as a `u64`: an optional `+`, then at
/// least one digit, the value within range.
pub open spec fn parsed_u64(s: Seq<char>) -> Option<u64> {
    let body = if s.len() > 0 && s[0] == '+' {
        s.drop_first()
    } else {
        s
    };
    match digits_value(body) {
        Some(v) => if v <= u64::MAX {
            Some(v as u64)
        } else {
            None
        },
        None => None,
    }
}

proof fn lemma_digits_value_grows(s: Seq<char>)
    requires
        s.len() > 1,
        digits_value(s) is Some,
    ensures
        digits_value(s.drop_last()) is Some,
        digits_value(s)->0 >= digits_value(s.drop_last())->0,
{
}

/// Reads a base-ten numeral as a `u64`.
pub fn parse_u64(s: &str) -> (out: Option<u64>)
    ensures
        out == parsed_u64(s@),
{
    let chars = chars_of(s);
    let n = chars.len();
    let mut i: usize = 0;
    if n > 0 && chars[0] == '+' {
        i = 1;
    }
    let start = i;
    let ghost body = s@.subrange(start as int, n as int);
    proof {
        if start == 1 {
            assert(body =~= s@.drop_first());
        } else {
            assert(body =~= s@);
        }
    }
    if i == n {
        return None;
    }
    let mut acc: u64 = 0;
    while i < n
        invariant
            start <= i <= n,
            n == s@.len(),
            chars@ == s@,
            body == s@.subrange(start as int, n as int),
            body == if s@.len() > 0 && s@[0] == '+' {
                s@.drop_first()
            } else {
                s@
            },
            i > start ==> digits_value(body.take(i - start)) == Some(acc as nat),
            i == start ==> acc == 0,
        decreases n - i,
    {
        let c = chars[i];
        let ghost prefix = body.take(i - start + 1);
        proof {
            assert(prefix.last() == c);
            assert(body[i - start] == c);
            assert(prefix.drop_last() =~= body.take(i - start));
        }
        if !('0' <= c && c <= '9') {
            proof {
                lemma_digits_none(body, i - start);
            }
            return None;
        }
        let low: u64 = (c as u32 - '0' as u32) as u64;
        if acc > (u64::MAX - low) / 10 {
            proof {
                assert(acc * 10 + low > u64::MAX);
                if i > start {
                    assert(digits_value(prefix) == Some((acc * 10 + low) as nat));
                } else {
                    assert(false);
                }
                lemma_digits_monotone(body, i - start + 1);
            }
            return None;
        }
        acc = acc * 10 + low;
        i += 1;
    }
    proof {
        assert(body.take(n - start) =~= body);
    }
    Some(acc)
}

/// A character that is no digit leaves every longer run without a value.
proof fn lemma_digits_none(s: Seq<char>, at: int)
    requires
        0 <= at < s.len(),
        digit_value(s[at]) is None,
    ensures
        digits_value(s) is None,
    decreases s.len(),
{
    if s.len() > 1 {
        if at < s.len() - 1 {
            lemma_digits_none(s.drop_last(), at);
        }
    }
}

/// The value of a run is at least the value of each of its prefixes.
proof fn lemma_digits_monotone(s: Seq<char>, k: int)
    requires
        1 <= k <= s.len(),
        digits_value(s.take(k)) is Some,
    ensures
        digits_value(s) matches Some(v) ==> v >= digits_value(s.take(k))->0,
    decreases s.len() - k,
{
    if k < s.len() {
        if digits_value(s) is Some {
            lemma_digits_value_grows(s);
            assert(s.drop_last().take(k) =~= s.take(k));
            if k < s.len() - 1 {
                lemma_digits_monotone(s.drop_last(), k);
            } else {
                assert(s.drop_last() =~= s.take(k));
            }
        }
    } else {
        assert(s.take(k) =~= s);
    }
}

} // verus!
