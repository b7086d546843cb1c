//! Text handling over characters: lines, prefixes, trimming and the rendering
//! of numbers.

use vstd::prelude::*;

verus! {

/// `String::push` appends one character to the end of the string and leaves
/// what was there before in place.
pub assume_specification[ String::push ](s: &mut String, c: char)
    ensures
        final(s)@ == old(s)@.push(c),
;

/// The texts that a sequence of strings holds.
pub open spec fn texts(strings: Seq<String>) -> Seq<Seq<char>> {
    strings.map_values(|s: String| s@)
}

/// The text that an optional string holds.
pub open spec fn opt_text(s: Option<String>) -> Option<Seq<char>> {
    match s {
        Some(s) => Some(s@),
        None => None,
    }
}

/// Where `c` first occurs in `s`, or the length of `s` if it does not occur.
pub open spec fn first_at(s: Seq<char>, c: char) -> int
    decreases s.len(),
{
    if s.len() == 0 || s[0] == c {
        0
    } else {
        1 + first_at(s.drop_first(), c)
    }
}

/// A line without the carriage return that precedes its line feed.
pub open spec fn without_return(line: Seq<char>) -> Seq<char> {
    if line.len() > 0 && line.last() == '\r' {
        line.drop_last()
    } else {
        line
    }
}

/// The lines of a text. A line ends with a line feed, or with a carriage
/// return and a line feed; the last line may lack its ending.
pub open spec fn lines(s: Seq<char>) -> Seq<Seq<char>>
    decreases s.len(),
{
    if s.len() == 0 {
        seq![]
    } else {
        let end = first_at(s, '\n');
        if 0 <= end < s.len() {
            seq![without_return(s.take(end))] + lines(s.skip(end + 1))
        } else {
            seq![s]
        }
    }
}

/// The characters that Unicode counts as white space.
pub open spec fn is_white_space(c: char) -> bool {
    ||| '\u{9}' <= c <= '\u{d}'
    ||| c == ' '
    ||| c == '\u{85}'
    ||| c == '\u{a0}'
    ||| c == '\u{1680}'
    ||| '\u{2000}' <= c <= '\u{200a}'
    ||| c == '\u{2028}'
    ||| c == '\u{2029}'
    ||| c == '\u{202f}'
    ||| c == '\u{205f}'
    ||| c == '\u{3000}'
}

/// A text without the white space at its end.
pub open spec fn trimmed_end(s: Seq<char>) -> Seq<char>
    decreases s.len(),
{
    if s.len() > 0 && is_white_space(s.last()) {
        trimmed_end(s.drop_last())
    } else {
        s
    }
}

/// A text without the white space at its beginning.
pub open spec fn trimmed_start(s: Seq<char>) -> Seq<char>
    decreases s.len(),
{
    if s.len() > 0 && is_white_space(s[0]) {
        trimmed_start(s.drop_first())
    } else {
        s
    }
}

/// A text without the white space around it.
pub open spec fn trimmed(s: Seq<char>) -> Seq<char> {
    trimmed_end(trimmed_start(s))
}

/// The digit for a value below 16, in lower case.
pub open spec fn digit(value: int) -> char {
    if value <= 0 { '0' }
    else if value == 1 { '1' }
    else if value == 2 { '2' }
    else if value == 3 { '3' }
    else if value == 4 { '4' }
    else if value == 5 { '5' }
    else if value == 6 { '6' }
    else if value == 7 { '7' }
    else if value == 8 { '8' }
    else if value == 9 { '9' }
    else if value == 10 { 'a' }
    else if value == 11 { 'b' }
    else if value == 12 { 'c' }
    else if value == 13 { 'd' }
    else if value == 14 { 'e' }
    else { 'f' }
}

/// A number in decimal digits, without leading zeros.
pub open spec fn decimal(n: nat) -> Seq<char>
    decreases n,
{
    if n < 10 {
        seq![digit(n as int)]
    } else {
        decimal(n / 10).push(digit((n % 10) as int))
    }
}

/// The lowest `width` hexadecimal digits of a number, with leading zeros.
pub open spec fn hex(n: nat, width: nat) -> Seq<char>
    decreases width,
{
    if width == 0 {
        seq![]
    } else {
        hex(n / 16, (width - 1) as nat).push(digit((n % 16) as int))
    }
}

/// The characters of a text.
pub fn to_chars(s: &str) -> (chars: Vec<char>)
    ensures
        chars@ == s@,
{
    let mut chars: Vec<char> = Vec::new();
    for c in it: s.chars()
        invariant
            it.seq() == s@,
            chars@ == s@.take(it.index() as int),
    {
        chars.push(c);
    }
    chars
}

/// The text made of `chars[from..to]`.
pub fn string_of(chars: &Vec<char>, from: usize, to: usize) -> (s: String)
    requires
        from <= to <= chars@.len(),
    ensures
        s@ == chars@.subrange(from as int, to as int),
{
    let mut s = String::new();
    for i in from..to
        invariant
            from <= to <= chars@.len(),
            s@ == chars@.subrange(from as int, i as int),
    {
        s.push(chars[i]);
    }
    s
}

/// Whether two texts hold the same characters.
pub fn same_text(a: &str, b: &str) -> (same: bool)
    ensures
        same == (a@ == b@),
{
    broadcast use vstd::utf8::encode_utf8_decode_utf8;

    let x = a.as_bytes();
    let y = b.as_bytes();
    assert(a@ != b@ ==> x@ != y@) by {
        assert(vstd::utf8::decode_utf8(x@) == a@);
        assert(vstd::utf8::decode_utf8(y@) == b@);
    }
    if x.len() != y.len() {
        return false;
    }
    for i in 0..x.len()
        invariant
            x@ == vstd::utf8::encode_utf8(a@),
            y@ == vstd::utf8::encode_utf8(b@),
            x@.len() == y@.len(),
            x@.take(i as int) == y@.take(i as int),
    {
        if x[i] != y[i] {
            return false;
        }
        assert(x@.take(i + 1) == x@.take(i as int).push(x@[i as int]));
        assert(y@.take(i + 1) == y@.take(i as int).push(y@[i as int]));
    }
    assert(x@ == x@.take(x@.len() as int));
    assert(y@ == y@.take(y@.len() as int));
    true
}

/// Whether a text begins with another.
pub fn starts_with(s: &str, prefix: &str) -> (yes: bool)
    ensures
        yes == prefix@.is_prefix_of(s@),
{
    let chars = to_chars(s);
    let head = to_chars(prefix);
    if head.len() > chars.len() {
        return false;
    }
    for i in 0..head.len()
        invariant
            chars@ == s@,
            head@ == prefix@,
            head@.len() <= chars@.len(),
            head@.take(i as int) == chars@.take(i as int),
    {
        if head[i] != chars[i] {
            assert(prefix@[i as int] != s@.subrange(0, prefix@.len() as int)[i as int]);
            return false;
        }
        assert(head@.take(i + 1) == head@.take(i as int).push(head@[i as int]));
        assert(chars@.take(i + 1) == chars@.take(i as int).push(chars@[i as int]));
    }
    assert(head@ == head@.take(head@.len() as int));
    assert(s@.subrange(0, prefix@.len() as int) == prefix@);
    true
}

/// What follows `prefix` in a text that begins with it.
pub fn strip_prefix(s: &str, prefix: &str) -> (rest: Option<String>)
    ensures
        match rest {
            Some(rest) => prefix@.is_prefix_of(s@) && rest@ == s@.skip(prefix@.len() as int),
            None => !prefix@.is_prefix_of(s@),
        },
{
    if !starts_with(s, prefix) {
        return None;
    }
    let chars = to_chars(s);
    let from: usize = prefix.unicode_len();
    let rest = string_of(&chars, from, chars.len());
    assert(rest@ == s@.skip(prefix@.len() as int));
    Some(rest)
}

/// Whether a character occurs in a text.
pub fn contains_char(s: &str, c: char) -> (yes: bool)
    ensures
        yes == s@.contains(c),
{
    let chars = to_chars(s);
    for i in 0..chars.len()
        invariant
            chars@ == s@,
            forall|j: int| 0 <= j < i ==> s@[j] != c,
    {
        if chars[i] == c {
            assert(s@[i as int] == c);
            return true;
        }
    }
    false
}

/// What `first_at` says of the position it gives: nothing before it is `c`.
pub proof fn lemma_first_at(s: Seq<char>, c: char, at: int)
    requires
        0 <= at <= s.len(),
        forall|j: int| 0 <= j < at ==> s[j] != c,
        at < s.len() ==> s[at] == c,
    ensures
        first_at(s, c) == at,
    decreases s.len(),
{
    if at > 0 {
        assert forall|j: int| 0 <= j < at - 1 implies s.drop_first()[j] != c by {
            assert(s[j + 1] != c);
        }
        lemma_first_at(s.drop_first(), c, at - 1);
    }
}

/// The position of the first `c` at or after `from`, or the length if there
/// is none.
pub fn find_char(chars: &Vec<char>, from: usize, c: char) -> (at: usize)
    requires
        from <= chars@.len(),
    ensures
        from <= at <= chars@.len(),
        at - from == first_at(chars@.skip(from as int), c),
{
    let mut at: usize = from;
    while at < chars.len() && chars[at] != c
        invariant
            from <= at <= chars@.len(),
            forall|j: int| from <= j < at ==> chars@[j] != c,
        decreases chars@.len() - at,
    {
        at = at + 1;
    }
    proof {
        let rest = chars@.skip(from as int);
        assert forall|j: int| 0 <= j < at - from implies rest[j] != c by {
            assert(chars@[j + from] != c);
        }
        lemma_first_at(rest, c, at - from);
    }
    at
}

/// The lines of a text, as [`lines`] defines them.
pub fn split_lines(s: &str) -> (found: Vec<String>)
    ensures
        texts(found@) == lines(s@),
{
    let chars = to_chars(s);
    let mut found: Vec<String> = Vec::new();
    let mut at: usize = 0;
    assert(chars@.skip(0) == s@);
    while at < chars.len()
        invariant
            chars@ == s@,
            at <= chars@.len(),
            texts(found@) + lines(chars@.skip(at as int)) == lines(s@),
        decreases chars@.len() - at,
    {
        let end: usize = find_char(&chars, at, '\n');
        let ghost before = found@;
        let ghost rest = chars@.skip(at as int);
        let mut last: usize = end;
        if end < chars.len() && end > at && chars[end - 1] == '\r' {
            last = end - 1;
        }
        let line = string_of(&chars, at, last);
        found.push(line);
        proof {
            assert(texts(found@) == texts(before).push(line@));
            if end < chars@.len() {
                assert(rest.take(end - at) == chars@.subrange(at as int, end as int));
                assert(line@ == without_return(rest.take(end - at)));
                assert(rest.skip(end - at + 1) == chars@.skip(end + 1));
                assert(lines(rest) == seq![line@] + lines(chars@.skip(end + 1)));
            } else {
                assert(line@ == rest);
                assert(lines(rest) == seq![line@]);
                assert(lines(chars@.skip(chars@.len() as int)) == Seq::<Seq<char>>::empty());
            }
        }
        at = if end < chars.len() { end + 1 } else { end };
    }
    assert(lines(chars@.skip(at as int)) == Seq::<Seq<char>>::empty());
    found
}

/// Whether Unicode counts a character as white space.
pub fn white_space(c: char) -> (yes: bool)
    ensures
        yes == is_white_space(c),
{
    ('\u{9}' <= c && c <= '\u{d}') || c == ' ' || c == '\u{85}' || c == '\u{a0}'
        || c == '\u{1680}' || ('\u{2000}' <= c && c <= '\u{200a}') || c == '\u{2028}'
        || c == '\u{2029}' || c == '\u{202f}' || c == '\u{205f}' || c == '\u{3000}'
}

/// A text without the white space at its end.
pub fn trim_end(s: &str) -> (t: String)
    ensures
        t@ == trimmed_end(s@),
{
    let chars = to_chars(s);
    let mut to: usize = chars.len();
    assert(chars@.take(to as int) == s@);
    while to > 0 && white_space(chars[to - 1])
        invariant
            chars@ == s@,
            to <= chars@.len(),
            trimmed_end(chars@.take(to as int)) == trimmed_end(s@),
        decreases to,
    {
        assert(chars@.take(to as int).drop_last() == chars@.take(to - 1));
        to = to - 1;
    }
    string_of(&chars, 0, to)
}

/// A text without the white space around it.
pub fn trim(s: &str) -> (t: String)
    ensures
        t@ == trimmed(s@),
{
    let chars = to_chars(s);
    let mut from: usize = 0;
    assert(chars@.skip(0) == s@);
    while from < chars.len() && white_space(chars[from])
        invariant
            chars@ == s@,
            from <= chars@.len(),
            trimmed_start(chars@.skip(from as int)) == trimmed_start(s@),
        decreases chars@.len() - from,
    {
        assert(chars@.skip(from as int).drop_first() == chars@.skip(from + 1));
        from = from + 1;
    }
    let rest = string_of(&chars, from, chars.len());
    assert(rest@ == chars@.skip(from as int));
    trim_end(rest.as_str())
}

/// The digit for a value below 16, in lower case.
pub fn digit_char(value: u8) -> (c: char)
    requires
        value < 16,
    ensures
        c == digit(value as int),
{
    match value {
        0 => '0',
        1 => '1',
        2 => '2',
        3 => '3',
        4 => '4',
        5 => '5',
        6 => '6',
        7 => '7',
        8 => '8',
        9 => '9',
        10 => 'a',
        11 => 'b',
        12 => 'c',
        13 => 'd',
        14 => 'e',
        _ => 'f',
    }
}

/// A number in decimal digits.
pub fn decimal_text(n: u64) -> (s: String)
    ensures
        s@ == decimal(n as nat),
    decreases n,
{
    if n < 10 {
        let mut s = String::new();
        s.push(digit_char(n as u8));
        s
    } else {
        let mut s = decimal_text(n / 10);
        s.push(digit_char((n % 10) as u8));
        s
    }
}

/// The lowest `width` hexadecimal digits of a number, with leading zeros.
pub fn hex_text(n: u64, width: usize) -> (s: String)
    ensures
        s@ == hex(n as nat, width as nat),
    decreases width,
{
    if width == 0 {
        String::new()
    } else {
        let mut s = hex_text(n / 16, width - 1);
        s.push(digit_char((n % 16) as u8));
        s
    }
}

/// Where a name first stands in a list, or the length of the list if it does
/// not stand there.
pub open spec fn place_of(names: Seq<Seq<char>>, name: Seq<char>) -> nat
    decreases names.len(),
{
    if names.len() == 0 || names[0] == name {
        0
    } else {
        1 + place_of(names.drop_first(), name)
    }
}

/// What `place_of` says of the place it gives.
pub proof fn lemma_place_of(names: Seq<Seq<char>>, name: Seq<char>, at: int)
    requires
        0 <= at <= names.len(),
        forall|j: int| 0 <= j < at ==> names[j] != name,
        at < names.len() ==> names[at] == name,
    ensures
        place_of(names, name) == at,
    decreases names.len(),
{
    if at > 0 {
        assert forall|j: int| 0 <= j < at - 1 implies names.drop_first()[j] != name by {
            assert(names[j + 1] != name);
        }
        lemma_place_of(names.drop_first(), name, at - 1);
    }
}

/// What stands at the place that `place_of` gives.
pub proof fn lemma_place_holds(names: Seq<Seq<char>>, name: Seq<char>)
    ensures
        place_of(names, name) <= names.len(),
        place_of(names, name) < names.len() ==> names[place_of(names, name) as int] == name,
        names.contains(name) <==> place_of(names, name) < names.len(),
    decreases names.len(),
{
    if names.len() > 0 && names[0] != name {
        let rest = names.drop_first();
        lemma_place_holds(rest, name);
        if names.contains(name) {
            let j = choose|j: int| 0 <= j < names.len() && names[j] == name;
            assert(rest[j - 1] == name);
        }
        if rest.contains(name) {
            let j = choose|j: int| 0 <= j < rest.len() && rest[j] == name;
            assert(names[j + 1] == name);
        }
    }
}

/// A list of strings holds their texts, one for one, and an optional string
/// its text.
pub proof fn law_texts_are_kept(strings: Seq<String>, i: int, s: String)
    requires
        0 <= i < strings.len(),
    ensures
        texts(strings).len() == strings.len(),
        texts(strings)[i] == strings[i]@,
        opt_text(Some(s)) == Some(s@),
        opt_text(None) is None,
{
}

/// The position of a character is its first: the character stands there, and
/// nowhere before. A character that does not occur has the length as position.
pub proof fn law_first_position(s: Seq<char>, c: char)
    ensures
        0 <= first_at(s, c) <= s.len(),
        first_at(s, c) < s.len() ==> s[first_at(s, c)] == c,
        forall|j: int| 0 <= j < first_at(s, c) ==> s[j] != c,
    decreases s.len(),
{
    if s.len() > 0 && s[0] != c {
        let rest = s.drop_first();
        law_first_position(rest, c);
        assert forall|j: int| 0 <= j < first_at(s, c) implies s[j] != c by {
            if j > 0 {
                assert(rest[j - 1] == s[j]);
            }
        }
    }
}

/// How a text falls into lines: what stands before a line feed is a line, less
/// one carriage return at its end, and the lines of the rest follow. A text
/// without a line feed is one line, unless it is empty.
pub proof fn law_lines_end_at_line_feeds(line: Seq<char>, rest: Seq<char>)
    requires
        !line.contains('\n'),
    ensures
        lines(line.push('\n') + rest) == seq![
            if line.len() > 0 && line.last() == '\r' {
                line.drop_last()
            } else {
                line
            },
        ] + lines(rest),
        lines(line) == if line.len() == 0 {
            seq![]
        } else {
            seq![line]
        },
{
    let s = line.push('\n') + rest;
    law_first_position(s, '\n');
    law_first_position(line, '\n');
    assert(s[line.len() as int] == '\n');
    assert forall|j: int| 0 <= j < line.len() implies s[j] != '\n' by {
        assert(s[j] == line[j]);
        assert(line.contains(line[j]));
    }
    let end = first_at(s, '\n');
    assert(end == line.len());
    assert(s.take(end) =~= line);
    assert(s.skip(end + 1) =~= rest);
    if first_at(line, '\n') < line.len() {
        assert(line.contains(line[first_at(line, '\n')]));
    }
}

/// Trimming takes white space off both ends and nothing else: what is left is
/// a part of the text, what is cut off is white space, and no white space is
/// left at either end.
pub proof fn law_trimming(s: Seq<char>) -> (cut: (int, int))
    ensures
        0 <= cut.0 <= cut.1 <= s.len(),
        trimmed(s) == s.subrange(cut.0, cut.1),
        forall|j: int| 0 <= j < cut.0 ==> is_white_space(#[trigger] s[j]),
        forall|j: int| cut.1 <= j < s.len() ==> is_white_space(#[trigger] s[j]),
        trimmed(s).len() > 0 ==> !is_white_space(trimmed(s)[0]) && !is_white_space(
            trimmed(s).last(),
        ),
{
    let from = lemma_trimmed_start(s);
    let middle = s.subrange(from, s.len() as int);
    let to = law_trimming_the_end(middle);
    assert(trimmed(s) =~= s.subrange(from, from + to));
    assert forall|j: int| from + to <= j < s.len() implies is_white_space(#[trigger] s[j]) by {
        assert(middle[j - from] == s[j]);
    }
    if to > 0 {
        assert(trimmed(s)[0] == middle[0]);
    }
    (from, from + to)
}

/// Trimming the end takes off the white space there and nothing else.
pub proof fn law_trimming_the_end(s: Seq<char>) -> (to: int)
    ensures
        0 <= to <= s.len(),
        trimmed_end(s) == s.take(to),
        forall|j: int| to <= j < s.len() ==> is_white_space(#[trigger] s[j]),
        to > 0 ==> !is_white_space(s[to - 1]),
    decreases s.len(),
{
    if s.len() > 0 && is_white_space(s.last()) {
        let shorter = s.drop_last();
        let to = law_trimming_the_end(shorter);
        assert(shorter.take(to) =~= s.take(to));
        assert forall|j: int| to <= j < s.len() implies is_white_space(#[trigger] s[j]) by {
            if j < shorter.len() {
                assert(shorter[j] == s[j]);
            }
        }
        if to > 0 {
            assert(shorter[to - 1] == s[to - 1]);
        }
        to
    } else {
        assert(s.take(s.len() as int) =~= s);
        s.len() as int
    }
}

/// Trimming the beginning takes off the white space there and nothing else.
proof fn lemma_trimmed_start(s: Seq<char>) -> (from: int)
    ensures
        0 <= from <= s.len(),
        trimmed_start(s) == s.subrange(from, s.len() as int),
        forall|j: int| 0 <= j < from ==> is_white_space(#[trigger] s[j]),
        from < s.len() ==> !is_white_space(s[from]),
    decreases s.len(),
{
    if s.len() > 0 && is_white_space(s[0]) {
        let rest = s.drop_first();
        let from = lemma_trimmed_start(rest);
        assert(rest.subrange(from, rest.len() as int) =~= s.subrange(from + 1, s.len() as int));
        assert forall|j: int| 0 <= j < from + 1 implies is_white_space(#[trigger] s[j]) by {
            if j > 0 {
                assert(rest[j - 1] == s[j]);
            }
        }
        if from < rest.len() {
            assert(rest[from] == s[from + 1]);
        }
        from + 1
    } else {
        assert(s.subrange(0, s.len() as int) =~= s);
        0
    }
}

/// The value of a digit.
pub open spec fn digit_value(c: char) -> int {
    if '0' <= c <= '9' {
        c as int - '0' as int
    } else {
        c as int - 'a' as int + 10
    }
}

/// The number that digits show in a base.
pub open spec fn shown(digits: Seq<char>, base: int) -> int
    decreases digits.len(),
{
    if digits.len() == 0 {
        0
    } else {
        shown(digits.drop_last(), base) * base + digit_value(digits.last())
    }
}

/// Decimal digits show the number that they were written for, and the first is
/// a zero only for zero itself.
pub proof fn law_decimal_shows_the_number(n: nat)
    ensures
        shown(decimal(n), 10) == n,
        forall|i: int| 0 <= i < decimal(n).len() ==> '0' <= #[trigger] decimal(n)[i] <= '9',
        decimal(n).len() > 0,
        n > 0 ==> decimal(n)[0] != '0',
        n == 0 ==> decimal(n) == seq!['0'],
    decreases n,
{
    if n < 10 {
        assert(decimal(n).drop_last() =~= seq![]);
        assert(decimal(n).last() == digit(n as int));
        reveal_with_fuel(shown, 2);
    } else {
        law_decimal_shows_the_number(n / 10);
        let high = decimal(n / 10);
        assert(decimal(n).drop_last() =~= high);
        assert(decimal(n).last() == digit((n % 10) as int));
        assert forall|i: int| 0 <= i < decimal(n).len() implies '0' <= #[trigger] decimal(n)[i]
            <= '9' by {
            if i < high.len() {
                assert(decimal(n)[i] == high[i]);
            }
        }
        assert(decimal(n)[0] == high[0]);
    }
}

/// Hexadecimal digits are as many as asked for, in lower case, and show the
/// number that they were written for if it fits.
pub proof fn law_hex_shows_the_number(n: nat, width: nat)
    ensures
        hex(n, width).len() == width,
        forall|i: int|
            0 <= i < width ==> '0' <= #[trigger] hex(n, width)[i] <= '9' || 'a' <= hex(n, width)[i]
                <= 'f',
        n < sixteens(width) ==> shown(hex(n, width), 16) == n,
    decreases width,
{
    if width > 0 {
        let less = (width - 1) as nat;
        law_hex_shows_the_number(n / 16, less);
        assert(hex(n, width).drop_last() =~= hex(n / 16, less));
        assert(hex(n, width).last() == digit((n % 16) as int));
        assert forall|i: int| 0 <= i < width implies '0' <= #[trigger] hex(n, width)[i] <= '9'
            || 'a' <= hex(n, width)[i] <= 'f' by {
            if i < less {
                assert(hex(n, width)[i] == hex(n / 16, less)[i]);
            }
        }
    }
}

/// How many numbers `width` hexadecimal digits can show.
pub open spec fn sixteens(width: nat) -> int
    decreases width,
{
    if width == 0 {
        1
    } else {
        16 * sixteens((width - 1) as nat)
    }
}

/// The place of a name is its first: the name stands there, and nowhere
/// before. A name that is not in the list has the length as place.
pub proof fn law_place_is_the_first(names: Seq<Seq<char>>, name: Seq<char>)
    ensures
        place_of(names, name) <= names.len(),
        place_of(names, name) < names.len() ==> names[place_of(names, name) as int] == name,
        forall|j: int| 0 <= j < place_of(names, name) ==> names[j] != name,
    decreases names.len(),
{
    if names.len() > 0 && names[0] != name {
        let rest = names.drop_first();
        law_place_is_the_first(rest, name);
        assert forall|j: int| 0 <= j < place_of(names, name) implies names[j] != name by {
            if j > 0 {
                assert(rest[j - 1] == names[j]);
            }
        }
    }
}

} // verus!
