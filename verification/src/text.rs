//! Text helpers whose contracts speak of the characters of a string.

use vstd::prelude::*;

verus! {

/// `String::push` appends one character to the end of the string.
pub assume_specification[ String::push ](s: &mut String, c: char)
    ensures
        final(s)@ == old(s)@.push(c),
;

/// `==` on string slices compares their characters.
pub assume_specification[ <str as PartialEq>::eq ](a: &str, b: &str) -> (same: bool)
    ensures
        same == (a@ == b@),
;

/// The error text of a check, or `None` where the check passed.
pub open spec fn error_of(result: Result<(), String>) -> Option<Seq<char>> {
    match result {
        Ok(_) => None,
        Err(message) => Some(message@),
    }
}

/// The first error of two checks made one after the other.
pub open spec fn or_else(first: Option<Seq<char>>, second: Option<Seq<char>>) -> Option<Seq<char>> {
    if first is Some {
        first
    } else {
        second
    }
}

/// The characters of `s`, in order.
pub fn chars_of(s: &str) -> (chars: Vec<char>)
    ensures
        chars@ == s@,
{
    let mut chars: Vec<char> = Vec::new();
    for c in iter: s.chars()
        invariant
            chars@ == s@.take(iter.index()),
            iter.seq() == s@,
    {
        chars.push(c);
        assert(s@.take(iter.index() as int).push(c) =~= s@.take(iter.index() + 1));
    }
    assert(s@.take(s@.len() as int) =~= s@);
    chars
}

/// The string made of `chars`.
pub fn string_of(chars: &[char]) -> (s: String)
    ensures
        s@ == chars@,
{
    let mut s: String = String::new();
    let mut i: usize = 0;
    while i < chars.len()
        invariant
            i <= chars.len(),
            s@ == chars@.take(i as int),
        decreases chars.len() - i,
    {
        s.push(chars[i]);
        assert(chars@.take(i as int).push(chars@[i as int]) =~= chars@.take(i + 1));
        i += 1;
    }
    assert(chars@.take(i as int) =~= chars@);
    s
}

/// Whether the two strings hold the same characters.
pub fn same_text(a: &str, b: &str) -> (same: bool)
    ensures
        same == (a@ == b@),
{
    *a == *b
}

/// `a` followed by `b`.
pub fn join2(a: &str, b: &str) -> (s: String)
    ensures
        s@ == a@ + b@,
{
    let mut s = a.to_owned();
    s.append(b);
    s
}

/// `a`, `b` and `c` one after the other.
pub fn join3(a: &str, b: &str, c: &str) -> (s: String)
    ensures
        s@ == a@ + b@ + c@,
{
    let mut s = a.to_owned();
    s.append(b);
    s.append(c);
    s
}

// Searching

/// Whether `needle` stands in `text` at position `i`.
pub open spec fn stands_at(text: Seq<char>, needle: Seq<char>, i: int) -> bool {
    0 <= i && i + needle.len() <= text.len() && text.subrange(i, i + needle.len()) == needle
}

/// Whether `needle` stands anywhere in `text`.
pub open spec fn occurs_in(needle: Seq<char>, text: Seq<char>) -> bool {
    exists|i: int| stands_at(text, needle, i)
}

/// Whether `needle` stands in `text` at position `i`.
fn matches_at(text: &[char], needle: &[char], i: usize) -> (found: bool)
    requires
        i <= text@.len(),
    ensures
        found == stands_at(text@, needle@, i as int),
{
    if text.len() - i < needle.len() {
        return false;
    }
    let mut k: usize = 0;
    while k < needle.len()
        invariant
            k <= needle@.len(),
            i + needle@.len() <= text@.len() <= usize::MAX,
            forall|j: int| 0 <= j < k ==> text@[i + j] == #[trigger] needle@[j],
        decreases needle@.len() - k,
    {
        if text[i + k] != needle[k] {
            assert(text@.subrange(i as int, i + needle@.len())[k as int] != needle@[k as int]);
            return false;
        }
        k += 1;
    }
    assert(text@.subrange(i as int, i + needle@.len()) =~= needle@);
    true
}

/// The first position at or after `from` where `needle` stands in `text`.
pub fn find_from(text: &[char], needle: &[char], from: usize) -> (found: Option<usize>)
    requires
        from <= text@.len(),
    ensures
        match found {
            Some(i) => {
                &&& from <= i
                &&& stands_at(text@, needle@, i as int)
                &&& forall|j: int| from <= j < i ==> !#[trigger] stands_at(text@, needle@, j)
            },
            None => forall|j: int| from <= j ==> !#[trigger] stands_at(text@, needle@, j),
        },
{
    let mut i: usize = from;
    loop
        invariant
            from <= i <= text@.len(),
            forall|j: int| from <= j < i ==> !#[trigger] stands_at(text@, needle@, j),
        decreases text@.len() - i,
    {
        if matches_at(text, needle, i) {
            return Some(i);
        }
        if i == text.len() {
            return None;
        }
        i += 1;
    }
}

/// Whether `needle` stands anywhere in `text`.
pub fn contains(text: &str, needle: &str) -> (found: bool)
    ensures
        found == occurs_in(needle@, text@),
{
    let text_chars = chars_of(text);
    let needle_chars = chars_of(needle);
    match find_from(&text_chars, &needle_chars, 0) {
        Some(i) => {
            assert(stands_at(text@, needle@, i as int));
            true
        },
        None => {
            assert forall|j: int| !stands_at(text@, needle@, j) by {
                if stands_at(text@, needle@, j) {
                    assert(0 <= j);
                }
            }
            false
        },
    }
}

/// Whether `text` begins with `prefix`.
pub fn starts_with(text: &str, prefix: &str) -> (found: bool)
    ensures
        found == prefix@.is_prefix_of(text@),
{
    let text_chars = chars_of(text);
    let prefix_chars = chars_of(prefix);
    let found = matches_at(&text_chars, &prefix_chars, 0);
    assert(found == prefix@.is_prefix_of(text@));
    found
}

/// Whether `text` ends with `suffix`.
pub fn ends_with(text: &str, suffix: &str) -> (found: bool)
    ensures
        found == suffix@.is_suffix_of(text@),
{
    let text_chars = chars_of(text);
    let suffix_chars = chars_of(suffix);
    if suffix_chars.len() > text_chars.len() {
        return false;
    }
    let start: usize = text_chars.len() - suffix_chars.len();
    let found = matches_at(&text_chars, &suffix_chars, start);
    assert(text@.subrange(start as int, text@.len() as int) =~= text@.subrange(
        start as int,
        start + suffix@.len(),
    ));
    found
}

// Replacing

/// The first position where `needle` stands in `text`, for a needle that occurs.
pub open spec fn first_position(text: Seq<char>, needle: Seq<char>) -> int {
    choose|i: int|
        stands_at(text, needle, i) && forall|j: int| 0 <= j < i ==> !#[trigger] stands_at(
            text,
            needle,
            j,
        )
}

/// `text` with every occurrence of `from`, taken left to right without overlap,
/// replaced by `to`.
#[verifier::opaque]
pub open spec fn replaced(text: Seq<char>, from: Seq<char>, to: Seq<char>) -> Seq<char>
    decreases text.len(),
{
    let i = first_position(text, from);
    if from.len() == 0 || !stands_at(text, from, i) {
        text
    } else {
        text.take(i) + to + replaced(text.skip(i + from.len()), from, to)
    }
}

/// The first position is the one before which the needle does not stand.
pub proof fn lemma_first_position(text: Seq<char>, needle: Seq<char>, i: int)
    requires
        stands_at(text, needle, i),
        forall|j: int| 0 <= j < i ==> !#[trigger] stands_at(text, needle, j),
    ensures
        first_position(text, needle) == i,
{
    let p = first_position(text, needle);
    assert(stands_at(text, needle, p) && forall|j: int|
        0 <= j < p ==> !#[trigger] stands_at(text, needle, j));
    if p < i {
        assert(!stands_at(text, needle, p));
    }
    if i < p {
        assert(!stands_at(text, needle, i));
    }
}

proof fn lemma_replaced_step(text: Seq<char>, from: Seq<char>, to: Seq<char>, i: int)
    requires
        from.len() > 0,
        stands_at(text, from, i),
        forall|j: int| 0 <= j < i ==> !#[trigger] stands_at(text, from, j),
    ensures
        replaced(text, from, to) == text.take(i) + to + replaced(
            text.skip(i + from.len()),
            from,
            to,
        ),
{
    lemma_first_position(text, from, i);
    reveal_with_fuel(replaced, 1);
}

proof fn lemma_replaced_none(text: Seq<char>, from: Seq<char>, to: Seq<char>)
    requires
        forall|j: int| !#[trigger] stands_at(text, from, j),
    ensures
        replaced(text, from, to) == text,
{
    reveal_with_fuel(replaced, 1);
}

proof fn lemma_stands_at_skip(text: Seq<char>, needle: Seq<char>, start: int, i: int)
    requires
        0 <= start <= text.len(),
        0 <= i,
    ensures
        stands_at(text.skip(start), needle, i) == stands_at(text, needle, start + i),
{
    if i + needle.len() <= text.len() - start {
        assert(text.skip(start).subrange(i, i + needle.len()) =~= text.subrange(
            start + i,
            start + i + needle.len(),
        ));
    }
}

/// `text` with every occurrence of `from` replaced by `to`. The text to replace is not empty.
pub fn replace(text: &str, from: &str, to: &str) -> (result: String)
    requires
        from@.len() > 0,
    ensures
        result@ == replaced(text@, from@, to@),
{
    let chars = chars_of(text);
    let needle = chars_of(from);
    let mut result: String = String::new();
    let total: usize = chars.len();
    let mut start: usize = 0;
    assert(text@.skip(0) =~= text@);
    loop
        invariant
            chars@ == text@,
            needle@ == from@,
            from@.len() > 0,
            start <= total == chars@.len(),
            replaced(text@, from@, to@) == result@ + replaced(text@.skip(start as int), from@, to@),
        decreases chars@.len() - start,
    {
        let ghost rest = text@.skip(start as int);
        match find_from(&chars, &needle, start) {
            Some(i) => {
                proof {
                    lemma_stands_at_skip(text@, from@, start as int, i - start);
                    assert forall|j: int| 0 <= j < i - start implies !#[trigger] stands_at(
                        rest,
                        from@,
                        j,
                    ) by {
                        lemma_stands_at_skip(text@, from@, start as int, j);
                        assert(!stands_at(text@, from@, start + j));
                    }
                    lemma_replaced_step(rest, from@, to@, i - start);
                }
                let ghost before = result@;
                push_range(&mut result, &chars, start, i);
                result.append(to);
                proof {
                    assert(rest.take(i - start) =~= text@.subrange(start as int, i as int));
                    assert(rest.skip(i - start + from@.len()) =~= text@.skip(i + from@.len()));
                    let tail = replaced(text@.skip(i + from@.len()), from@, to@);
                    assert(before + (rest.take(i - start) + to@ + tail) =~= result@ + tail);
                }
                start = i + needle.len();
            },
            None => {
                proof {
                    assert forall|j: int| !stands_at(rest, from@, j) by {
                        if 0 <= j {
                            lemma_stands_at_skip(text@, from@, start as int, j);
                            assert(!stands_at(text@, from@, start + j));
                        }
                    }
                    lemma_replaced_none(rest, from@, to@);
                    assert(rest =~= text@.subrange(start as int, chars@.len() as int));
                }
                push_range(&mut result, &chars, start, total);
                return result;
            },
        }
    }
}

/// Appends the characters from `start` up to `end` to `out`.
pub fn push_range(out: &mut String, chars: &[char], start: usize, end: usize)
    requires
        start <= end <= chars@.len(),
    ensures
        final(out)@ == old(out)@ + chars@.subrange(start as int, end as int),
{
    let ghost before = out@;
    let mut i: usize = start;
    assert(before + chars@.subrange(start as int, start as int) =~= before);
    while i < end
        invariant
            start <= i <= end <= chars@.len(),
            out@ == before + chars@.subrange(start as int, i as int),
        decreases end - i,
    {
        out.push(chars[i]);
        assert(chars@.subrange(start as int, i as int).push(chars@[i as int]) =~= chars@.subrange(
            start as int,
            i + 1,
        ));
        i += 1;
    }
}

// Characters

/// Whether `c` has Unicode's `White_Space` property.
pub open spec fn is_space(c: char) -> bool {
    ||| '\u{9}' <= c <= '\u{d}'
    ||| c == ' '
    ||| c == '\u{85}'
    ||| c == '\u{a0}'
    ||| c == '\u{1680}'
    ||| '\u{2000}' <= c <= '\u{200a}'
    ||| c == '\u{2028}'
    ||| c == '\u{2029}'
    ||| c == '\u{202f}'
    ||| c == '\u{205f}'
    ||| c == '\u{3000}'
}

/// Whether `c` has Unicode's `White_Space` property.
pub fn is_whitespace(c: char) -> (space: bool)
    ensures
        space == is_space(c),
{
    ('\u{9}' <= c && c <= '\u{d}') || c == ' ' || c == '\u{85}' || c == '\u{a0}' || c == '\u{1680}'
        || ('\u{2000}' <= c && c <= '\u{200a}') || c == '\u{2028}' || c == '\u{2029}' || c
        == '\u{202f}' || c == '\u{205f}' || c == '\u{3000}'
}

/// Whether `c` is an ASCII decimal digit.
pub open spec fn is_digit(c: char) -> bool {
    '0' <= c <= '9'
}

/// Whether `c` is an ASCII letter or decimal digit.
pub open spec fn is_alphanumeric(c: char) -> bool {
    'a' <= c <= 'z' || 'A' <= c <= 'Z' || is_digit(c)
}

/// Whether `c` is an ASCII hexadecimal digit.
pub open spec fn is_hex_digit(c: char) -> bool {
    is_digit(c) || 'a' <= c <= 'f' || 'A' <= c <= 'F'
}

/// Whether `c` is an ASCII letter or decimal digit.
pub fn is_ascii_alphanumeric(c: char) -> (yes: bool)
    ensures
        yes == is_alphanumeric(c),
{
    ('a' <= c && c <= 'z') || ('A' <= c && c <= 'Z') || ('0' <= c && c <= '9')
}

/// Whether `c` is an ASCII hexadecimal digit.
pub fn is_ascii_hexdigit(c: char) -> (yes: bool)
    ensures
        yes == is_hex_digit(c),
{
    ('0' <= c && c <= '9') || ('a' <= c && c <= 'f') || ('A' <= c && c <= 'F')
}

/// `c` in lower case, where it is an ASCII letter.
pub open spec fn lower_char(c: char) -> char {
    if 'A' <= c <= 'Z' {
        ((c as u32) + 32) as char
    } else {
        c
    }
}

/// `s` with its ASCII letters in lower case.
pub open spec fn lower(s: Seq<char>) -> Seq<char> {
    Seq::new(s.len(), |i: int| lower_char(s[i]))
}

fn lower_of(c: char) -> (result: char)
    ensures
        result == lower_char(c),
{
    match c {
        'A' => 'a',
        'B' => 'b',
        'C' => 'c',
        'D' => 'd',
        'E' => 'e',
        'F' => 'f',
        'G' => 'g',
        'H' => 'h',
        'I' => 'i',
        'J' => 'j',
        'K' => 'k',
        'L' => 'l',
        'M' => 'm',
        'N' => 'n',
        'O' => 'o',
        'P' => 'p',
        'Q' => 'q',
        'R' => 'r',
        'S' => 's',
        'T' => 't',
        'U' => 'u',
        'V' => 'v',
        'W' => 'w',
        'X' => 'x',
        'Y' => 'y',
        'Z' => 'z',
        _ => c,
    }
}

/// `s` with its ASCII letters in lower case.
pub fn to_ascii_lowercase(s: &str) -> (result: String)
    ensures
        result@ == lower(s@),
{
    let chars = chars_of(s);
    let mut result: String = String::new();
    let mut i: usize = 0;
    while i < chars.len()
        invariant
            i <= chars@.len(),
            chars@ == s@,
            result@ == lower(s@).take(i as int),
        decreases chars@.len() - i,
    {
        result.push(lower_of(chars[i]));
        assert(lower(s@).take(i + 1) =~= lower(s@).take(i as int).push(lower_char(s@[i as int])));
        i += 1;
    }
    assert(lower(s@).take(i as int) =~= lower(s@));
    result
}

// Trimming

/// `s` without the white space at its front.
pub open spec fn trimmed_front(s: Seq<char>) -> Seq<char>
    decreases s.len(),
{
    if s.len() > 0 && is_space(s[0]) {
        trimmed_front(s.skip(1))
    } else {
        s
    }
}

/// `s` without the white space at its back.
pub open spec fn trimmed_back(s: Seq<char>) -> Seq<char>
    decreases s.len(),
{
    if s.len() > 0 && is_space(s.last()) {
        trimmed_back(s.drop_last())
    } else {
        s
    }
}

/// `s` without the white space at either end.
pub open spec fn trimmed(s: Seq<char>) -> Seq<char> {
    trimmed_back(trimmed_front(s))
}

/// The bounds of what is left of `chars[start..end]` once the white space at both ends is gone.
pub fn trim_range(chars: &[char], start: usize, end: usize) -> (bounds: (usize, usize))
    requires
        start <= end <= chars@.len(),
    ensures
        start <= bounds.0 <= bounds.1 <= end,
        chars@.subrange(bounds.0 as int, bounds.1 as int) == trimmed(
            chars@.subrange(start as int, end as int),
        ),
{
    let ghost whole = chars@.subrange(start as int, end as int);
    let mut a: usize = start;
    while a < end && is_whitespace(chars[a])
        invariant
            start <= a <= end <= chars@.len(),
            trimmed_front(whole) == trimmed_front(chars@.subrange(a as int, end as int)),
        decreases end - a,
    {
        assert(chars@.subrange(a as int, end as int).skip(1) =~= chars@.subrange(a + 1, end as int));
        a += 1;
    }
    let ghost front = chars@.subrange(a as int, end as int);
    assert(trimmed_front(whole) == front);
    let mut b: usize = end;
    while a < b && is_whitespace(chars[b - 1])
        invariant
            a <= b <= end <= chars@.len(),
            trimmed_back(front) == trimmed_back(chars@.subrange(a as int, b as int)),
        decreases b - a,
    {
        assert(chars@.subrange(a as int, b as int).drop_last() =~= chars@.subrange(a as int, b - 1));
        b -= 1;
    }
    (a, b)
}

/// `s` without the white space at either end.
pub fn trim(s: &str) -> (result: String)
    ensures
        result@ == trimmed(s@),
{
    let chars = chars_of(s);
    let (a, b) = trim_range(&chars, 0, chars.len());
    assert(chars@.subrange(0, chars@.len() as int) =~= chars@);
    let mut result: String = String::new();
    push_range(&mut result, &chars, a, b);
    assert(result@ =~= trimmed(s@));
    result
}

// Numbers

/// The decimal digit `d`.
pub open spec fn digit_char(d: nat) -> char {
    if d == 0 { '0' } else if d == 1 { '1' } else if d == 2 { '2' } else if d == 3 { '3' }
    else if d == 4 { '4' } else if d == 5 { '5' } else if d == 6 { '6' } else if d == 7 { '7' }
    else if d == 8 { '8' } else { '9' }
}

/// `n` written in decimal.
pub open spec fn decimal(n: nat) -> Seq<char>
    decreases n,
{
    if n < 10 {
        seq![digit_char(n)]
    } else {
        decimal(n / 10).push(digit_char(n % 10))
    }
}

fn digit(d: u64) -> (c: char)
    requires
        d < 10,
    ensures
        c == digit_char(d as nat),
{
    match d {
        0 => '0',
        1 => '1',
        2 => '2',
        3 => '3',
        4 => '4',
        5 => '5',
        6 => '6',
        7 => '7',
        8 => '8',
        _ => '9',
    }
}

/// `n` written in decimal.
pub fn decimal_text(n: u64) -> (s: String)
    ensures
        s@ == decimal(n as nat),
    decreases n,
{
    if n < 10 {
        let mut s: String = String::new();
        s.push(digit(n));
        assert(s@ =~= seq![digit_char(n as nat)]);
        s
    } else {
        let mut s = decimal_text(n / 10);
        s.push(digit(n % 10));
        s
    }
}

// Splitting and joining

/// What the strings of a list hold.
pub open spec fn texts(list: Seq<String>) -> Seq<Seq<char>> {
    Seq::new(list.len(), |i: int| list[i]@)
}

/// The parts of `s` between the separators.
pub open spec fn split_at_each(s: Seq<char>, separator: char) -> Seq<Seq<char>>
    decreases s.len(),
{
    if s.len() == 0 {
        seq![Seq::empty()]
    } else {
        let before = split_at_each(s.drop_last(), separator);
        if s.last() == separator {
            before.push(Seq::empty())
        } else {
            before.drop_last().push(before.last().push(s.last()))
        }
    }
}

/// `parts` one after the other, with the separator between them.
pub open spec fn joined(parts: Seq<Seq<char>>, separator: Seq<char>) -> Seq<char>
    decreases parts.len(),
{
    if parts.len() == 0 {
        Seq::empty()
    } else if parts.len() == 1 {
        parts[0]
    } else {
        joined(parts.drop_last(), separator) + separator + parts.last()
    }
}

/// The parts of `s` between the separators.
pub fn split(s: &str, separator: char) -> (parts: Vec<String>)
    ensures
        texts(parts@) == split_at_each(s@, separator),
        parts@.len() > 0,
{
    let chars = chars_of(s);
    let mut parts: Vec<String> = Vec::new();
    let mut current: String = String::new();
    let mut i: usize = 0;
    assert(texts(parts@).push(current@) =~= split_at_each(chars@.take(0), separator));
    while i < chars.len()
        invariant
            i <= chars@.len(),
            texts(parts@).push(current@) == split_at_each(chars@.take(i as int), separator),
        decreases chars@.len() - i,
    {
        let ghost before = texts(parts@).push(current@);
        let ghost list = parts@;
        assert(chars@.take(i + 1).drop_last() =~= chars@.take(i as int));
        assert(before.drop_last() =~= texts(parts@));
        if chars[i] == separator {
            parts.push(current);
            current = String::new();
            assert(texts(parts@) =~= texts(list).push(parts@.last()@));
            assert(texts(parts@).push(current@) =~= before.push(Seq::empty()));
        } else {
            current.push(chars[i]);
        }
        i += 1;
    }
    assert(chars@.take(i as int) =~= s@);
    let ghost list = parts@;
    parts.push(current);
    assert(texts(parts@) =~= texts(list).push(parts@.last()@));
    parts
}

/// `parts` one after the other, with the separator between them.
pub fn join(parts: &[String], separator: &str) -> (s: String)
    ensures
        s@ == joined(texts(parts@), separator@),
{
    let mut s: String = String::new();
    let mut i: usize = 0;
    while i < parts.len()
        invariant
            i <= parts@.len(),
            s@ == joined(texts(parts@).take(i as int), separator@),
        decreases parts@.len() - i,
    {
        let ghost all = texts(parts@);
        assert(all.take(i + 1).drop_last() =~= all.take(i as int));
        if i > 0 {
            s.append(separator);
        }
        s.append(parts[i].as_str());
        assert(s@ =~= joined(all.take(i + 1), separator@));
        i += 1;
    }
    assert(texts(parts@).take(i as int) =~= texts(parts@));
    s
}

/// A text that is split and joined again by the same separator is itself.
pub proof fn joining_undoes_splitting(s: Seq<char>, separator: char)
    ensures
        split_at_each(s, separator).len() > 0,
        joined(split_at_each(s, separator), seq![separator]) == s,
    decreases s.len(),
{
    if s.len() > 0 {
        let before = split_at_each(s.drop_last(), separator);
        joining_undoes_splitting(s.drop_last(), separator);
        let parts = split_at_each(s, separator);
        if s.last() == separator {
            assert(parts.drop_last() =~= before);
            assert(joined(parts, seq![separator]) =~= s.drop_last().push(separator));
        } else {
            assert(parts.drop_last() =~= before.drop_last());
            assert(joined(parts, seq![separator]) =~= joined(before, seq![separator]).push(
                s.last(),
            ));
        }
        assert(s.drop_last().push(s.last()) =~= s);
    }
}

// Reading numbers

/// Why a text is no number.
#[derive(Debug, Clone, Copy, PartialEq, Eq, Structural)]
pub enum NumberError {
    Empty,
    InvalidDigit,
    TooLarge,
}

impl NumberError {
    /// The text that describes the error.
    pub open spec fn text(self) -> Seq<char> {
        match self {
            NumberError::Empty => "cannot parse integer from empty string"@,
            NumberError::InvalidDigit => "invalid digit found in string"@,
            NumberError::TooLarge => "number too large to fit in target type"@,
        }
    }

    /// The text that describes the error.
    pub fn message(self) -> (text: &'static str)
        ensures
            text@ == self.text(),
    {
        match self {
            NumberError::Empty => "cannot parse integer from empty string",
            NumberError::InvalidDigit => "invalid digit found in string",
            NumberError::TooLarge => "number too large to fit in target type",
        }
    }
}

/// The number that the digits of `s` write, read from the left. The first character that is no
/// digit, or that makes the number larger than `max`, is the error.
pub open spec fn digits_value(s: Seq<char>, max: nat) -> Result<nat, NumberError>
    decreases s.len(),
{
    if s.len() == 0 {
        Ok(0)
    } else {
        match digits_value(s.drop_last(), max) {
            Err(error) => Err(error),
            Ok(value) => if !is_digit(s.last()) {
                Err(NumberError::InvalidDigit)
            } else if value * 10 + (s.last() as nat - '0' as nat) > max {
                Err(NumberError::TooLarge)
            } else {
                Ok((value * 10 + (s.last() as nat - '0' as nat)) as nat)
            },
        }
    }
}

/// The number up to `max` that `s` writes in decimal, with or without a plus sign.
pub open spec fn number_value(s: Seq<char>, max: nat) -> Result<nat, NumberError> {
    if s.len() == 0 {
        Err(NumberError::Empty)
    } else if s[0] == '+' {
        if s.len() == 1 {
            Err(NumberError::InvalidDigit)
        } else {
            digits_value(s.skip(1), max)
        }
    } else {
        digits_value(s, max)
    }
}

proof fn lemma_digits_error_stays(s: Seq<char>, max: nat, n: int)
    requires
        0 <= n <= s.len(),
        digits_value(s.take(n), max) is Err,
    ensures
        digits_value(s, max) == digits_value(s.take(n), max),
    decreases s.len() - n,
{
    if n < s.len() {
        assert(s.take(n + 1).drop_last() =~= s.take(n));
        lemma_digits_error_stays(s, max, n + 1);
    } else {
        assert(s.take(n) =~= s);
    }
}

/// Reads a number up to `max` in decimal, with or without a plus sign.
pub fn parse_number(s: &str, max: u64) -> (result: Result<u64, NumberError>)
    ensures
        match result {
            Ok(value) => number_value(s@, max as nat) == Ok::<nat, NumberError>(value as nat),
            Err(error) => number_value(s@, max as nat) == Err::<nat, NumberError>(error),
        },
{
    let chars = chars_of(s);
    if chars.len() == 0 {
        return Err(NumberError::Empty);
    }
    let start: usize = if chars[0] == '+' {
        1
    } else {
        0
    };
    if start == 1 && chars.len() == 1 {
        return Err(NumberError::InvalidDigit);
    }
    let ghost digits = s@.skip(start as int);
    assert(start == 0 ==> digits =~= s@);
    let mut value: u64 = 0;
    let mut i: usize = start;
    while i < chars.len()
        invariant
            start <= i <= chars@.len(),
            chars@ == s@,
            digits == s@.skip(start as int),
            value <= max,
            number_value(s@, max as nat) == digits_value(digits, max as nat),
            digits_value(digits.take(i - start), max as nat) == Ok::<nat, NumberError>(
                value as nat,
            ),
        decreases chars@.len() - i,
    {
        let c = chars[i];
        let ghost n = i - start;
        assert(digits.take(n + 1).drop_last() =~= digits.take(n));
        assert(digits.take(n + 1).last() == c);
        if c < '0' || c > '9' {
            proof {
                lemma_digits_error_stays(digits, max as nat, n + 1);
            }
            return Err(NumberError::InvalidDigit);
        }
        let d: u64 = c as u64 - '0' as u64;
        if d > max || value > (max - d) / 10 {
            proof {
                lemma_digits_error_stays(digits, max as nat, n + 1);
            }
            return Err(NumberError::TooLarge);
        }
        value = value * 10 + d;
        i += 1;
    }
    assert(digits.take(i - start) =~= digits);
    Ok(value)
}

/// A number that is written in decimal and read again is itself.
pub proof fn reading_undoes_writing(n: nat, max: nat)
    requires
        n <= max,
    ensures
        number_value(decimal(n), max) == Ok::<nat, NumberError>(n),
{
    lemma_decimal_digits(n, max);
}

/// A number in decimal is made of digits, and two numbers are never written alike.
pub proof fn decimals_tell_numbers_apart(n: nat, other: nat)
    ensures
        decimal(n).len() > 0,
        forall|k: int| 0 <= k < decimal(n).len() ==> is_digit(#[trigger] decimal(n)[k]),
        decimal(n) == decimal(other) ==> n == other,
    decreases n,
{
    if n >= 10 {
        decimals_tell_numbers_apart(n / 10, other);
        assert forall|k: int| 0 <= k < decimal(n).len() implies is_digit(
            #[trigger] decimal(n)[k],
        ) by {
            if k < decimal(n / 10).len() {
                assert(decimal(n)[k] == decimal(n / 10)[k]);
            }
        }
    }
    let max = if n >= other {
        n
    } else {
        other
    };
    reading_undoes_writing(n, max);
    reading_undoes_writing(other, max);
}

proof fn lemma_decimal_digits(n: nat, max: nat)
    requires
        n <= max,
    ensures
        decimal(n).len() > 0,
        is_digit(decimal(n)[0]),
        digits_value(decimal(n), max) == Ok::<nat, NumberError>(n),
    decreases n,
{
    let d = n % 10;
    assert(is_digit(digit_char(d)) && digit_char(d) as nat - '0' as nat == d);
    if n < 10 {
        assert(decimal(n).drop_last() =~= Seq::<char>::empty());
        assert(digits_value(decimal(n).drop_last(), max) == Ok::<nat, NumberError>(0));
    } else {
        lemma_decimal_digits(n / 10, max);
        assert(decimal(n).drop_last() =~= decimal(n / 10));
    }
}

/// Trimming takes the white space at both ends, all of it and nothing else.
pub proof fn trimming_takes_the_space_at_both_ends(front: Seq<char>, s: Seq<char>, back: Seq<char>)
    requires
        forall|i: int| 0 <= i < front.len() ==> is_space(#[trigger] front[i]),
        forall|i: int| 0 <= i < back.len() ==> is_space(#[trigger] back[i]),
        s.len() > 0 ==> !is_space(s[0]) && !is_space(s.last()),
    ensures
        trimmed(front + s + back) == s,
    decreases front.len() + back.len(),
{
    let all = front + s + back;
    if front.len() > 0 {
        trimming_takes_the_space_at_both_ends(front.skip(1), s, back);
        assert(all.skip(1) =~= front.skip(1) + s + back);
        assert(all[0] == front[0]);
    } else if s.len() > 0 {
        assert(all[0] == s[0]);
        if back.len() > 0 {
            trimming_takes_the_space_at_both_ends(front, s, back.drop_last());
            assert(all.drop_last() =~= front + s + back.drop_last());
            assert(all.last() == back.last());
            assert((front + s + back.drop_last())[0] == s[0]);
        } else {
            assert(all =~= s);
        }
    } else {
        lemma_space_is_trimmed(all);
        assert(s =~= Seq::<char>::empty());
    }
}

proof fn lemma_space_is_trimmed(s: Seq<char>)
    requires
        forall|i: int| 0 <= i < s.len() ==> is_space(#[trigger] s[i]),
    ensures
        trimmed_front(s) == Seq::<char>::empty(),
        trimmed(s) == Seq::<char>::empty(),
    decreases s.len(),
{
    if s.len() > 0 {
        lemma_space_is_trimmed(s.skip(1));
    } else {
        assert(s =~= Seq::<char>::empty());
    }
}

/// Spaces, tabs and line ends are white space; letters, digits and marks of ASCII are not.
pub proof fn white_space_is_what_separates_words(c: char)
    ensures
        is_space(' ') && is_space('\t') && is_space('\n') && is_space('\r'),
        '!' <= c <= '~' ==> !is_space(c),
{
}

/// Lower case keeps the length and every character but the capitals of ASCII, each of which it
/// turns into its small letter; once is enough.
pub proof fn lower_case_changes_capitals_alone(s: Seq<char>, i: int)
    requires
        0 <= i < s.len(),
    ensures
        lower(s).len() == s.len(),
        'A' <= s[i] <= 'Z' ==> lower(s)[i] as int == s[i] as int + 'a' as int - 'A' as int,
        !('A' <= s[i] <= 'Z') ==> lower(s)[i] == s[i],
        lower(lower(s)) == lower(s),
{
    assert(lower(lower(s)) =~= lower(s));
}

/// No part of a split text holds the separator, and there is always a part.
pub proof fn parts_hold_no_separator(s: Seq<char>, separator: char)
    ensures
        split_at_each(s, separator).len() > 0,
        forall|i: int, k: int|
            0 <= i < split_at_each(s, separator).len() && 0 <= k < split_at_each(
                s,
                separator,
            )[i].len() ==> #[trigger] split_at_each(s, separator)[i][k] != separator,
    decreases s.len(),
{
    if s.len() > 0 {
        parts_hold_no_separator(s.drop_last(), separator);
        let before = split_at_each(s.drop_last(), separator);
        let parts = split_at_each(s, separator);
        assert forall|i: int, k: int|
            0 <= i < parts.len() && 0 <= k < parts[i].len() implies #[trigger] parts[i][k]
            != separator by {
            if s.last() == separator {
                if i < before.len() {
                    assert(parts[i][k] == before[i][k]);
                }
            } else if i < before.len() - 1 {
                assert(parts[i][k] == before[i][k]);
            } else if k < before.last().len() {
                assert(parts[i][k] == before[i][k]);
            }
        }
    }
}

/// Of two checks the first that fails is reported, and none where both pass.
pub proof fn the_first_failure_is_reported(first: Option<Seq<char>>, second: Option<Seq<char>>)
    ensures
        first is Some ==> or_else(first, second) == first,
        first is None ==> or_else(first, second) == second,
{
}

/// Where one character is replaced by another, every character of the text stays in its place,
/// and changes only where it is the one to replace.
pub proof fn replacing_a_character_changes_it_alone(text: Seq<char>, from: char, to: char)
    ensures
        replaced(text, seq![from], seq![to]).len() == text.len(),
        forall|k: int|
            0 <= k < text.len() ==> #[trigger] replaced(text, seq![from], seq![to])[k]
                == if text[k] == from {
                to
            } else {
                text[k]
            },
    decreases text.len(),
{
    let needle = seq![from];
    assert forall|j: int| #[trigger] stands_at(text, needle, j) <==> (0 <= j < text.len()
        && text[j] == from) by {
        if 0 <= j < text.len() {
            assert(text.subrange(j, j + 1) =~= seq![text[j]]);
            assert(seq![text[j]][0] == text[j]);
            assert(needle[0] == from);
        }
    }
    text.index_of_first_ensures(from);
    match text.index_of_first(from) {
        Some(i) => {
            assert(text[i] == from);
            assert forall|j: int| 0 <= j < i implies !#[trigger] stands_at(text, needle, j) by {
                assert(!text.take(i).contains(from));
                assert(text.take(i)[j] == text[j]);
            }
            lemma_replaced_step(text, needle, seq![to], i);
            replacing_a_character_changes_it_alone(text.skip(i + 1), from, to);
            let result = replaced(text, needle, seq![to]);
            let rest = replaced(text.skip(i + 1), needle, seq![to]);
            assert forall|k: int| 0 <= k < text.len() implies #[trigger] result[k] == if text[k]
                == from {
                to
            } else {
                text[k]
            } by {
                if k < i {
                    assert(!stands_at(text, needle, k));
                } else if k > i {
                    assert(result[k] == rest[k - i - 1]);
                    assert(text.skip(i + 1)[k - i - 1] == text[k]);
                }
            }
        },
        None => {
            assert forall|j: int| !#[trigger] stands_at(text, needle, j) by {
                if 0 <= j < text.len() && text[j] == from {
                    assert(text.contains(from));
                }
            }
            lemma_replaced_none(text, needle, seq![to]);
        },
    }
}

/// Texts are joined end to end with the separator between any two of them and nowhere else: one
/// text stands alone, and one more follows behind a separator.
pub proof fn separators_stand_between_texts(
    first: Seq<char>,
    parts: Seq<Seq<char>>,
    last: Seq<char>,
    separator: Seq<char>,
)
    ensures
        joined(Seq::empty(), separator) == Seq::<char>::empty(),
        joined(seq![first], separator) == first,
        parts.len() > 0 ==> joined(parts.push(last), separator) == joined(parts, separator)
            + separator + last,
{
    reveal_with_fuel(joined, 3);
    assert(seq![first].drop_last() =~= Seq::<Seq<char>>::empty());
    assert(parts.push(last).drop_last() =~= parts);
}

/// Where a text stands between two others, the end of the first and the start of the second occur
/// around it.
pub proof fn lemma_parts_occur(
    page: Seq<char>,
    at: int,
    before: Seq<char>,
    part: Seq<char>,
    after: Seq<char>,
    start: Seq<char>,
    end: Seq<char>,
)
    requires
        0 <= at,
        at + before.len() + part.len() + after.len() <= page.len(),
        page.subrange(at, at + before.len() + part.len() + after.len()) == before + part + after,
        start.len() <= before.len(),
        end.len() <= after.len(),
        before.skip(before.len() - start.len()) == start,
        after.take(end.len() as int) == end,
    ensures
        occurs_in(start + part + end, page),
{
    let whole = before + part + after;
    let needle = start + part + end;
    let from = before.len() - start.len();
    assert forall|k: int| 0 <= k < needle.len() implies page[at + from + k] == needle[k] by {
        assert(page.subrange(at, at + whole.len())[from + k] == whole[from + k]);
        if k < start.len() {
            assert(before.skip(from)[k] == start[k]);
        } else if k >= start.len() + part.len() {
            let m = k - start.len() - part.len();
            assert(after.take(end.len() as int)[m] == end[m]);
        }
    }
    assert(page.subrange(at + from, at + from + needle.len()) =~= needle);
    assert(stands_at(page, needle, at + from));
}

/// Where a text to replace stands for the first time, the other stands in its place, what comes
/// before stays, and what comes behind is replaced in its turn. A text without it stays as it is.
pub proof fn the_first_occurrence_is_replaced(
    front: Seq<char>,
    from: Seq<char>,
    to: Seq<char>,
    back: Seq<char>,
    other: Seq<char>,
)
    requires
        from.len() > 0,
        forall|j: int|
            0 <= j < front.len() ==> !#[trigger] stands_at(front + from + back, from, j),
        !occurs_in(from, other),
    ensures
        replaced(front + from + back, from, to) == front + to + replaced(back, from, to),
        replaced(other, from, to) == other,
{
    let text = front + from + back;
    let i = front.len() as int;
    assert(text.subrange(i, i + from.len()) =~= from);
    lemma_replaced_step(text, from, to, i);
    assert(text.take(i) =~= front);
    assert(text.skip(i + from.len()) =~= back);
    lemma_replaced_none(other, from, to);
}

/// What is trimmed is what Unicode calls white space, and nothing that can be seen is; letters,
/// digits and hexadecimal digits are those of ASCII.
pub proof fn characters_are_told_apart(
    c: char,
    space: bool,
    alphanumeric: bool,
    hexadecimal: bool,
)
    requires
        call_ensures(is_whitespace, (c,), space),
        call_ensures(is_ascii_alphanumeric, (c,), alphanumeric),
        call_ensures(is_ascii_hexdigit, (c,), hexadecimal),
    ensures
        c == ' ' || c == '\t' || c == '\n' || c == '\r' || c == '\u{b}' || c == '\u{c}' ==> space,
        space && c < '\u{80}' ==> c == ' ' || c == '\t' || c == '\n' || c == '\r' || c == '\u{b}'
            || c == '\u{c}',
        c == '\u{85}' || c == '\u{a0}' || c == '\u{1680}' || c == '\u{2028}' || c == '\u{2029}'
            || c == '\u{202f}' || c == '\u{205f}' || c == '\u{3000}' ==> space,
        '\u{2000}' <= c <= '\u{200a}' ==> space,
        c > '\u{3000}' || '\u{a0}' < c < '\u{1680}' || '\u{1680}' < c < '\u{2000}' || '\u{200a}'
            < c < '\u{2028}' ==> !space,
        alphanumeric ==> c < '\u{80}',
        hexadecimal ==> alphanumeric,
        space ==> !alphanumeric,
        '0' <= c <= '9' ==> alphanumeric && hexadecimal,
        'a' <= c <= 'z' || 'A' <= c <= 'Z' ==> alphanumeric,
        'a' <= c <= 'f' || 'A' <= c <= 'F' ==> hexadecimal,
        'g' <= c <= 'z' || 'G' <= c <= 'Z' ==> !hexadecimal,
        c < '0' || '9' < c < 'A' || 'Z' < c < 'a' || 'z' < c ==> !alphanumeric,
{
}

/// A text starts with another where the rest of it follows, ends with it where the rest comes
/// before, and holds it where it stands at some place: at either end, for one.
pub proof fn texts_are_searched_at_their_ends_and_within(
    text: &str,
    part: &str,
    found: bool,
    first: bool,
    last: bool,
)
    requires
        call_ensures(contains, (text, part), found),
        call_ensures(starts_with, (text, part), first),
        call_ensures(ends_with, (text, part), last),
    ensures
        first <==> exists|rest: Seq<char>| text@ == #[trigger] (part@ + rest),
        last <==> exists|rest: Seq<char>| text@ == #[trigger] (rest + part@),
        found <==> exists|before: Seq<char>, after: Seq<char>|
            text@ == #[trigger] (before + part@ + after),
        first || last ==> found,
{
    let size = part@.len() as int;
    if first {
        assert(text@ =~= part@ + text@.skip(size));
        assert(stands_at(text@, part@, 0));
    }
    if exists|rest: Seq<char>| text@ == #[trigger] (part@ + rest) {
        assert(part@ =~= text@.subrange(0, size));
    }
    if last {
        assert(text@ =~= text@.take(text@.len() - size) + part@);
        assert(stands_at(text@, part@, text@.len() - size));
    }
    if exists|rest: Seq<char>| text@ == #[trigger] (rest + part@) {
        assert(part@ =~= text@.subrange(text@.len() - size, text@.len() as int));
    }
    if found {
        let i = choose|i: int| stands_at(text@, part@, i);
        assert(text@ =~= text@.take(i) + part@ + text@.skip(i + size));
    }
    if exists|before: Seq<char>, after: Seq<char>| text@ == #[trigger] (before + part@ + after) {
        let (before, after) = choose|before: Seq<char>, after: Seq<char>|
            text@ == #[trigger] (before + part@ + after);
        assert(text@.subrange(before.len() as int, before.len() + size) =~= part@);
        assert(stands_at(text@, part@, before.len() as int));
    }
}

/// Texts are put together in the order in which they are given, and are the same where every
/// character is.
pub proof fn texts_are_put_together_in_order(
    a: &str,
    b: &str,
    c: &str,
    two: String,
    three: String,
    same: bool,
    chars: Vec<char>,
)
    requires
        call_ensures(join2, (a, b), two),
        call_ensures(join3, (a, b, c), three),
        call_ensures(same_text, (a, b), same),
        call_ensures(chars_of, (a,), chars),
    ensures
        two@.take(a@.len() as int) == a@,
        two@.skip(a@.len() as int) == b@,
        three@ == two@ + c@,
        same <==> a@.len() == b@.len() && forall|i: int|
            0 <= i < a@.len() ==> #[trigger] a@[i] == b@[i],
        chars@ == a@,
{
    assert(two@.take(a@.len() as int) =~= a@);
    assert(two@.skip(a@.len() as int) =~= b@);
    if a@.len() == b@.len() && forall|i: int| 0 <= i < a@.len() ==> #[trigger] a@[i] == b@[i] {
        assert(a@ =~= b@);
    }
}

/// A text that was split can be joined again, and a number that was written can be read.
pub proof fn texts_and_numbers_come_back(
    s: &str,
    separator: char,
    parts: Vec<String>,
    n: u64,
    max: u64,
    written: String,
    shown: &str,
    read: Result<u64, NumberError>,
)
    requires
        n <= max,
        call_ensures(split, (s, separator), parts),
        call_ensures(decimal_text, (n,), written),
        shown@ == written@,
        call_ensures(parse_number, (shown, max), read),
    ensures
        joined(texts(parts@), seq![separator]) == s@,
        forall|i: int| 0 <= i < parts@.len() ==> !(#[trigger] parts@[i])@.contains(separator),
        read == Ok::<u64, NumberError>(n),
{
    joining_undoes_splitting(s@, separator);
    parts_hold_no_separator(s@, separator);
    assert forall|i: int| 0 <= i < parts@.len() implies !(#[trigger] parts@[i])@.contains(
        separator,
    ) by {
        assert(texts(parts@)[i] == parts@[i]@);
        assert forall|k: int| 0 <= k < parts@[i]@.len() implies parts@[i]@[k] != separator by {
            assert(split_at_each(s@, separator)[i][k] != separator);
        }
    }
    reading_undoes_writing(n as nat, max as nat);
}

/// Texts are trimmed, written in lower case and replaced in as the laws above say.
pub proof fn texts_are_changed_by_their_laws(
    s: &str,
    from: &str,
    to: &str,
    trimmed_text: String,
    lowered: String,
    changed: String,
    parts: &[String],
    together: String,
)
    requires
        from@.len() > 0,
        call_ensures(trim, (s,), trimmed_text),
        call_ensures(to_ascii_lowercase, (s,), lowered),
        call_ensures(replace, (s, from, to), changed),
        call_ensures(join, (parts, to), together),
    ensures
        trimmed_text@ == trimmed(s@),
        lowered@ == lower(s@),
        changed@ == replaced(s@, from@, to@),
        together@ == joined(texts(parts@), to@),
{
}

} // verus!
