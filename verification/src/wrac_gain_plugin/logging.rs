//! Where the plugin logs to, and how much.

use vstd::prelude::*;

use crate::text;

verus! {

/// How much is logged: what is at least as severe.
#[derive(Debug, Clone, Copy, PartialEq, Eq, Structural)]
pub enum LevelFilter {
    Off,
    Error,
    Warn,
    Info,
    Debug,
    Trace,
}

/// The part of a text behind the last separator, or the text itself where there is none.
pub open spec fn behind_last(s: Seq<char>, separator: char) -> Seq<char>
    decreases s.len(),
{
    if s.len() == 0 || s.last() == separator {
        Seq::empty()
    } else {
        behind_last(s.drop_last(), separator).push(s.last())
    }
}

/// Where the part behind the last separator of the first `end` characters starts.
fn start_behind_last(chars: &[char], from: usize, separator: char) -> (start: usize)
    requires
        from <= chars@.len(),
    ensures
        from <= start <= chars@.len(),
        chars@.skip(start as int) == behind_last(chars@.skip(from as int), separator),
{
    let mut start: usize = chars.len();
    let ghost whole = chars@.skip(from as int);
    proof {
        lemma_behind_last_suffix(whole, separator, whole.len() as int);
    }
    while start > from && chars[start - 1] != separator
        invariant
            from <= start <= chars@.len(),
            whole == chars@.skip(from as int),
            behind_last(whole, separator) == behind_last(
                whole.take(start - from),
                separator,
            ) + chars@.skip(start as int),
        decreases start,
    {
        start -= 1;
        proof {
            let longer = whole.take(start + 1 - from);
            assert(longer.drop_last() =~= whole.take(start - from));
            assert(longer.last() == chars@[start as int]);
            let shorter = behind_last(whole.take(start - from), separator);
            assert(shorter.push(chars@[start as int]) + chars@.skip(start + 1) =~= shorter
                + chars@.skip(start as int));
        }
    }
    proof {
        let rest = whole.take(start - from);
        assert(behind_last(rest, separator) =~= Seq::<char>::empty());
        assert(Seq::<char>::empty() + chars@.skip(start as int) =~= chars@.skip(start as int));
    }
    start
}

proof fn lemma_behind_last_suffix(s: Seq<char>, separator: char, n: int)
    requires
        n == s.len(),
    ensures
        s.take(n) == s,
        behind_last(s, separator) == behind_last(s.take(n), separator) + Seq::<char>::empty(),
{
    assert(s.take(n) =~= s);
    assert(behind_last(s, separator) + Seq::<char>::empty() =~= behind_last(s, separator));
}

/// The level that a setting asks for: the value of its last directive, in any case and with
/// space around it.
pub open spec fn level_named(setting: Seq<char>) -> Option<LevelFilter> {
    let word = text::lower(text::trimmed(behind_last(behind_last(setting, ','), '=')));
    if word == "off"@ {
        Some(LevelFilter::Off)
    } else if word == "error"@ {
        Some(LevelFilter::Error)
    } else if word == "warn"@ {
        Some(LevelFilter::Warn)
    } else if word == "info"@ {
        Some(LevelFilter::Info)
    } else if word == "debug"@ {
        Some(LevelFilter::Debug)
    } else if word == "trace"@ {
        Some(LevelFilter::Trace)
    } else {
        None
    }
}

/// The level that a setting asks for.
pub fn parse_level_filter(value: &str) -> (level: Option<LevelFilter>)
    ensures
        level == level_named(value@),
{
    let chars = text::chars_of(value);
    assert(chars@.skip(0) =~= chars@);
    let directive: usize = start_behind_last(&chars, 0, ',');
    let start: usize = start_behind_last(&chars, directive, '=');
    let end: usize = chars.len();
    let mut word: String = String::new();
    text::push_range(&mut word, &chars, start, end);
    assert(word@ =~= chars@.skip(start as int));
    let trimmed = text::trim(word.as_str());
    let lowered = text::to_ascii_lowercase(trimmed.as_str());
    let name = lowered.as_str();
    if text::same_text(name, "off") {
        Some(LevelFilter::Off)
    } else if text::same_text(name, "error") {
        Some(LevelFilter::Error)
    } else if text::same_text(name, "warn") {
        Some(LevelFilter::Warn)
    } else if text::same_text(name, "info") {
        Some(LevelFilter::Info)
    } else if text::same_text(name, "debug") {
        Some(LevelFilter::Debug)
    } else if text::same_text(name, "trace") {
        Some(LevelFilter::Trace)
    } else {
        None
    }
}

/// The level to log at: that of the setting, where there is one that names a level.
pub fn initial_level(setting: Option<&str>) -> (level: LevelFilter)
    ensures
        level == match setting {
            Some(value) => match level_named(value@) {
                Some(level) => level,
                None => LevelFilter::Debug,
            },
            None => LevelFilter::Debug,
        },
{
    match setting {
        Some(value) => match parse_level_filter(value) {
            Some(level) => level,
            None => LevelFilter::Debug,
        },
        None => LevelFilter::Debug,
    }
}

// Names of log files

/// Whether a character is a control character.
pub open spec fn is_control(c: char) -> bool {
    (c as u32) < 0x20 || 0x7f <= (c as u32) < 0xa0
}

/// Whether a character can stand in the name of a file on every system.
pub open spec fn is_file_char(c: char) -> bool {
    !is_control(c) && c != '<' && c != '>' && c != ':' && c != '"' && c != '/' && c != '\\' && c
        != '|' && c != '?' && c != '*'
}

fn can_name_file(c: char) -> (yes: bool)
    ensures
        yes == is_file_char(c),
{
    let code: u32 = c as u32;
    let control = code < 0x20 || (0x7f <= code && code < 0xa0);
    !control && c != '<' && c != '>' && c != ':' && c != '"' && c != '/' && c != '\\' && c != '|'
        && c != '?' && c != '*'
}

/// A name with an underscore for every character that no file can have.
pub open spec fn with_file_chars(name: Seq<char>) -> Seq<char> {
    name.map_values(
        |c: char|
            if is_file_char(c) {
                c
            } else {
                '_'
            },
    )
}

/// The stem of the file that is named after something.
pub open spec fn file_stem(name: Seq<char>) -> Seq<char> {
    let stem = text::trimmed(with_file_chars(name));
    if stem.len() == 0 {
        "Plugin"@
    } else {
        stem
    }
}

/// The stem of the file that is named after something.
pub fn sanitize_file_stem(value: &str) -> (stem: String)
    ensures
        stem@ == file_stem(value@),
{
    let chars = text::chars_of(value);
    let mut replaced: String = String::new();
    let mut i: usize = 0;
    while i < chars.len()
        invariant
            i <= chars@.len(),
            chars@ == value@,
            replaced@ == with_file_chars(value@).take(i as int),
        decreases chars@.len() - i,
    {
        let c = chars[i];
        replaced.push(
            if can_name_file(c) {
                c
            } else {
                '_'
            },
        );
        i += 1;
        assert(replaced@ =~= with_file_chars(value@).take(i as int));
    }
    assert(replaced@ =~= with_file_chars(value@));
    let stem = text::trim(replaced.as_str());
    if stem.as_str().is_empty() {
        "Plugin".to_owned()
    } else {
        stem
    }
}

/// The name of the file that an application logs to.
pub fn log_file_name(app_name: &str) -> (name: String)
    ensures
        name@ == file_stem(app_name@) + " Latest.log"@,
{
    let stem = sanitize_file_stem(app_name);
    text::join2(stem.as_str(), " Latest.log")
}

/// Whether every character of a name can stand in the name of a file on every system.
pub open spec fn names_file(name: Seq<char>) -> bool {
    forall|i: int| 0 <= i < name.len() ==> is_file_char(#[trigger] name[i])
}

/// No stem holds a character that a file cannot have, and none is empty.
pub proof fn stems_name_files(name: Seq<char>)
    ensures
        file_stem(name).len() > 0,
        names_file(file_stem(name)),
{
    reveal_strlit("Plugin");
    lemma_trimmed_front_chars(with_file_chars(name));
    lemma_trimmed_back_chars(text::trimmed_front(with_file_chars(name)));
}

proof fn lemma_trimmed_front_chars(s: Seq<char>)
    requires
        names_file(s),
    ensures
        names_file(text::trimmed_front(s)),
    decreases s.len(),
{
    if s.len() > 0 && text::is_space(s[0]) {
        lemma_trimmed_front_chars(s.skip(1));
    }
}

proof fn lemma_trimmed_back_chars(s: Seq<char>)
    requires
        names_file(s),
    ensures
        names_file(text::trimmed_back(s)),
    decreases s.len(),
{
    if s.len() > 0 && text::is_space(s.last()) {
        lemma_trimmed_back_chars(s.drop_last());
    }
}

proof fn lemma_behind_last_of_tail(front: Seq<char>, tail: Seq<char>, separator: char)
    requires
        !tail.contains(separator),
    ensures
        behind_last(tail, separator) == tail,
        behind_last(front.push(separator) + tail, separator) == tail,
    decreases tail.len(),
{
    let whole = front.push(separator) + tail;
    if tail.len() == 0 {
        assert(whole.last() == separator);
        assert(tail =~= Seq::<char>::empty());
    } else {
        assert(tail.contains(tail.last()));
        assert forall|c: char| tail.drop_last().contains(c) implies tail.contains(c) by {
            let k = tail.drop_last().index_of(c);
            assert(tail[k] == c);
        }
        lemma_behind_last_of_tail(front, tail.drop_last(), separator);
        assert(whole.drop_last() =~= front.push(separator) + tail.drop_last());
        assert(whole.last() == tail.last());
        assert(tail.drop_last().push(tail.last()) =~= tail);
    }
}

/// Where a setting has several directives the last one counts, and of a directive for some
/// target the part behind the last equals sign.
pub proof fn the_last_directive_counts(others: Seq<char>, target: Seq<char>, level: Seq<char>)
    requires
        !level.contains(','),
        !level.contains('='),
        !target.contains(','),
    ensures
        level_named(others.push(',') + level) == level_named(level),
        level_named(target.push('=') + level) == level_named(level),
        level_named(others.push(',') + (target.push('=') + level)) == level_named(level),
{
    lemma_behind_last_of_tail(others, level, ',');
    lemma_behind_last_of_tail(target, level, '=');
    let directive = target.push('=') + level;
    assert(!directive.contains(',')) by {
        assert forall|i: int| 0 <= i < directive.len() implies directive[i] != ',' by {
            if i < target.len() {
                assert(target.contains(target[i]));
            } else if i > target.len() {
                assert(level.contains(level[i - target.len() - 1]));
            }
        }
    }
    lemma_behind_last_of_tail(others, directive, ',');
}

/// A level is named by its own word, whatever the case of its letters and the space around it,
/// and by no other word.
pub proof fn levels_are_found_by_name(front: Seq<char>, word: Seq<char>, back: Seq<char>)
    requires
        forall|i: int| 0 <= i < front.len() ==> text::is_space(#[trigger] front[i]),
        forall|i: int| 0 <= i < back.len() ==> text::is_space(#[trigger] back[i]),
        word.len() > 0 ==> !text::is_space(word[0]) && !text::is_space(word.last()),
        !word.contains(','),
        !word.contains('='),
    ensures
        level_named(front + word + back) == Some(LevelFilter::Off) <==> text::lower(word) == "off"@,
        level_named(front + word + back) == Some(LevelFilter::Error) <==> text::lower(word)
            == "error"@,
        level_named(front + word + back) == Some(LevelFilter::Warn) <==> text::lower(word)
            == "warn"@,
        level_named(front + word + back) == Some(LevelFilter::Info) <==> text::lower(word)
            == "info"@,
        level_named(front + word + back) == Some(LevelFilter::Debug) <==> text::lower(word)
            == "debug"@,
        level_named(front + word + back) == Some(LevelFilter::Trace) <==> text::lower(word)
            == "trace"@,
{
    reveal_strlit("off");
    reveal_strlit("error");
    reveal_strlit("warn");
    reveal_strlit("info");
    reveal_strlit("debug");
    reveal_strlit("trace");
    assert("off"@.len() == 3 && "warn"@.len() == 4 && "info"@.len() == 4);
    assert("error"@.len() == 5 && "debug"@.len() == 5 && "trace"@.len() == 5);
    assert("warn"@[0] != "info"@[0]);
    assert("error"@[0] != "debug"@[0]);
    assert("error"@[0] != "trace"@[0]);
    assert("debug"@[0] != "trace"@[0]);
    let all = front + word + back;
    assert forall|c: char| (c == ',' || c == '=') implies !all.contains(c) by {
        assert forall|i: int| 0 <= i < all.len() implies all[i] != c by {
            if i < front.len() {
                assert(text::is_space(front[i]));
            } else if i < front.len() + word.len() {
                assert(word.contains(word[i - front.len()]));
            } else {
                assert(text::is_space(back[i - front.len() - word.len()]));
            }
        }
    }
    lemma_behind_last_of_tail(Seq::empty(), all, ',');
    lemma_behind_last_of_tail(Seq::empty(), all, '=');
    text::trimming_takes_the_space_at_both_ends(front, word, back);
}

/// A setting that names no level, or that is missing, leaves the level at debug; any other sets
/// the level that it names.
pub proof fn settings_that_name_nothing_leave_the_default(
    setting: &str,
    named: Option<LevelFilter>,
    level: LevelFilter,
    otherwise: LevelFilter,
)
    requires
        call_ensures(parse_level_filter, (setting,), named),
        call_ensures(initial_level, (Some(setting),), level),
        call_ensures(initial_level, (None,), otherwise),
    ensures
        otherwise is Debug,
        named is None ==> level is Debug,
        named matches Some(asked) ==> level == asked,
{
}

/// No log file has a name with a character that separates paths or that some system keeps for
/// itself, and a name that has none, and no space around it, is kept as it is.
pub proof fn log_files_are_named_after_the_application(name: &str, file: String, i: int)
    requires
        call_ensures(log_file_name, (name,), file),
    ensures
        " Latest.log"@.is_suffix_of(file@),
        file@.len() > " Latest.log"@.len(),
        0 <= i < file@.len() ==> {
            let c = file@[i];
            &&& c != '<' && c != '>' && c != ':' && c != '"' && c != '/' && c != '\\'
            &&& c != '|' && c != '?' && c != '*'
            &&& c as u32 >= 0x20 && c as u32 != 0x7f
        },
        name@.len() > 0 && !text::is_space(name@[0]) && !text::is_space(name@.last()) && (forall|
            k: int,
        |
            0 <= k < name@.len() ==> is_file_char(#[trigger] name@[k])) ==> file@ == name@
            + " Latest.log"@,
{
    stems_name_files(name@);
    reveal_strlit(" Latest.log");
    let stem = file_stem(name@);
    if 0 <= i < file@.len() {
        if i < stem.len() {
            assert(is_file_char(stem[i]));
            assert(file@[i] == stem[i]);
        } else {
            assert(file@[i] == " Latest.log"@[i - stem.len()]);
        }
    }
    assert(" Latest.log"@ =~= file@.subrange(stem.len() as int, file@.len() as int));
    if name@.len() > 0 && !text::is_space(name@[0]) && !text::is_space(name@.last()) && (forall|
        k: int,
    |
        0 <= k < name@.len() ==> is_file_char(#[trigger] name@[k])) {
        assert(with_file_chars(name@) =~= name@);
        text::trimming_takes_the_space_at_both_ends(Seq::empty(), name@, Seq::empty());
        assert(Seq::<char>::empty() + name@ + Seq::<char>::empty() =~= name@);
    }
}

/// A character that no file can have becomes an underscore, and every other stays.
pub proof fn files_replace_what_they_cannot_have(name: Seq<char>, i: int)
    requires
        0 <= i < name.len(),
    ensures
        with_file_chars(name).len() == name.len(),
        name[i] == '/' || name[i] == '\\' || name[i] == ':' || name[i] == '*' || name[i] == '?'
            || name[i] == '"' || name[i] == '<' || name[i] == '>' || name[i] == '|' || (
        name[i] as u32) < 0x20 || 0x7f <= (name[i] as u32) < 0xa0 ==> with_file_chars(name)[i] == '_',
        with_file_chars(name)[i] == '_' || with_file_chars(name)[i] == name[i],
        'a' <= name[i] <= 'z' || 'A' <= name[i] <= 'Z' || '0' <= name[i] <= '9' || name[i] == ' '
            || name[i] == '-' || name[i] == '.' || (name[i] as u32) >= 0xa0 ==> with_file_chars(
            name,
        )[i] == name[i],
{
}

} // verus!
