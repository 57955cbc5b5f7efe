//! The component ids that a VST3 bundle shows to its hosts.

use vstd::prelude::*;

use crate::text::{
    chars_of, error_of, find_from, first_position, is_ascii_hexdigit, is_hex_digit, join, join3,
    joined, lemma_first_position, lower, lower_char, occurs_in, push_range, same_text, split, split_at_each, stands_at, texts,
};
use crate::wrac_xtask::metadata::PluginMetadata;

verus! {

/// A hexadecimal digit in upper case.
pub open spec fn upper_digit(c: char) -> char {
    if c == 'a' {
        'A'
    } else if c == 'b' {
        'B'
    } else if c == 'c' {
        'C'
    } else if c == 'd' {
        'D'
    } else if c == 'e' {
        'E'
    } else if c == 'f' {
        'F'
    } else {
        c
    }
}

fn to_upper_digit(c: char) -> (result: char)
    ensures
        result == upper_digit(c),
{
    match c {
        'a' => 'A',
        'b' => 'B',
        'c' => 'C',
        'd' => 'D',
        'e' => 'E',
        'f' => 'F',
        _ => c,
    }
}

/// The hexadecimal digits of `s`, in upper case.
pub open spec fn hex_digits(s: Seq<char>) -> Seq<char>
    decreases s.len(),
{
    if s.len() == 0 {
        Seq::empty()
    } else if is_hex_digit(s.last()) {
        hex_digits(s.drop_last()).push(upper_digit(s.last()))
    } else {
        hex_digits(s.drop_last())
    }
}

/// A component id in its normal form: its hexadecimal digits, in upper case.
pub fn normalize_vst3_cid(value: &str) -> (cid: String)
    ensures
        cid@ == hex_digits(value@),
{
    let chars = chars_of(value);
    let mut cid: String = String::new();
    let mut i: usize = 0;
    while i < chars.len()
        invariant
            i <= chars@.len(),
            cid@ == hex_digits(chars@.take(i as int)),
        decreases chars@.len() - i,
    {
        assert(chars@.take(i + 1).drop_last() =~= chars@.take(i as int));
        if is_ascii_hexdigit(chars[i]) {
            cid.push(to_upper_digit(chars[i]));
        }
        i += 1;
    }
    assert(chars@.take(i as int) =~= value@);
    cid
}

/// A normal form holds only digits and the letters A to F, and is its own normal form.
pub proof fn normal_form_is_normal(s: Seq<char>)
    ensures
        forall|i: int|
            0 <= i < hex_digits(s).len() ==> is_hex_digit(#[trigger] hex_digits(s)[i])
                && upper_digit(hex_digits(s)[i]) == hex_digits(s)[i],
        hex_digits(hex_digits(s)) == hex_digits(s),
    decreases s.len(),
{
    if s.len() > 0 {
        normal_form_is_normal(s.drop_last());
        let before = hex_digits(s.drop_last());
        let all = hex_digits(s);
        if is_hex_digit(s.last()) {
            assert(all.drop_last() =~= before);
            assert(hex_digits(all) =~= all);
        }
    }
}

/// A hyphen makes no difference to a component id.
pub proof fn hyphens_make_no_difference(a: Seq<char>, b: Seq<char>)
    ensures
        hex_digits(a + seq!['-'] + b) == hex_digits(a + b),
    decreases b.len(),
{
    if b.len() == 0 {
        assert((a + seq!['-'] + b).drop_last() =~= a);
        assert(a + b =~= a);
    } else {
        hyphens_make_no_difference(a, b.drop_last());
        assert((a + seq!['-'] + b).drop_last() =~= a + seq!['-'] + b.drop_last());
        assert((a + b).drop_last() =~= a + b.drop_last());
    }
}

/// The case of its letters makes no difference to a component id.
pub proof fn letter_case_makes_no_difference(a: Seq<char>, b: Seq<char>)
    requires
        lower(a) == lower(b),
    ensures
        hex_digits(a) == hex_digits(b),
    decreases a.len(),
{
    assert(a.len() == lower(a).len());
    assert(b.len() == lower(b).len());
    if a.len() > 0 {
        let last = a.len() - 1;
        assert(lower(a)[last] == lower_char(a.last()));
        assert(lower(b)[last] == lower_char(b.last()));
        assert forall|i: int| 0 <= i < last implies lower(a.drop_last())[i] == lower(
            b.drop_last(),
        )[i] by {
            assert(lower(a)[i] == lower_char(a[i]));
            assert(lower(b)[i] == lower_char(b[i]));
        }
        assert(lower(a.drop_last()) =~= lower(b.drop_last()));
        letter_case_makes_no_difference(a.drop_last(), b.drop_last());
    }
}

/// The component id that a line of validator output shows, where it shows one.
#[verifier::opaque]
pub open spec fn cid_of(line: Seq<char>) -> Option<Seq<char>> {
    if occurs_in("cid = "@, line) {
        Some(hex_digits(line.skip(first_position(line, "cid = "@) + "cid = "@.len())))
    } else {
        None
    }
}

/// The component ids that the first `n` lines show.
pub open spec fn cids_of(lines: Seq<Seq<char>>, n: int) -> Seq<Seq<char>>
    decreases n,
{
    if n <= 0 {
        Seq::empty()
    } else {
        match cid_of(lines[n - 1]) {
            Some(cid) => cids_of(lines, n - 1).push(cid),
            None => cids_of(lines, n - 1),
        }
    }
}

/// The component ids that a text shows, line by line.
pub open spec fn shown_cids(output: Seq<char>) -> Seq<Seq<char>> {
    let lines = split_at_each(output, '\n');
    cids_of(lines, lines.len() as int)
}

/// Two outputs, one written below the other, show the component ids of the first and then those of
/// the second.
pub proof fn joined_outputs_show_the_ids_of_both(first: Seq<char>, second: Seq<char>)
    ensures
        shown_cids(first + seq!['\n'] + second) == shown_cids(first) + shown_cids(second),
{
    let a = split_at_each(first, '\n');
    let b = split_at_each(second, '\n');
    lemma_split_joined(first, second);
    lemma_cids_of_both(a, b, b.len() as int);
}

proof fn lemma_split_joined(first: Seq<char>, second: Seq<char>)
    ensures
        split_at_each(first + seq!['\n'] + second, '\n') == split_at_each(first, '\n')
            + split_at_each(second, '\n'),
        split_at_each(second, '\n').len() > 0,
    decreases second.len(),
{
    let all = first + seq!['\n'] + second;
    if second.len() == 0 {
        assert(all.drop_last() =~= first);
        assert(split_at_each(all, '\n') =~= split_at_each(first, '\n') + split_at_each(
            second,
            '\n',
        ));
    } else {
        lemma_split_joined(first, second.drop_last());
        assert(all.drop_last() =~= first + seq!['\n'] + second.drop_last());
        assert(split_at_each(all, '\n') =~= split_at_each(first, '\n') + split_at_each(
            second,
            '\n',
        ));
    }
}

proof fn lemma_cids_of_both(a: Seq<Seq<char>>, b: Seq<Seq<char>>, n: int)
    requires
        0 <= n <= b.len(),
    ensures
        cids_of(a + b, a.len() + n) == cids_of(a, a.len() as int) + cids_of(b, n),
    decreases n,
{
    if n == 0 {
        lemma_cids_of_front(a, b, a.len() as int);
        assert(cids_of(a, a.len() as int) + cids_of(b, 0) =~= cids_of(a, a.len() as int));
    } else {
        lemma_cids_of_both(a, b, n - 1);
        assert((a + b)[a.len() + n - 1] == b[n - 1]);
        assert(cids_of(a + b, a.len() + n) =~= cids_of(a, a.len() as int) + cids_of(b, n));
    }
}

proof fn lemma_cids_of_front(a: Seq<Seq<char>>, b: Seq<Seq<char>>, n: int)
    requires
        n <= a.len(),
    ensures
        cids_of(a + b, n) == cids_of(a, n),
    decreases n,
{
    if n > 0 {
        lemma_cids_of_front(a, b, n - 1);
        assert((a + b)[n - 1] == a[n - 1]);
    }
}

fn find_cid(line: &str) -> (cid: Option<String>)
    ensures
        match cid {
            Some(text) => cid_of(line@) == Some(text@),
            None => cid_of(line@) is None,
        },
{
    reveal(cid_of);
    let chars = chars_of(line);
    let key = chars_of("cid = ");
    let total: usize = chars.len();
    match find_from(&chars, &key, 0) {
        Some(i) => {
            proof {
                assert(stands_at(line@, "cid = "@, i as int));
                lemma_first_position(line@, "cid = "@, i as int);
            }
            let mut rest: String = String::new();
            let start: usize = i + key.len();
            push_range(&mut rest, &chars, start, total);
            assert(rest@ =~= line@.skip(start as int));
            Some(normalize_vst3_cid(rest.as_str()))
        },
        None => {
            assert forall|j: int| !stands_at(line@, "cid = "@, j) by {
                if stands_at(line@, "cid = "@, j) {
                    assert(0 <= j);
                }
            }
            None
        },
    }
}

/// The component ids that the output of the VST3 validator shows.
pub fn parse_vst3_validator_cids(output: &str) -> (cids: Vec<String>)
    ensures
        texts(cids@) == shown_cids(output@),
{
    let lines = split(output, '\n');
    let ghost all = texts(lines@);
    let mut cids: Vec<String> = Vec::new();
    let mut i: usize = 0;
    assert(texts(cids@) =~= Seq::<Seq<char>>::empty());
    while i < lines.len()
        invariant
            i <= lines@.len(),
            all == texts(lines@),
            texts(cids@) == cids_of(all, i as int),
        decreases lines@.len() - i,
    {
        if let Some(cid) = find_cid(lines[i].as_str()) {
            let ghost before = cids@;
            cids.push(cid);
            assert(texts(cids@) =~= texts(before).push(cids@.last()@));
        }
        i += 1;
    }
    cids
}

// Comparing with the metadata

/// The component ids that the metadata names, in their normal form.
pub open spec fn named_cids(metadata: PluginMetadata) -> Seq<Seq<char>> {
    Seq::new(metadata.plugins@.len(), |i: int| hex_digits(metadata.plugins@[i].vst3_component_id@))
}

/// A list of quoted texts.
pub open spec fn quoted_list(list: Seq<Seq<char>>) -> Seq<char> {
    "["@ + joined(Seq::new(list.len(), |i: int| "\""@ + list[i] + "\""@), ", "@) + "]"@
}

fn show_list(list: &Vec<String>) -> (text: String)
    ensures
        text@ == quoted_list(texts(list@)),
{
    let ghost expected = Seq::new(list@.len(), |i: int| "\""@ + texts(list@)[i] + "\""@);
    let mut quoted: Vec<String> = Vec::new();
    let mut i: usize = 0;
    while i < list.len()
        invariant
            i <= list@.len(),
            quoted@.len() == i,
            expected == Seq::new(list@.len(), |i: int| "\""@ + texts(list@)[i] + "\""@),
            forall|k: int| 0 <= k < i ==> #[trigger] quoted@[k]@ == expected[k],
        decreases list@.len() - i,
    {
        quoted.push(join3("\"", list[i].as_str(), "\""));
        i += 1;
    }
    assert(texts(quoted@) =~= expected);
    join3("[", join(&quoted, ", ").as_str(), "]")
}

fn same_lists(a: &Vec<String>, b: &Vec<String>) -> (same: bool)
    ensures
        same == (texts(a@) == texts(b@)),
{
    if a.len() != b.len() {
        assert(texts(a@).len() != texts(b@).len());
        return false;
    }
    let mut i: usize = 0;
    while i < a.len()
        invariant
            i <= a@.len() == b@.len(),
            forall|k: int| 0 <= k < i ==> #[trigger] texts(a@)[k] == texts(b@)[k],
        decreases a@.len() - i,
    {
        if !same_text(a[i].as_str(), b[i].as_str()) {
            assert(texts(a@)[i as int] != texts(b@)[i as int]);
            return false;
        }
        i += 1;
    }
    assert(texts(a@) =~= texts(b@));
    true
}

/// The error of a bundle that shows other component ids than the metadata names.
pub open spec fn component_ids_error(
    metadata: PluginMetadata,
    bundle: Seq<char>,
    stdout: Seq<char>,
    stderr: Seq<char>,
) -> Option<Seq<char>> {
    let actual = shown_cids(stdout) + shown_cids(stderr);
    let expected = named_cids(metadata);
    if actual == expected {
        None
    } else {
        Some(
            "VST3 component ID mismatch for "@ + bundle + ": metadata="@ + quoted_list(expected)
                + ", validator="@ + quoted_list(actual),
        )
    }
}

/// Accepts validator output that shows exactly the component ids that the metadata names, in
/// the same order.
pub fn validate_vst3_component_ids(
    metadata: &PluginMetadata,
    bundle: &str,
    stdout: &str,
    stderr: &str,
) -> (result: Result<(), String>)
    ensures
        error_of(result) == component_ids_error(*metadata, bundle@, stdout@, stderr@),
{
    let mut actual = parse_vst3_validator_cids(stdout);
    let rest = parse_vst3_validator_cids(stderr);
    let ghost first = texts(actual@);
    let ghost second = texts(rest@);
    let mut i: usize = 0;
    assert(first + second.take(0) =~= first);
    while i < rest.len()
        invariant
            i <= rest@.len(),
            second == texts(rest@),
            texts(actual@) == first + second.take(i as int),
        decreases rest@.len() - i,
    {
        let ghost before = actual@;
        actual.push(rest[i].clone());
        assert(texts(actual@) =~= texts(before).push(actual@.last()@));
        assert(second.take(i + 1) =~= second.take(i as int).push(second[i as int]));
        assert(texts(actual@) =~= first + second.take(i + 1));
        i += 1;
    }
    assert(second.take(i as int) =~= second);
    let mut expected: Vec<String> = Vec::new();
    let mut k: usize = 0;
    while k < metadata.plugins.len()
        invariant
            k <= metadata.plugins@.len(),
            expected@.len() == k,
            forall|j: int| 0 <= j < k ==> #[trigger] expected@[j]@ == named_cids(*metadata)[j],
        decreases metadata.plugins@.len() - k,
    {
        expected.push(normalize_vst3_cid(metadata.plugins[k].vst3_component_id.as_str()));
        k += 1;
    }
    assert(texts(expected@) =~= named_cids(*metadata));
    if same_lists(&actual, &expected) {
        return Ok(());
    }
    let mut message = join3("VST3 component ID mismatch for ", bundle, ": metadata=");
    message.append(show_list(&expected).as_str());
    message.append(", validator=");
    message.append(show_list(&actual).as_str());
    Err(message)
}

/// The digits of an id stand in its normal form in their order: those of two parts one behind the
/// other, a digit as itself, a letter as its capital, and nothing else.
pub proof fn ids_keep_their_digits_in_order(a: Seq<char>, b: Seq<char>, c: char)
    ensures
        hex_digits(a + b) == hex_digits(a) + hex_digits(b),
        '0' <= c <= '9' || 'A' <= c <= 'F' ==> hex_digits(seq![c]) == seq![c],
        'a' <= c <= 'f' ==> hex_digits(seq![c]).len() == 1 && hex_digits(seq![c])[0] as int == c as int
            - 'a' as int + 'A' as int,
        !('0' <= c <= '9' || 'A' <= c <= 'F' || 'a' <= c <= 'f') ==> hex_digits(seq![c]).len() == 0,
    decreases b.len(),
{
    reveal_with_fuel(hex_digits, 2);
    assert(seq![c].drop_last() =~= Seq::<char>::empty());
    assert(hex_digits(seq![c].drop_last()) =~= Seq::<char>::empty());
    if is_hex_digit(c) {
        assert(hex_digits(seq![c]) =~= seq![upper_digit(c)]);
    }
    if b.len() == 0 {
        assert(a + b =~= a);
        assert(hex_digits(a) + hex_digits(b) =~= hex_digits(a));
    } else {
        ids_keep_their_digits_in_order(a, b.drop_last(), c);
        assert((a + b).drop_last() =~= a + b.drop_last());
        assert((a + b).last() == b.last());
        assert(hex_digits(a + b) =~= hex_digits(a) + hex_digits(b));
    }
}

/// A line that holds the mark of an id shows what follows the first such mark; a line without it
/// shows none.
pub proof fn lines_show_what_follows_the_mark(front: Seq<char>, id: Seq<char>, line: Seq<char>)
    requires
        forall|j: int|
            0 <= j < front.len() ==> !#[trigger] stands_at(front + "cid = "@ + id, "cid = "@, j),
        !occurs_in("cid = "@, line),
    ensures
        cid_of(front + "cid = "@ + id) == Some(hex_digits(id)),
        cid_of(line) is None,
{
    reveal(cid_of);
    let whole = front + "cid = "@ + id;
    let at = front.len() as int;
    assert(whole.subrange(at, at + "cid = "@.len()) =~= "cid = "@);
    assert(stands_at(whole, "cid = "@, at));
    lemma_first_position(whole, "cid = "@, at);
    assert(whole.skip(at + "cid = "@.len()) =~= id);
}

/// A bundle is accepted exactly where its validator shows as many ids as there are plugins, each
/// that of the plugin at its place; what is written to either output counts.
pub proof fn bundles_show_the_ids_of_their_plugins(
    metadata: PluginMetadata,
    bundle: &str,
    stdout: &str,
    stderr: &str,
    result: Result<(), String>,
)
    requires
        call_ensures(validate_vst3_component_ids, (&metadata, bundle, stdout, stderr), result),
    ensures
        ({
            let shown = shown_cids(stdout@) + shown_cids(stderr@);
            result is Ok <==> shown.len() == metadata.plugins@.len() && forall|i: int|
                0 <= i < shown.len() ==> (#[trigger] shown[i]) == hex_digits(
                    metadata.plugins@[i].vst3_component_id@,
                )
        }),
{
    let shown = shown_cids(stdout@) + shown_cids(stderr@);
    let named = named_cids(metadata);
    if shown.len() == metadata.plugins@.len() && forall|i: int|
        0 <= i < shown.len() ==> (#[trigger] shown[i]) == hex_digits(
            metadata.plugins@[i].vst3_component_id@,
        ) {
        assert(shown =~= named);
    }
    if shown == named {
        assert forall|i: int| 0 <= i < shown.len() implies (#[trigger] shown[i]) == hex_digits(
            metadata.plugins@[i].vst3_component_id@,
        ) by {
            assert(shown[i] == named[i]);
        }
    }
}

/// Ids are brought into the form that the laws above speak of, and found in the order in which
/// the validator shows them.
pub proof fn ids_are_read_in_their_normal_form(
    value: &str,
    cid: String,
    output: &str,
    cids: Vec<String>,
)
    requires
        call_ensures(normalize_vst3_cid, (value,), cid),
        call_ensures(parse_vst3_validator_cids, (output,), cids),
    ensures
        cid@ == hex_digits(value@),
        hex_digits(cid@) == cid@,
        texts(cids@) == shown_cids(output@),
{
    normal_form_is_normal(value@);
}

} // verus!
