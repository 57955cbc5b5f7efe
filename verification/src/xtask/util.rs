//! How commands are shown, and what is said of what is missing.

use vstd::prelude::*;

use crate::text::{contains, join, join3, joined, occurs_in, texts};

verus! {

/// An argument as a user could type it: in quotes where it holds a space.
pub open spec fn shown(argument: Seq<char>) -> Seq<char> {
    if occurs_in(" "@, argument) {
        "\""@ + argument + "\""@
    } else {
        argument
    }
}

/// An argument as a user could type it.
pub fn shell_display(argument: &str) -> (text: String)
    ensures
        text@ == shown(argument@),
{
    if contains(argument, " ") {
        join3("\"", argument, "\"")
    } else {
        argument.to_owned()
    }
}

/// A command as a user could type it.
pub open spec fn command_line(parts: Seq<Seq<char>>) -> Seq<char> {
    joined(parts.map_values(|part: Seq<char>| shown(part)), " "@)
}

/// A command, its program first, as a user could type it.
pub fn format_command(parts: &[String]) -> (line: String)
    ensures
        line@ == command_line(texts(parts@)),
{
    let mut displayed: Vec<String> = Vec::new();
    let ghost wanted = texts(parts@).map_values(|part: Seq<char>| shown(part));
    let mut i: usize = 0;
    while i < parts.len()
        invariant
            i <= parts@.len(),
            wanted == texts(parts@).map_values(|part: Seq<char>| shown(part)),
            texts(displayed@) == wanted.take(i as int),
        decreases parts@.len() - i,
    {
        let ghost before = displayed@;
        displayed.push(shell_display(parts[i].as_str()));
        i += 1;
        proof {
            assert(texts(displayed@) =~= texts(before).push(displayed@.last()@));
            assert(texts(parts@)[i - 1] == parts@[i - 1]@);
            assert(wanted.take(i as int) =~= wanted.take(i - 1).push(wanted[i - 1]));
        }
    }
    assert(texts(displayed@) =~= wanted);
    join(displayed.as_slice(), " ")
}

/// What is said of a file that has to be there.
pub fn ensure_exists(present: bool, path: &str, description: &str) -> (result: Result<(), String>)
    ensures
        crate::text::error_of(result) == if present {
            None
        } else {
            Some(description@ + " not found: "@ + path@)
        },
{
    if present {
        Ok(())
    } else {
        Err(join3(description, " not found: ", path))
    }
}

/// An argument is shown as it is, in quotes exactly where it holds a space; so what is shown holds
/// the argument in full.
pub proof fn arguments_are_shown_in_full(argument: &str, text: String)
    requires
        call_ensures(shell_display, (argument,), text),
    ensures
        argument@.contains(' ') ==> text@ == "\""@ + argument@ + "\""@,
        !argument@.contains(' ') ==> text@ == argument@,
{
    reveal_strlit(" ");
    if argument@.contains(' ') {
        let i = argument@.index_of(' ');
        assert(argument@.subrange(i, i + 1) =~= " "@);
        assert(crate::text::stands_at(argument@, " "@, i));
    }
    if occurs_in(" "@, argument@) {
        let i = choose|i: int| crate::text::stands_at(argument@, " "@, i);
        assert(argument@.subrange(i, i + 1)[0] == argument@[i]);
        assert(argument@[i] == ' ');
    }
}

/// A command is shown with one space between its parts, in their order: a program alone as itself,
/// and one argument more behind a space.
pub proof fn commands_are_shown_part_by_part(
    parts: Seq<Seq<char>>,
    last: Seq<char>,
    program: Seq<char>,
)
    requires
        parts.len() > 0,
    ensures
        command_line(seq![program]) == shown(program),
        command_line(parts.push(last)) == command_line(parts) + " "@ + shown(last),
        command_line(Seq::empty()) == Seq::<char>::empty(),
{
    let all = parts.map_values(|part: Seq<char>| shown(part));
    crate::text::separators_stand_between_texts(shown(program), all, shown(last), " "@);
    assert(parts.push(last).map_values(|part: Seq<char>| shown(part)) =~= all.push(shown(last)));
    assert(seq![program].map_values(|part: Seq<char>| shown(part)) =~= seq![shown(program)]);
    assert(Seq::<Seq<char>>::empty().map_values(|part: Seq<char>| shown(part)) =~= Seq::empty());
}

/// What is there is not complained of, and what is missing is named with what it is and where it
/// was looked for.
pub proof fn missing_files_are_named(
    present: bool,
    path: &str,
    description: &str,
    result: Result<(), String>,
)
    requires
        call_ensures(ensure_exists, (present, path, description), result),
    ensures
        result is Ok <==> present,
        !present ==> result->Err_0@ == description@ + " not found: "@ + path@,
{
}

/// A command is shown as the parts that it has, in their order.
pub proof fn commands_are_shown_as_their_parts(parts: &[String], line: String)
    requires
        call_ensures(format_command, (parts,), line),
    ensures
        line@ == command_line(texts(parts@)),
        parts@.len() == 0 ==> line@.len() == 0,
        parts@.len() == 1 ==> line@ == shown(parts@[0]@),
{
    if parts@.len() == 0 {
        assert(texts(parts@) =~= Seq::<Seq<char>>::empty());
        commands_are_shown_part_by_part(seq![Seq::empty()], Seq::empty(), Seq::empty());
    }
    if parts@.len() == 1 {
        assert(texts(parts@) =~= seq![parts@[0]@]);
        commands_are_shown_part_by_part(seq![Seq::empty()], Seq::empty(), parts@[0]@);
    }
}

} // verus!
