//! What the plugin is called, and what it is made of.

use vstd::prelude::*;
use vstd::utf8::encode_utf8;

use crate::text;

verus! {

/// The bytes of a code of four characters, or `None` for a code of any other length.
pub fn four_char_code(value: &str) -> (code: Option<[u8; 4]>)
    ensures
        match code {
            Some(bytes) => bytes@ == encode_utf8(value@),
            None => encode_utf8(value@).len() != 4,
        },
{
    let bytes = value.as_bytes();
    if bytes.len() != 4 {
        return None;
    }
    let code = [bytes[0], bytes[1], bytes[2], bytes[3]];
    assert(code@ =~= bytes@);
    Some(code)
}

/// The name of an entry in the archive of the frontend: the path below the archive's root, with
/// the same separator on every system, and one behind the name of a directory.
pub fn archive_entry_name(relative: &str, is_directory: bool) -> (name: String)
    ensures
        name@ == if is_directory {
            text::replaced(relative@, "\\"@, "/"@) + "/"@
        } else {
            text::replaced(relative@, "\\"@, "/"@)
        },
{
    proof {
        reveal_strlit("\\");
    }
    let path = text::replace(relative, "\\", "/");
    if is_directory {
        text::join2(path.as_str(), "/")
    } else {
        path
    }
}

/// A code is taken exactly where it has four bytes, and each stands in its place.
pub proof fn codes_have_four_bytes(value: &str, code: Option<[u8; 4]>)
    requires
        call_ensures(four_char_code, (value,), code),
    ensures
        code is Some <==> encode_utf8(value@).len() == 4,
        code matches Some(bytes) ==> forall|i: int|
            0 <= i < 4 ==> bytes@[i] == encode_utf8(value@)[i],
{
    if let Some(bytes) = code {
        assert(bytes@.len() == 4);
    }
}

/// Entries of the archive have the same names on every system: a separator of either kind becomes
/// a slash, every other character stays, and the name of a directory closes with one slash more.
pub proof fn entries_have_the_same_name_on_every_system(
    relative: &str,
    is_directory: bool,
    name: String,
)
    requires
        call_ensures(archive_entry_name, (relative, is_directory), name),
    ensures
        name@.len() == relative@.len() + if is_directory {
            1int
        } else {
            0
        },
        is_directory ==> name@.last() == '/',
        forall|i: int|
            0 <= i < relative@.len() ==> #[trigger] name@[i] == if relative@[i] == '\\' {
                '/'
            } else {
                relative@[i]
            },
{
    reveal_strlit("\\");
    reveal_strlit("/");
    assert("\\"@ =~= seq!['\\']);
    assert("/"@ =~= seq!['/']);
    text::replacing_a_character_changes_it_alone(relative@, '\\', '/');
    let path = text::replaced(relative@, "\\"@, "/"@);
    assert forall|i: int| 0 <= i < relative@.len() implies #[trigger] name@[i] == if relative@[i]
        == '\\' {
        '/'
    } else {
        relative@[i]
    } by {
        assert(name@[i] == path[i]);
    }
}

} // verus!
