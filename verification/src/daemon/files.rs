//! The files that the daemon keeps beside the state file.

use vstd::prelude::*;
use vstd::string::*;
use vstd::utf8::*;

use crate::path::{
    is_name, join, join_of, law_join_keeps_names_apart, law_parent_of_join, law_stripped_is_stable,
    parent, parent_of, stripped, DOT, SLASH,
};

verus! {

/// The byte `~`.
pub const TILDE: u8 = 0x7e;

/// The text of bytes in which every ill-formed part is replaced by U+FFFD, as
/// [`String::from_utf8_lossy`] gives it.
pub uninterp spec fn lossy(bytes: Seq<u8>) -> Seq<char>;

/// How many ASCII bytes there are before the first other byte.
pub open spec fn ascii_run(bytes: Seq<u8>) -> nat
    decreases bytes.len(),
{
    if bytes.len() > 0 && bytes[0] < 0x80 {
        1 + ascii_run(bytes.drop_first())
    } else {
        0
    }
}

/// The ASCII that the bytes begin with is what the text begins with, and nothing
/// but the end or a character beyond ASCII follows it.
pub open spec fn begins_alike(bytes: Seq<u8>, text: Seq<char>) -> bool {
    let run = ascii_run(bytes);
    &&& run <= text.len()
    &&& forall|i: int| 0 <= i < run ==> #[trigger] text[i] == bytes[i] as char
    &&& run < text.len() ==> text[run as int] as u32 >= 0x80
}

/// Reads bytes as text with [`String::from_utf8_lossy`]. The result is named
/// [`lossy`]; of well-formed bytes it is the text that they encode, and of all
/// bytes it keeps the ASCII that they begin with, since only ill-formed parts are
/// replaced, and by a character beyond ASCII.
#[verifier::external_body]
pub(crate) fn lossy_text(bytes: &[u8]) -> (text: String)
    ensures
        text@ == lossy(bytes@),
        valid_utf8(bytes@) ==> text@ == decode_utf8(bytes@),
        begins_alike(bytes@, text@),
{
    String::from_utf8_lossy(bytes).into_owned()
}

/// The path begins with the tilde that stands for the home directory.
pub open spec fn starts_at_home(path: Seq<u8>) -> bool {
    path.len() >= 2 && path[0] == TILDE && path[1] == SLASH
}

/// `path`, which reads as `text`, with a leading tilde replaced by the home
/// directory; unchanged where there is no tilde or no home directory.
pub open spec fn expanded(path: Seq<u8>, text: Seq<char>, home: Option<Seq<u8>>) -> Seq<u8> {
    match home {
        Some(dir) => if starts_at_home(path) {
            join_of(dir, encode_utf8(text.skip(2)))
        } else {
            path
        },
        None => path,
    }
}

/// The bytes of an optional slice.
pub open spec fn optional_bytes(bytes: Option<&[u8]>) -> Option<Seq<u8>> {
    match bytes {
        Some(b) => Some(b@),
        None => None,
    }
}

/// The directory of the state file: the current one for a path without any.
pub open spec fn directory_of(state_file: Seq<u8>) -> Seq<u8> {
    match parent_of(state_file) {
        Some(dir) => dir,
        None => seq![DOT],
    }
}

/// The file of the given name beside the state file.
pub open spec fn beside(state_file: Seq<u8>, name: Seq<char>) -> Seq<u8> {
    join_of(directory_of(state_file), encode_utf8(name))
}

/// Where the state file stands unless the command line names another place.
pub fn default_state_file() -> (path: &'static str)
    ensures
        path@ == "~/.pulse/state.json"@,
{
    "~/.pulse/state.json"
}

/// Replaces the tilde of a path that reads as `text`.
pub fn expand_home(path: &[u8], text: &str, home: Option<&[u8]>) -> (resolved: Vec<u8>)
    requires
        starts_at_home(path@) ==> text@.len() >= 2,
    ensures
        resolved@ == expanded(path@, text@, optional_bytes(home)),
{
    if path.len() >= 2 && path[0] == TILDE && path[1] == SLASH {
        if let Some(dir) = home {
            let len: usize = text.unicode_len();
            let rest = text.substring_char(2, len);
            assert(rest@ == text@.skip(2));
            return join(dir, rest.as_bytes());
        }
    }
    vstd::slice::slice_to_vec(path)
}

/// The path with a leading `~/` taken from the home directory, if there is one.
pub fn resolve_tilde(path: &[u8], home: Option<&[u8]>) -> (resolved: Vec<u8>)
    ensures
        resolved@ == expanded(path@, lossy(path@), optional_bytes(home)),
        valid_utf8(path@) ==> resolved@ == expanded(
            path@,
            decode_utf8(path@),
            optional_bytes(home),
        ),
{
    let text = lossy_text(path);
    proof {
        reveal_with_fuel(ascii_run, 3);
    }
    expand_home(path, text.as_str(), home)
}

/// The file of the given name beside the state file.
fn sibling(state_file: &[u8], name: &str) -> (path: Vec<u8>)
    ensures
        path@ == beside(state_file@, name@),
{
    match parent(state_file) {
        Some(dir) => join(dir.as_slice(), name.as_bytes()),
        None => {
            let here: [u8; 1] = [DOT];
            assert(here@ == seq![DOT]);
            join(&here, name.as_bytes())
        },
    }
}

/// The directory to watch for changes of the state file: the one that it lies in,
/// which shows a single file's changes better than the file itself, or the path
/// itself where it lies in none.
pub fn watch_dir(state_file: &[u8]) -> (dir: Vec<u8>)
    ensures
        dir@ == (match parent_of(state_file@) {
            Some(d) => d,
            None => state_file@,
        }),
{
    match parent(state_file) {
        Some(dir) => dir,
        None => vstd::slice::slice_to_vec(state_file),
    }
}

/// The log of all button actions.
pub fn actions_log_path(state_file: &[u8]) -> (path: Vec<u8>)
    ensures
        path@ == beside(state_file@, "actions.log"@),
{
    sibling(state_file, "actions.log")
}

/// The collected rejections to learn from.
pub fn learn_json_path(state_file: &[u8]) -> (path: Vec<u8>)
    ensures
        path@ == beside(state_file@, "learn.json"@),
{
    sibling(state_file, "learn.json")
}

/// The bytes of an ASCII text are its characters.
proof fn lemma_ascii_bytes(text: Seq<char>)
    requires
        is_ascii_chars(text),
    ensures
        encode_utf8(text) == Seq::new(text.len(), |i: int| text[i] as u8),
{
    is_ascii_chars_encode_utf8(text);
}

/// The names of the two files are plain names and differ.
proof fn lemma_file_names()
    ensures
        is_name(encode_utf8("actions.log"@)),
        is_name(encode_utf8("learn.json"@)),
        encode_utf8("actions.log"@) != encode_utf8("learn.json"@),
{
    reveal_strlit("actions.log");
    reveal_strlit("learn.json");
    lemma_ascii_bytes("actions.log"@);
    lemma_ascii_bytes("learn.json"@);
    assert(encode_utf8("actions.log"@)[0] == 0x61);
    assert(encode_utf8("learn.json"@)[0] == 0x6c);
}

/// The log and the collected rejections lie in the directory of the state file,
/// and are two different files.
pub proof fn law_files_share_a_directory(state_file: Seq<u8>)
    ensures
        parent_of(beside(state_file, "actions.log"@)) == Some(directory_of(state_file)),
        parent_of(beside(state_file, "learn.json"@)) == Some(directory_of(state_file)),
        beside(state_file, "actions.log"@) != beside(state_file, "learn.json"@),
{
    let dir = directory_of(state_file);
    lemma_file_names();
    assert(stripped(dir) == dir) by {
        if parent_of(state_file) is Some {
            let core = stripped(state_file);
            law_stripped_is_stable(core.take(crate::path::last_start(core) as int));
        }
    }
    law_parent_of_join(dir, encode_utf8("actions.log"@));
    law_parent_of_join(dir, encode_utf8("learn.json"@));
    if beside(state_file, "actions.log"@) == beside(state_file, "learn.json"@) {
        law_join_keeps_names_apart(
            dir,
            encode_utf8("actions.log"@),
            encode_utf8("learn.json"@),
        );
    }
}

/// A path that does not begin with the tilde is left alone, and so is every
/// path when there is no home directory.
pub proof fn law_other_paths_stay(path: Seq<u8>, text: Seq<char>, home: Option<Seq<u8>>)
    requires
        !starts_at_home(path) || home is None,
    ensures
        expanded(path, text, home) == path,
{
}

/// Where the home directory, if there is one, is an absolute path, resolving a
/// path again changes nothing, however the resolved path reads as text; and with
/// a home directory no tilde is left at its start.
pub proof fn law_resolving_again_changes_nothing(
    path: Seq<u8>,
    text: Seq<char>,
    again: Seq<char>,
    home: Option<Seq<u8>>,
)
    requires
        home matches Some(dir) ==> dir.len() > 0 && dir[0] == SLASH,
    ensures
        ({
            let resolved = expanded(path, text, home);
            &&& expanded(resolved, again, home) == resolved
            &&& home is Some ==> !starts_at_home(resolved)
        }),
{
    if let Some(dir) = home {
        let rest = encode_utf8(text.skip(2));
        assert(join_of(dir, rest)[0] == SLASH);
    }
}

/// Seen from any directory, the files beside `.pulse/state.json` lie in the
/// `.pulse` of that directory.
proof fn lemma_beside_pulse(home: Seq<u8>, name: Seq<char>)
    requires
        is_ascii_chars(name),
        is_name(encode_utf8(name)),
    ensures
        beside(join_of(home, encode_utf8(".pulse/state.json"@)), name) == join_of(
            home,
            encode_utf8(".pulse/"@ + name),
        ),
{
    reveal_strlit(".pulse/state.json");
    reveal_strlit(".pulse/");
    reveal_strlit(".pulse");
    reveal_strlit("state.json");
    let folder = encode_utf8(".pulse"@);
    let file = encode_utf8("state.json"@);
    lemma_ascii_bytes(".pulse/state.json"@);
    lemma_ascii_bytes(".pulse"@);
    lemma_ascii_bytes("state.json"@);
    lemma_ascii_bytes(".pulse/"@);
    lemma_ascii_bytes(name);
    assert(is_ascii_chars(".pulse/"@ + name));
    lemma_ascii_bytes(".pulse/"@ + name);
    assert(encode_utf8(".pulse/state.json"@) == folder.push(SLASH) + file);
    assert(encode_utf8(".pulse/"@ + name) == folder.push(SLASH) + encode_utf8(name));
    assert(folder.last() == 0x65);
    let dir = join_of(home, folder);
    assert(folder[0] == DOT);
    assert(dir.last() == folder.last());
    let state_file = join_of(home, encode_utf8(".pulse/state.json"@));
    assert(file[0] == 0x73);
    assert(is_name(file));
    assert(state_file == join_of(dir, file));
    law_parent_of_join(dir, file);
    assert(stripped(dir) == dir);
    assert(directory_of(state_file) == dir);
    assert(encode_utf8(name)[0] != SLASH);
}

/// With a home directory and the default state file, all three files lie in the
/// `.pulse` of the home directory.
pub proof fn law_default_layout(home: Seq<u8>)
    ensures
        ({
            let path = "~/.pulse/state.json"@;
            let state_file = expanded(encode_utf8(path), path, Some(home));
            &&& state_file == join_of(home, encode_utf8(".pulse/state.json"@))
            &&& beside(state_file, "actions.log"@) == join_of(
                home,
                encode_utf8(".pulse/actions.log"@),
            )
            &&& beside(state_file, "learn.json"@) == join_of(
                home,
                encode_utf8(".pulse/learn.json"@),
            )
        }),
{
    reveal_strlit("~/.pulse/state.json");
    reveal_strlit(".pulse/state.json");
    reveal_strlit(".pulse/actions.log");
    reveal_strlit(".pulse/learn.json");
    reveal_strlit(".pulse/");
    reveal_strlit("actions.log");
    reveal_strlit("learn.json");
    lemma_ascii_bytes("~/.pulse/state.json"@);
    assert("~/.pulse/state.json"@.skip(2) == ".pulse/state.json"@);
    assert(".pulse/actions.log"@ == ".pulse/"@ + "actions.log"@);
    assert(".pulse/learn.json"@ == ".pulse/"@ + "learn.json"@);
    lemma_file_names();
    lemma_beside_pulse(home, "actions.log"@);
    lemma_beside_pulse(home, "learn.json"@);
}

/// A path of a tilde and a slash is taken from the home directory, however long the rest
/// of it is; every other path, and every path without a home directory, is left as it
/// is.
pub proof fn law_only_the_tilde_is_replaced(path: Seq<u8>, text: Seq<char>, home: Seq<u8>)
    ensures
        path.len() >= 2 && path[0] == 0x7e && path[1] == 0x2f ==> expanded(path, text, Some(home))
            == join_of(home, encode_utf8(text.skip(2))),
        !(path.len() >= 2 && path[0] == 0x7e && path[1] == 0x2f) ==> expanded(
            path,
            text,
            Some(home),
        ) == path,
        expanded(path, text, None) == path,
{
}

/// A path that is text is taken from the home directory with all that follows the tilde
/// and its slash.
pub proof fn law_rest_of_the_path_is_kept(rest: Seq<char>, home: Seq<u8>)
    ensures
        expanded(encode_utf8("~/"@ + rest), "~/"@ + rest, Some(home)) == join_of(
            home,
            encode_utf8(rest),
        ),
{
    reveal_strlit("~/");
    let text = "~/"@ + rest;
    assert(text.skip(2) == rest);
    assert("~/"@ == seq!['~', '/']);
    reveal_with_fuel(encode_utf8, 3);
    lemma_ascii_bytes(seq!['~']);
    lemma_ascii_bytes(seq!['/']);
    assert(seq!['~'].drop_first() == Seq::<char>::empty());
    assert(seq!['/'].drop_first() == Seq::<char>::empty());
    assert(encode_scalar('~' as u32) == encode_utf8(seq!['~']));
    assert(encode_scalar('/' as u32) == encode_utf8(seq!['/']));
    assert(text.drop_first()[0] == '/');
    assert(encode_utf8(text)[0] == 0x7e && encode_utf8(text)[1] == 0x2f);
}

/// The files stand in the directory of the state file, wherever that is, under their
/// names; the current directory stands for a path that lies in none.
pub proof fn law_files_stand_in_the_directory(state_file: Seq<u8>, name: Seq<char>)
    ensures
        parent_of(state_file) matches Some(dir) ==> beside(state_file, name) == join_of(
            dir,
            encode_utf8(name),
        ),
        parent_of(state_file) is None ==> beside(state_file, name) == join_of(
            seq![0x2eu8],
            encode_utf8(name),
        ),
{
}

/// An optional path is handed on as it is.
pub proof fn law_optional_paths_are_handed_on(bytes: Option<&[u8]>)
    ensures
        bytes is None <==> optional_bytes(bytes) is None,
        bytes matches Some(b) ==> optional_bytes(bytes) == Some(b@),
{
}

} // verus!
