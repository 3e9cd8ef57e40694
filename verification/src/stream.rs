//! The decisions taken when a client asks for one file.
//!
//! Looking at the file system is left to the caller: it asks for the
//! candidate path, probes it and reports what it found, and the functions
//! here decide what the client is answered. A name that leads out of the
//! media folder gets no candidate path and is never streamed.

use crate::content::content_type;
use crate::content::content_type_of;
use crate::content::lacks_extension;
use crate::content::octet_stream;
use crate::content::registered_type;
use crate::paths::join;
use crate::paths::joined_path;
use vstd::prelude::*;

verus! {

/// Why a file is not streamed.
#[derive(Debug, Clone, Copy, PartialEq, Eq, Structural)]
pub enum StreamError {
    /// Nothing that may be served exists at the name asked for.
    NotFound,
    /// Something exists at the candidate path, but it could not be opened
    /// for reading.
    OpenError,
}

/// Whether the character parts the components of a path on some system.
pub open spec fn is_separator(c: char) -> bool {
    c == '/' || c == '\\'
}

/// Whether the character is a letter of the basic Latin alphabet.
pub open spec fn is_letter(c: char) -> bool {
    ('a' <= c && c <= 'z') || ('A' <= c && c <= 'Z')
}

/// Whether the name starts at a root of its own and not where it is adjoined:
/// it begins with a separator, or with a letter and `:` as the name of a
/// drive does.
pub open spec fn begins_at_a_root(name: Seq<char>) -> bool {
    ||| name.len() > 0 && is_separator(name[0])
    ||| name.len() > 1 && is_letter(name[0]) && name[1] == ':'
}

/// Whether a component of the name begins at `at` and is `..`, which steps
/// to the parent directory.
pub open spec fn is_parent_at(name: Seq<char>, at: int) -> bool {
    &&& 0 <= at
    &&& at + 2 <= name.len()
    &&& name[at] == '.'
    &&& name[at + 1] == '.'
    &&& (at == 0 || is_separator(name[at - 1]))
    &&& (at + 2 == name.len() || is_separator(name[at + 2]))
}

/// Whether the name can lead out of the folder it is adjoined to: it starts
/// at a root of its own, or one of its components is `..`.
pub open spec fn leaves_root(name: Seq<char>) -> bool {
    begins_at_a_root(name) || exists|at: int| is_parent_at(name, at)
}

/// The characters of a text, one by one.
fn chars_of(text: &str) -> (chars: Vec<char>)
    ensures
        chars@ == text@,
{
    let mut chars: Vec<char> = Vec::new();
    for c in it: text.chars()
        invariant
            it.seq() == text@,
            chars@ == text@.take(it.index()),
    {
        let ghost seen = it.index();
        chars.push(c);
        proof {
            assert(text@.take(seen + 1) == text@.take(seen).push(c));
        }
    }
    proof {
        assert(text@.take(text@.len() as int) == text@);
    }
    chars
}

fn separates(c: char) -> (is: bool)
    ensures
        is == is_separator(c),
{
    c == '/' || c == '\\'
}

fn parent_at(name: &Vec<char>, at: usize) -> (is: bool)
    requires
        at < name.len(),
    ensures
        is == is_parent_at(name@, at as int),
{
    let len = name.len();
    if len - at < 2 {
        return false;
    }
    name[at] == '.' && name[at + 1] == '.' && (at == 0 || separates(name[at - 1])) && (len - at == 2
        || separates(name[at + 2]))
}

/// Tells whether the name can lead out of the folder it is adjoined to.
pub fn name_leaves_root(name: &str) -> (leaves: bool)
    ensures
        leaves == leaves_root(name@),
{
    let chars = chars_of(name);
    let len = chars.len();
    if len > 0 && separates(chars[0]) {
        return true;
    }
    if len > 1 && chars[1] == ':' {
        let first = chars[0];
        if ('a' <= first && first <= 'z') || ('A' <= first && first <= 'Z') {
            return true;
        }
    }
    let mut at: usize = 0;
    while at < len
        invariant
            at <= len,
            len == chars.len(),
            chars@ == name@,
            !begins_at_a_root(name@),
            forall|j: int| 0 <= j < at ==> !is_parent_at(name@, j),
        decreases len - at,
    {
        if parent_at(&chars, at) {
            return true;
        }
        at = at + 1;
    }
    false
}

/// The path at which the file asked for as `requested_name` is looked for:
/// the name adjoined to the media folder `root`. A name that can lead out of
/// the folder has no such path, and nothing is to be looked for.
pub fn candidate_path(root: &str, requested_name: &str) -> (path: Option<String>)
    ensures
        match path {
            Some(path) => !leaves_root(requested_name@) && path@ == joined_path(
                root@,
                requested_name@,
            ),
            None => leaves_root(requested_name@),
        },
{
    if name_leaves_root(requested_name) {
        None
    } else {
        Some(join(root, requested_name))
    }
}

/// Decides what becomes of a request for the file at `path`, a candidate
/// path that [`candidate_path`] gave. `exists` says whether something existed
/// at the path when it was checked, `opened` whether it could then be opened
/// for reading; where nothing existed, `opened` is not looked at.
///
/// A path at which nothing exists is answered with `NotFound`, whatever
/// else holds. One that exists but could not be opened, as happens when the
/// file goes away between the check and the opening, is answered with
/// `OpenError`. Otherwise the file is streamed under the content type
/// inferred from the path's extension alone, its contents unseen: the
/// generic binary type where the path shows no extension.
pub fn stream_from(path: &str, exists: bool, opened: bool) -> (result: Result<String, StreamError>)
    ensures
        !exists ==> result matches Err(StreamError::NotFound),
        exists && !opened ==> result matches Err(StreamError::OpenError),
        exists && opened ==> ({
            &&& result matches Ok(media_type)
            &&& media_type@ == content_type_of(registered_type(path@))
            &&& lacks_extension(path@) ==> media_type@ == octet_stream()
        }),
{
    if !exists {
        Err(StreamError::NotFound)
    } else if !opened {
        Err(StreamError::OpenError)
    } else {
        Ok(content_type(path))
    }
}

/// Decides what becomes of a request for the file `requested_name` under the
/// media folder `root`, given what the probing of its candidate path found.
///
/// A name that can lead out of the folder is answered with `NotFound`
/// whatever `exists` and `opened` say: no file outside the folder is ever
/// streamed. For any other name the decision is that of [`stream_from`] for
/// its candidate path.
pub fn open_for_streaming(root: &str, requested_name: &str, exists: bool, opened: bool) -> (result:
    Result<String, StreamError>)
    ensures
        leaves_root(requested_name@) || !exists ==> result matches Err(StreamError::NotFound),
        !leaves_root(requested_name@) && exists && !opened ==> result matches Err(
            StreamError::OpenError,
        ),
        !leaves_root(requested_name@) && exists && opened ==> ({
            &&& result matches Ok(media_type)
            &&& media_type@ == content_type_of(
                registered_type(joined_path(root@, requested_name@)),
            )
            &&& lacks_extension(joined_path(root@, requested_name@)) ==> media_type@
                == octet_stream()
        }),
{
    match candidate_path(root, requested_name) {
        None => Err(StreamError::NotFound),
        Some(path) => stream_from(path.as_str(), exists, opened),
    }
}

} // verus!
