//! The extension of a file name.

use vstd::prelude::*;

verus! {

/// The extension of a file name: what follows its final `.`, and nothing
/// where the name has no `.`.
pub open spec fn extension_of(name: Seq<char>) -> Seq<char> {
    match name.index_of_last('.') {
        Some(dot) => name.subrange(dot + 1, name.len() as int),
        None => Seq::empty(),
    }
}

/// Whether `dot` is where the final `.` of `name` stands, `None` standing for
/// a name without any.
pub open spec fn is_final_dot(name: Seq<char>, dot: Option<int>) -> bool {
    match dot {
        Some(at) => {
            &&& 0 <= at < name.len()
            &&& name[at] == '.'
            &&& forall|j: int| at < j < name.len() ==> name[j] != '.'
        },
        None => forall|j: int| 0 <= j < name.len() ==> name[j] != '.',
    }
}

/// The final `.` of a name stands in one place only, and it is the one that
/// the extension is cut at.
pub proof fn lemma_final_dot_unique(name: Seq<char>, dot: Option<int>)
    requires
        is_final_dot(name, dot),
    ensures
        name.index_of_last('.') == dot,
{
    name.index_of_last_ensures('.');
    match name.index_of_last('.') {
        Some(found) => {
            match dot {
                Some(at) => {
                    if found < at {
                        assert(name[at] != '.');
                    } else if at < found {
                        assert(name[found] != '.');
                    }
                },
                None => {
                    assert(name[found] != '.');
                },
            }
        },
        None => {
            match dot {
                Some(at) => {
                    assert(name.contains('.'));
                },
                None => {},
            }
        },
    }
}

/// Whether `ext` is what follows the final `.` of `name`, and empty where the
/// name has none.
pub open spec fn follows_final_dot(name: Seq<char>, ext: Seq<char>) -> bool {
    if name.contains('.') {
        &&& !ext.contains('.')
        &&& exists|stem: Seq<char>| name == #[trigger] (stem + seq!['.']) + ext
    } else {
        ext.len() == 0
    }
}

/// The extension of a name is what follows its final `.`, and empty where
/// it has none.
pub proof fn lemma_extension_follows_final_dot(name: Seq<char>)
    ensures
        follows_final_dot(name, extension_of(name)),
{
    name.index_of_last_ensures('.');
    match name.index_of_last('.') {
        Some(dot) => {
            let ext = extension_of(name);
            let stem = name.subrange(0, dot);
            assert(name == (stem + seq!['.']) + ext);
            if ext.contains('.') {
                let j = choose|j: int| 0 <= j < ext.len() && ext[j] == '.';
                assert(name[dot + 1 + j] == '.');
            }
        },
        None => {},
    }
}

/// Computes the extension of the file name `name`.
pub fn extension(name: &str) -> (ext: String)
    ensures
        ext@ == extension_of(name@),
{
    let len = name.unicode_len();
    let mut last: Option<usize> = None;
    let mut i: usize = 0;
    for c in it: name.chars()
        invariant
            i == it.index(),
            it.seq() == name@,
            len == name@.len(),
            match last {
                Some(at) => at < i,
                None => true,
            },
            is_final_dot(
                name@.subrange(0, i as int),
                match last {
                    Some(at) => Some(at as int),
                    None => None,
                },
            ),
    {
        if c == '.' {
            last = Some(i);
        }
        i = i + 1;
    }
    proof {
        assert(name@.subrange(0, i as int) == name@);
        lemma_final_dot_unique(
            name@,
            match last {
                Some(at) => Some(at as int),
                None => None,
            },
        );
    }
    match last {
        Some(at) => name.substring_char(at + 1, len).to_owned(),
        None => String::new(),
    }
}

} // verus!
