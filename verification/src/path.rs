//! Paths as text: a directory joined with a name, and the extension of a
//! file name.

use vstd::prelude::*;

verus! {

/// `name` placed in the directory `base`: the two are separated by one `/`,
/// which is left out where `base` is empty or already ends in one.
pub open spec fn joined(base: Seq<char>, name: Seq<char>) -> Seq<char> {
    if base.len() == 0 || base.last() == '/' {
        base + name
    } else {
        base + seq!['/'] + name
    }
}

/// Whether `path` lies in the directory `dir`: it is `dir`, one `/`, and
/// something after it.
pub open spec fn lies_in(path: Seq<char>, dir: Seq<char>) -> bool {
    &&& path.len() > dir.len()
    &&& path.subrange(0, dir.len() as int) == dir
    &&& path[dir.len() as int] == '/'
}

/// Whether the `.` at index `dot` of `name` starts the extension: it is the
/// last `.` of the name and not its first character.
pub open spec fn starts_extension(name: Seq<char>, dot: int) -> bool {
    &&& 0 < dot < name.len()
    &&& name[dot] == '.'
    &&& forall|j: int| dot < j < name.len() ==> name[j] != '.'
}

/// The extension of a file name: what follows its last `.`. A name without a
/// `.`, and one whose only `.` is its first character, has none.
pub open spec fn extension_of(name: Seq<char>) -> Option<Seq<char>> {
    if exists|dot: int| starts_extension(name, dot) {
        let dot = choose|dot: int| starts_extension(name, dot);
        Some(name.subrange(dot + 1, name.len() as int))
    } else {
        None
    }
}

/// At most one `.` starts the extension.
pub proof fn lemma_extension_dot_unique(name: Seq<char>, a: int, b: int)
    requires
        starts_extension(name, a),
        starts_extension(name, b),
    ensures
        a == b,
{
}

/// Places `name` in the directory `base`.
pub fn join(base: &str, name: &str) -> (path: String)
    ensures
        path@ == joined(base@, name@),
{
    let n: usize = base.unicode_len();
    let mut path = String::from_str(base);
    if n > 0 && base.get_char(n - 1) != '/' {
        proof {
            reveal_strlit("/");
        }
        path.append("/");
    }
    path.append(name);
    path
}

/// The extension of a file name, without its dot.
pub fn extension<'a>(name: &'a str) -> (ext: Option<&'a str>)
    ensures
        match ext {
            Some(e) => extension_of(name@) == Some(e@),
            None => extension_of(name@) is None,
        },
{
    let n: usize = name.unicode_len();
    let mut i: usize = n;
    while i > 0
        invariant
            i <= n,
            n == name@.len(),
            forall|j: int| i <= j < n ==> name@[j] != '.',
        decreases i,
    {
        i -= 1;
        if name.get_char(i) == '.' {
            if i == 0 {
                return None;
            }
            proof {
                assert(starts_extension(name@, i as int));
                let dot = choose|dot: int| starts_extension(name@, dot);
                lemma_extension_dot_unique(name@, dot, i as int);
            }
            return Some(name.substring_char(i + 1, n));
        }
    }
    None
}

/// A name joined to a directory lies in it, whatever the name, as long as the
/// directory is not the empty path and does not itself end in `/`.
pub proof fn lemma_joined_lies_in(base: Seq<char>, name: Seq<char>)
    requires
        base.len() > 0,
        base.last() != '/',
    ensures
        lies_in(joined(base, name), base),
        joined(base, name) == base + seq!['/'] + name,
{
    let path = joined(base, name);
    assert(path.subrange(0, base.len() as int) =~= base);
}

/// A name joined to a directory gives a path that is not empty and does not
/// end in `/`, as long as the name is not empty and does not end in `/`.
pub proof fn lemma_joined_ends_like_name(base: Seq<char>, name: Seq<char>)
    requires
        name.len() > 0,
        name.last() != '/',
    ensures
        joined(base, name).len() > 0,
        joined(base, name).last() != '/',
{
}

} // verus!
