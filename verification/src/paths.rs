//! Destination computation: extracting a path's file-name component and
//! joining it onto the target directory.
//!
//! Paths are treated as plain character sequences with `/` as the separator.
//! Two degenerate inputs are handled without panicking, by deliberate choice:
//! a source with no extractable name (empty, or ending in a separator) yields
//! an empty name component, and joining an empty name onto a directory yields
//! the directory itself.

use vstd::prelude::*;

verus! {

/// The file-name component of a path: the suffix after the last separator,
/// empty when the path is empty or ends with a separator.
pub open spec fn file_name_of(s: Seq<char>) -> Seq<char>
    decreases s.len(),
{
    if s.len() == 0 {
        Seq::<char>::empty()
    } else if s.last() == '/' {
        Seq::<char>::empty()
    } else {
        file_name_of(s.drop_last()).push(s.last())
    }
}

/// Joining a name onto a directory: the directory itself when the name is
/// empty, the name itself when the directory is empty, and otherwise the two
/// with exactly one separator between them.
pub open spec fn join_of(dir: Seq<char>, name: Seq<char>) -> Seq<char> {
    if name.len() == 0 {
        dir
    } else if dir.len() == 0 {
        name
    } else if dir.last() == '/' {
        dir + name
    } else {
        dir + seq!['/'] + name
    }
}

/// Where a source is placed: its file-name component joined onto the target
/// directory.
pub open spec fn destination_of(dir: Seq<char>, source: Seq<char>) -> Seq<char> {
    join_of(dir, file_name_of(source))
}

/// The characters of a path's suffix that holds no separator, and is bounded
/// on its left by a separator or by the start of the path, are exactly the
/// path's file-name component.
proof fn lemma_file_name_suffix(s: Seq<char>, cut: int)
    requires
        0 <= cut <= s.len(),
        forall|j: int| cut <= j < s.len() ==> s[j] != '/',
        cut > 0 ==> s[cut - 1] == '/',
    ensures
        file_name_of(s) =~= s.subrange(cut, s.len() as int),
    decreases s.len(),
{
    if cut == s.len() {
        if s.len() > 0 {
            assert(s.last() == '/');
        }
    } else {
        assert(s.last() != '/');
        lemma_file_name_suffix(s.drop_last(), cut);
        assert(s.subrange(cut, s.len() as int) =~= s.drop_last().subrange(
            cut,
            s.len() - 1,
        ).push(s.last()));
    }
}

/// Extracts the file-name component of `source`: the suffix after the last
/// `/`, or the empty string when there is none to extract.
pub fn file_name_component(source: &str) -> (r: String)
    ensures
        r@ == file_name_of(source@),
{
    let n: usize = source.unicode_len();
    let mut cut: usize = n;
    while cut > 0 && source.get_char(cut - 1) != '/'
        invariant
            cut <= n,
            n == source@.len(),
            forall|j: int| cut <= j < n ==> source@[j] != '/',
        decreases cut,
    {
        cut = cut - 1;
    }
    proof {
        lemma_file_name_suffix(source@, cut as int);
    }
    let tail: &str = source.substring_char(cut, n);
    String::from_str(tail)
}

/// Joins a file name onto a directory path, inserting a `/` only where one
/// is needed, and leaving the directory untouched when the name is empty.
pub fn join_path(dir: &str, name: &str) -> (r: String)
    ensures
        r@ == join_of(dir@, name@),
{
    let dir_len: usize = dir.unicode_len();
    let name_len: usize = name.unicode_len();
    if name_len == 0 {
        String::from_str(dir)
    } else if dir_len == 0 {
        String::from_str(name)
    } else if dir.get_char(dir_len - 1) == '/' {
        String::from_str(dir).concat(name)
    } else {
        proof {
            reveal_strlit("/");
        }
        let r = String::from_str(dir).concat("/").concat(name);
        proof {
            assert(r@ =~= dir@ + seq!['/'] + name@);
        }
        r
    }
}

/// Computes the destination of `source`: its file-name component joined onto
/// `target_dir`.
pub fn destination_for(target_dir: &str, source: &str) -> (r: String)
    ensures
        r@ == destination_of(target_dir@, source@),
{
    let name = file_name_component(source);
    join_path(target_dir, name.as_str())
}

} // verus!
