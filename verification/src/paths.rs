//! Path text handling for the working-directory stager.
//!
//! Paths are plain strings here; the staging destination inside the data
//! directory is deterministic per slot, so a repeated run overwrites the
//! previous staged copy instead of accumulating files.

use vstd::prelude::*;

verus! {

/// The characters of `s` strictly after the last occurrence of `c`, or all of
/// `s` when `c` does not occur.
pub open spec fn after_last(s: Seq<char>, c: char) -> Seq<char>
    decreases s.len(),
{
    if s.len() == 0 {
        s
    } else if s.last() == c {
        Seq::empty()
    } else {
        after_last(s.drop_last(), c).push(s.last())
    }
}

proof fn lemma_after_last_absent(s: Seq<char>, c: char)
    requires
        forall|j: int| 0 <= j < s.len() ==> s[j] != c,
    ensures
        after_last(s, c) == s,
    decreases s.len(),
{
    if s.len() > 0 {
        lemma_after_last_absent(s.drop_last(), c);
        assert(after_last(s, c) =~= s);
    }
}

proof fn lemma_after_last_skip(s: Seq<char>, c: char, i: int)
    requires
        0 <= i < s.len(),
        s[i] == c,
        forall|j: int| i < j < s.len() ==> s[j] != c,
    ensures
        after_last(s, c) == s.skip(i + 1),
    decreases s.len(),
{
    if i == s.len() - 1 {
        assert(after_last(s, c) =~= s.skip(i + 1));
    } else {
        lemma_after_last_skip(s.drop_last(), c, i);
        assert(after_last(s, c) =~= s.skip(i + 1));
    }
}

/// One past the position of the last occurrence of `c` in `s`, or `0` when
/// `c` does not occur.
fn index_after_last(s: &str, c: char) -> (i: usize)
    ensures
        i <= s@.len(),
        i > 0 ==> s@[i - 1] == c,
        forall|j: int| i <= j < s@.len() ==> s@[j] != c,
{
    let n = s.unicode_len();
    let mut i = n;
    while i > 0
        invariant
            i <= n,
            n == s@.len(),
            forall|j: int| i <= j < s@.len() ==> s@[j] != c,
        decreases i,
    {
        if s.get_char(i - 1) == c {
            return i;
        }
        i = i - 1;
    }
    0
}

/// The file-name component of a path: everything after the last separator.
pub open spec fn spec_file_name(path: Seq<char>) -> Seq<char> {
    after_last(path, '/')
}

/// The extension the stager preserves: the non-empty suffix of the file name
/// after its last dot, provided that dot stands after the first character.
/// Dotless names, names that start with their only dot, and names that end in
/// a dot have no extension.
pub open spec fn spec_extension_of(path: Seq<char>) -> Option<Seq<char>> {
    let name = spec_file_name(path);
    if (exists|j: int| 1 <= j < name.len() && name[j] == '.') && after_last(name, '.').len() > 0 {
        Some(after_last(name, '.'))
    } else {
        None
    }
}

/// Extracts the extension of `path`, or `None` when it has none.
pub fn extension_of(path: &str) -> (r: Option<String>)
    ensures
        r is Some <==> spec_extension_of(path@) is Some,
        r matches Some(e) ==> Some(e@) == spec_extension_of(path@),
{
    let n = path.unicode_len();
    let sep = index_after_last(path, '/');
    let name = path.substring_char(sep, n);
    proof {
        if sep > 0 {
            lemma_after_last_skip(path@, '/', sep - 1);
        } else {
            lemma_after_last_absent(path@, '/');
            assert(path@.skip(0) =~= path@);
        }
        assert(name@ == spec_file_name(path@));
    }
    let m = name.unicode_len();
    let dot = index_after_last(name, '.');
    proof {
        if dot > 0 {
            lemma_after_last_skip(name@, '.', dot - 1);
        } else {
            lemma_after_last_absent(name@, '.');
        }
    }
    if dot >= 2 && dot < m {
        let ext = name.substring_char(dot, m);
        proof {
            assert(after_last(name@, '.') == name@.skip(dot as int));
            assert(1 <= dot - 1 < name@.len() && name@[dot - 1] == '.');
        }
        Some(ext.to_owned())
    } else {
        proof {
            if dot == 0 {
                assert(forall|j: int| 1 <= j < name@.len() ==> name@[j] != '.');
            } else if dot == 1 {
                assert(forall|j: int| 1 <= j < name@.len() ==> name@[j] != '.');
            } else {
                assert(after_last(name@, '.').len() == 0);
            }
        }
        None
    }
}

/// A path inside a directory: `dir`, a separator, and `name`.
pub open spec fn spec_join_path(dir: Seq<char>, name: Seq<char>) -> Seq<char> {
    dir + "/"@ + name
}

/// Joins a directory and a file name with a separator.
pub fn join_path(dir: &str, name: &str) -> (r: String)
    ensures
        r@ == spec_join_path(dir@, name@),
{
    let mut joined = dir.to_owned();
    joined.append("/");
    joined.append(name);
    joined
}

/// The staging role an input image plays in a request: the first or second
/// image of a two-image comparison, or the single image of a detection run.
#[derive(Clone, Copy, Debug, PartialEq, Eq, Structural)]
pub enum Slot {
    First,
    Second,
    Single,
}

/// The fixed stem of the staged copy for a slot.
pub open spec fn spec_slot_stem(slot: Slot) -> Seq<char> {
    match slot {
        Slot::First => "old_img_1"@,
        Slot::Second => "old_img_2"@,
        Slot::Single => "old_img"@,
    }
}

/// The deterministic file name of the staged copy for a slot: the slot's
/// stem, a dot, and the preserved extension.
pub open spec fn spec_staged_name(slot: Slot, extension: Seq<char>) -> Seq<char> {
    spec_slot_stem(slot) + "."@ + extension
}

/// Builds the deterministic staged file name for `slot`.
pub fn staged_file_name(slot: Slot, extension: &str) -> (r: String)
    ensures
        r@ == spec_staged_name(slot, extension@),
{
    let mut name = match slot {
        Slot::First => "old_img_1".to_owned(),
        Slot::Second => "old_img_2".to_owned(),
        Slot::Single => "old_img".to_owned(),
    };
    name.append(".");
    name.append(extension);
    name
}

} // verus!
