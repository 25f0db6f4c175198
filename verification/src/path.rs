//! The text of a path: separators, the file name, the directory that holds
//! it, and the extension.
//!
//! A path is read as plain text. Its components are separated by `/`; the
//! file name is whatever follows the last separator, and the extension is
//! whatever follows the last `.` of the file name. Nothing here looks at a
//! file system.

use vstd::prelude::*;
use vstd::string::*;

verus! {

/// Separates the components of a path.
pub const SEPARATOR: char = '/';

/// Separates a file name from its extension.
pub const DOT: char = '.';

/// The index at which `c` occurs last in `s`, or -1 where it does not occur.
pub open spec fn last_index_of(s: Seq<char>, c: char) -> int
    decreases s.len(),
{
    if s.len() == 0 {
        -1
    } else if s.last() == c {
        s.len() - 1
    } else {
        last_index_of(s.drop_last(), c)
    }
}

/// What follows the last separator of `path`: all of it where there is none.
pub open spec fn file_name_of(path: Seq<char>) -> Seq<char> {
    path.subrange(last_index_of(path, SEPARATOR) + 1, path.len() as int)
}

/// What precedes the last separator of `path`: nothing where there is none,
/// and the root where the last separator opens the path.
pub open spec fn dir_of(path: Seq<char>) -> Seq<char> {
    let cut = last_index_of(path, SEPARATOR);
    if cut < 0 {
        Seq::empty()
    } else if cut == 0 {
        path.subrange(0, 1)
    } else {
        path.subrange(0, cut)
    }
}

/// What follows the last dot of `name`, if it has one.
pub open spec fn extension_of(name: Seq<char>) -> Option<Seq<char>> {
    let cut = last_index_of(name, DOT);
    if cut < 0 {
        None
    } else {
        Some(name.subrange(cut + 1, name.len() as int))
    }
}

/// The path of the entry `name` of the directory `dir`: the two with one
/// separator between them, and the name alone where no directory is named.
pub open spec fn join_of(dir: Seq<char>, name: Seq<char>) -> Seq<char> {
    if dir.len() == 0 || dir.last() == SEPARATOR {
        dir + name
    } else {
        dir + seq![SEPARATOR] + name
    }
}

/// `last_index_of` gives an index of `s` or -1, `c` stands at that index, and
/// `c` does not occur after it.
pub proof fn lemma_last_index_of(s: Seq<char>, c: char)
    ensures
        -1 <= last_index_of(s, c) < s.len(),
        last_index_of(s, c) >= 0 ==> s[last_index_of(s, c)] == c,
        forall|j: int| last_index_of(s, c) < j < s.len() ==> s[j] != c,
    decreases s.len(),
{
    if s.len() > 0 && s.last() != c {
        let front = s.drop_last();
        lemma_last_index_of(front, c);
        assert forall|j: int| last_index_of(s, c) < j < s.len() implies s[j] != c by {
            if j < front.len() {
                assert(front[j] == s[j]);
            }
        }
    }
}

/// An index that holds `c` and after which `c` does not occur is the one that
/// `last_index_of` gives; so is -1 where `c` does not occur at all.
pub proof fn lemma_last_index_of_is(s: Seq<char>, c: char, i: int)
    requires
        -1 <= i < s.len(),
        i >= 0 ==> s[i] == c,
        forall|j: int| i < j < s.len() ==> s[j] != c,
    ensures
        last_index_of(s, c) == i,
{
    lemma_last_index_of(s, c);
}

/// The file name of a path holds no separator.
pub proof fn lemma_file_name_has_no_separator(path: Seq<char>)
    ensures
        !file_name_of(path).contains(SEPARATOR),
        last_index_of(file_name_of(path), SEPARATOR) == -1,
        file_name_of(file_name_of(path)) == file_name_of(path),
{
    lemma_last_index_of(path, SEPARATOR);
    let name = file_name_of(path);
    let cut = last_index_of(path, SEPARATOR);
    assert forall|j: int| 0 <= j < name.len() implies name[j] != SEPARATOR by {
        assert(name[j] == path[cut + 1 + j]);
    }
    lemma_last_index_of_is(name, SEPARATOR, -1);
    assert(file_name_of(name) =~= name);
}

/// The file name of a joined path is that of the entry's name. Where the
/// name is one component, it is the name itself.
pub proof fn lemma_file_name_of_join(dir: Seq<char>, name: Seq<char>)
    ensures
        file_name_of(join_of(dir, name)) == file_name_of(name),
        !name.contains(SEPARATOR) ==> file_name_of(join_of(dir, name)) == name,
{
    let joined = join_of(dir, name);
    let shift = joined.len() - name.len();
    let cut = last_index_of(name, SEPARATOR);
    lemma_last_index_of(name, SEPARATOR);
    assert forall|j: int| shift + cut < j < joined.len() implies joined[j] != SEPARATOR by {
        assert(joined[j] == name[j - shift]);
    }
    if cut >= 0 {
        assert(joined[shift + cut] == name[cut]);
    } else if shift > 0 {
        assert(joined[shift - 1] == SEPARATOR);
    }
    lemma_last_index_of_is(joined, SEPARATOR, shift + cut);
    assert(file_name_of(joined) =~= file_name_of(name));
    if !name.contains(SEPARATOR) {
        if cut >= 0 {
            assert(name.contains(name[cut]));
        }
        assert(file_name_of(name) =~= name);
    }
}

/// The characters of `s`, in order.
pub fn chars_of(s: &str) -> (out: Vec<char>)
    ensures
        out@ == s@,
{
    let mut out: Vec<char> = Vec::new();
    for c in it: s.chars()
        invariant
            it.seq() == s@,
            out@ == it.seq().take(it.index() as int),
    {
        out.push(c);
    }
    out
}

/// Where `c` stands last among `chars`.
pub fn last_index(chars: &Vec<char>, c: char) -> (found: Option<usize>)
    ensures
        match found {
            Some(i) => i < chars.len() && last_index_of(chars@, c) == i,
            None => last_index_of(chars@, c) == -1,
        },
{
    let mut i: usize = chars.len();
    while i > 0
        invariant
            i <= chars.len(),
            forall|j: int| i <= j < chars.len() ==> chars@[j] != c,
        decreases i,
    {
        if chars[i - 1] == c {
            proof {
                lemma_last_index_of_is(chars@, c, i - 1);
            }
            return Some(i - 1);
        }
        i -= 1;
    }
    proof {
        lemma_last_index_of_is(chars@, c, -1);
    }
    None
}

/// Whether `a` and `b` hold the same text.
pub fn same_text(a: &str, b: &str) -> (same: bool)
    ensures
        same == (a@ == b@),
{
    let left = chars_of(a);
    let right = chars_of(b);
    if left.len() != right.len() {
        return false;
    }
    let mut i: usize = 0;
    while i < left.len()
        invariant
            left@ == a@,
            right@ == b@,
            i <= left.len(),
            left.len() == right.len(),
            forall|j: int| 0 <= j < i ==> left@[j] == right@[j],
        decreases left.len() - i,
    {
        if left[i] != right[i] {
            return false;
        }
        i += 1;
    }
    assert(left@ =~= right@);
    true
}

/// Whether `text` begins with `prefix`.
pub fn starts_with(text: &str, prefix: &str) -> (yes: bool)
    ensures
        yes == prefix@.is_prefix_of(text@),
{
    let whole = chars_of(text);
    let head = chars_of(prefix);
    if head.len() > whole.len() {
        return false;
    }
    let mut i: usize = 0;
    while i < head.len()
        invariant
            whole@ == text@,
            head@ == prefix@,
            i <= head.len() <= whole.len(),
            forall|j: int| 0 <= j < i ==> head@[j] == whole@[j],
        decreases head.len() - i,
    {
        if head[i] != whole[i] {
            assert(whole@.subrange(0, head@.len() as int)[i as int] == whole@[i as int]);
            return false;
        }
        i += 1;
    }
    assert(head@ =~= whole@.subrange(0, head@.len() as int));
    true
}

/// The file name of `path`.
pub fn file_name(path: &str) -> (name: &str)
    ensures
        name@ == file_name_of(path@),
{
    let chars = chars_of(path);
    let start: usize = match last_index(&chars, SEPARATOR) {
        Some(i) => i + 1,
        None => 0,
    };
    path.substring_char(start, chars.len())
}

/// The directory that holds the file name of `path`.
pub fn dir(path: &str) -> (dir: &str)
    ensures
        dir@ == dir_of(path@),
{
    let chars = chars_of(path);
    match last_index(&chars, SEPARATOR) {
        None => path.substring_char(0, 0),
        Some(i) => if i == 0 {
            path.substring_char(0, 1)
        } else {
            path.substring_char(0, i)
        },
    }
}

/// The extension of the file name `name`.
pub fn extension(name: &str) -> (ext: Option<&str>)
    ensures
        match ext {
            Some(e) => extension_of(name@) == Some(e@),
            None => extension_of(name@) is None,
        },
{
    let chars = chars_of(name);
    match last_index(&chars, DOT) {
        None => None,
        Some(i) => Some(name.substring_char(i + 1, chars.len())),
    }
}

/// The path of the entry `name` of the directory `dir`.
pub fn join(dir: &str, name: &str) -> (path: String)
    ensures
        path@ == join_of(dir@, name@),
{
    let chars = chars_of(dir);
    let mut path = String::from_str(dir);
    if chars.len() > 0 && chars[chars.len() - 1] != SEPARATOR {
        path.append("/");
        proof {
            reveal_strlit("/");
            assert("/"@ =~= seq![SEPARATOR]);
        }
    }
    path.append(name);
    path
}

} // verus!
