//! Unix paths, held as text.
use vstd::prelude::*;

use crate::text::cat2;
use crate::text::cat3;
use crate::text::same_text;

verus! {

/// The path made by appending `part` to `base`: an absolute `part` replaces
/// the base, and otherwise one separator stands between the two.
pub open spec fn path_join(base: Seq<char>, part: Seq<char>) -> Seq<char> {
    if part.len() > 0 && part[0] == '/' {
        part
    } else if base.len() == 0 || base.last() == '/' {
        base + part
    } else {
        base + seq!['/'] + part
    }
}

/// Appends `part` to `base`.
pub fn join_path(base: &str, part: &str) -> (r: String)
    ensures
        r@ == path_join(base@, part@),
{
    let b: usize = base.unicode_len();
    if part.unicode_len() > 0 && part.get_char(0) == '/' {
        part.to_owned()
    } else if b == 0 || base.get_char(b - 1) == '/' {
        cat2(base, part)
    } else {
        proof {
            reveal_strlit("/");
            assert("/"@ =~= seq!['/']);
        }
        cat3(base, "/", part)
    }
}

/// The place of the last `c` in `s`, or -1 without one.
pub open spec fn last_of(s: Seq<char>, c: char) -> int
    decreases s.len(),
{
    if s.len() == 0 {
        -1
    } else if s.last() == c {
        s.len() - 1
    } else {
        last_of(s.drop_last(), c)
    }
}

/// Where the last `c` stands: inside the text, with no `c` behind it.
pub proof fn lemma_last_of(s: Seq<char>, c: char)
    ensures
        -1 <= last_of(s, c) < s.len(),
        last_of(s, c) >= 0 ==> s[last_of(s, c)] == c,
        forall|i: int| last_of(s, c) < i < s.len() ==> s[i] != c,
    decreases s.len(),
{
    if s.len() > 0 && s.last() != c {
        let rest = s.drop_last();
        lemma_last_of(rest, c);
        assert forall|i: int| last_of(s, c) < i < s.len() implies s[i] != c by {
            if i < s.len() - 1 {
                assert(rest[i] == s[i]);
            }
        }
    }
}

/// The number of characters up to and with the last `c`, or zero without one.
fn after_last(s: &str, c: char) -> (r: usize)
    ensures
        r == last_of(s@, c) + 1,
{
    let mut n: usize = s.unicode_len();
    while n > 0 && s.get_char(n - 1) != c
        invariant
            n <= s@.len(),
            forall|i: int| n <= i < s@.len() ==> s@[i] != c,
        decreases n,
    {
        n -= 1;
    }
    proof {
        lemma_last_of(s@, c);
    }
    n
}

/// What follows the last separator of a path.
pub open spec fn last_segment(s: Seq<char>) -> Seq<char> {
    s.skip(last_of(s, '/') + 1)
}

/// The final component of a path, where that is a name: trailing separators
/// and `.` components are passed over, and `..` is no name.
pub open spec fn file_name(s: Seq<char>) -> Option<Seq<char>>
    decreases s.len(),
{
    if s.len() == 0 {
        None
    } else if last_segment(s).len() == 0 || last_segment(s) == seq!['.'] {
        file_name(s.drop_last())
    } else if last_segment(s) == seq!['.', '.'] {
        None
    } else {
        Some(last_segment(s))
    }
}

/// The final component of a path, where that is a name.
pub fn path_file_name(path: &str) -> (r: Option<String>)
    ensures
        r is Some == file_name(path@) is Some,
        r is Some ==> r->0@ == file_name(path@)->0,
{
    let mut n: usize = path.unicode_len();
    proof {
        assert(path@.take(n as int) =~= path@);
    }
    while n > 0
        invariant
            n <= path@.len(),
            file_name(path@.take(n as int)) == file_name(path@),
        decreases n,
    {
        let s = path.substring_char(0, n);
        let k = after_last(s, '/');
        let ghost t = path@.take(n as int);
        proof {
            assert(s@ =~= t);
            lemma_last_of(t, '/');
            assert(last_segment(t) =~= s@.subrange(k as int, n as int));
            reveal_strlit(".");
            reveal_strlit("..");
            assert("."@ =~= seq!['.']);
            assert(".."@ =~= seq!['.', '.']);
        }
        let segment = s.substring_char(k, n);
        if k == n || same_text(segment, ".") {
            proof {
                assert(t.drop_last() =~= path@.take(n - 1));
            }
            n -= 1;
        } else if same_text(segment, "..") {
            return None;
        } else {
            return Some(segment.to_owned());
        }
    }
    None
}

/// A file name without its extension; a leading dot starts no extension.
pub open spec fn stem_of(name: Seq<char>) -> Seq<char> {
    if last_of(name, '.') <= 0 {
        name
    } else {
        name.take(last_of(name, '.'))
    }
}

/// The final component of a path without its extension.
pub open spec fn file_stem(s: Seq<char>) -> Option<Seq<char>> {
    match file_name(s) {
        Some(name) => Some(stem_of(name)),
        None => None,
    }
}

/// The final component of a path without its extension.
pub fn path_file_stem(path: &str) -> (r: Option<String>)
    ensures
        r is Some == file_stem(path@) is Some,
        r is Some ==> r->0@ == file_stem(path@)->0,
{
    match path_file_name(path) {
        Some(name) => {
            let k = after_last(name.as_str(), '.');
            proof {
                lemma_last_of(name@, '.');
            }
            if k <= 1 {
                Some(name)
            } else {
                proof {
                    assert(name@.subrange(0, k - 1) =~= name@.take(k - 1));
                }
                Some(name.as_str().substring_char(0, k - 1).to_owned())
            }
        },
        None => None,
    }
}

/// A relative part comes behind the base, with one separator between the two,
/// and an absolute one replaces the base.
pub proof fn law_path_join(base: Seq<char>, part: Seq<char>)
    requires
        part.len() == 0 || part[0] != '/',
    ensures
        base.len() > 0 && base.last() != '/' ==> path_join(base, part) == base + seq!['/'] + part,
        path_join(base + seq!['/'], part) == base + seq!['/'] + part,
        path_join(Seq::empty(), part) == part,
        path_join(base, seq!['/'] + part) == seq!['/'] + part,
{
    assert(Seq::<char>::empty() + part =~= part);
}

/// The name of a file is what follows the last separator of its path, and
/// separators behind it do not matter.
pub proof fn law_file_name(dir: Seq<char>, name: Seq<char>)
    requires
        name.len() > 0,
        !name.contains('/'),
        name != seq!['.'],
        name != seq!['.', '.'],
    ensures
        file_name(name) == Some(name),
        file_name(dir + seq!['/'] + name) == Some(name),
        file_name(dir + seq!['/'] + name + seq!['/']) == Some(name),
{
    lemma_last_of(name, '/');
    if last_of(name, '/') >= 0 {
        assert(name.contains(name[last_of(name, '/')]));
    }
    assert(last_segment(name) =~= name);
    let path = dir + seq!['/'] + name;
    lemma_last_of(path, '/');
    assert(path[dir.len() as int] == '/');
    if last_of(path, '/') > dir.len() {
        let k = last_of(path, '/') - dir.len() - 1;
        assert(path[last_of(path, '/')] == name[k]);
        assert(name.contains(name[k]));
    }
    assert(last_segment(path) =~= name);
    let slashed = path + seq!['/'];
    lemma_last_of(slashed, '/');
    assert(slashed.last() == '/');
    assert(last_segment(slashed).len() == 0);
    assert(slashed.drop_last() =~= path);
}

/// A path that ends in two dots, or holds no name, has no file name.
pub proof fn law_no_file_name(dir: Seq<char>)
    ensures
        file_name(Seq::empty()) is None,
        file_name(seq!['/']) is None,
        file_name(dir + seq!['/', '.', '.']) is None,
{
    let root = seq!['/'];
    lemma_last_of(root, '/');
    assert(last_segment(root).len() == 0);
    assert(root.drop_last() =~= Seq::<char>::empty());
    let up = dir + seq!['/', '.', '.'];
    lemma_last_of(up, '/');
    let n = dir.len() as int;
    assert(up[n] == '/' && up[n + 1] == '.' && up[n + 2] == '.');
    assert(last_segment(up) =~= seq!['.', '.']);
    assert(last_segment(up)[1] == '.');
    assert(last_segment(up) != seq!['.']);
}

/// The stem of a name is what stands before its last dot; a name without a dot,
/// or with no dot but at its beginning, is its own stem.
pub proof fn law_stem_of(stem: Seq<char>, extension: Seq<char>)
    requires
        !extension.contains('.'),
    ensures
        stem.len() > 0 ==> stem_of(stem + seq!['.'] + extension) == stem,
        stem_of(extension) == extension,
        stem_of(seq!['.'] + extension) == seq!['.'] + extension,
{
    let name = stem + seq!['.'] + extension;
    lemma_last_of(name, '.');
    assert(name[stem.len() as int] == '.');
    if last_of(name, '.') > stem.len() {
        let k = last_of(name, '.') - stem.len() - 1;
        assert(name[last_of(name, '.')] == extension[k]);
        assert(extension.contains(extension[k]));
    }
    assert(name.take(stem.len() as int) =~= stem);
    lemma_last_of(extension, '.');
    if last_of(extension, '.') >= 0 {
        assert(extension.contains(extension[last_of(extension, '.')]));
    }
    let hidden = seq!['.'] + extension;
    lemma_last_of(hidden, '.');
    if last_of(hidden, '.') > 0 {
        let k = last_of(hidden, '.') - 1;
        assert(hidden[last_of(hidden, '.')] == extension[k]);
        assert(extension.contains(extension[k]));
    }
}

} // verus!
