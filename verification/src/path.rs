use vstd::prelude::*;

use vstd::string::StringExecFns;

verus! {

/// Whether `part` occurs in `whole` as a run of consecutive characters.
pub open spec fn is_contiguous_part(part: Seq<char>, whole: Seq<char>) -> bool {
    exists|i: int|
        0 <= i && i + part.len() <= whole.len() && #[trigger] whole.subrange(i, i + part.len()) == part
}

/// A character that no platform treats as a separator or a drive marker.
pub open spec fn is_plain_char(c: char) -> bool {
    c != '/' && c != '\\' && c != ':'
}

/// `path` is a directory part, a `/`, then `name`, where every platform
/// reads `name` as the last component: the directory part is not empty,
/// does not start with `/` and holds no `\`; the name is not empty, is not
/// `.` or `..`, and holds no `/`, `\` or `:`.
pub open spec fn ends_in_plain_name(path: Seq<char>, name: Seq<char>) -> bool {
    let k = path.len() - name.len() - 1;
    &&& name.len() > 0
    &&& !(name.len() == 1 && name[0] == '.')
    &&& !(name.len() == 2 && name[0] == '.' && name[1] == '.')
    &&& forall|i: int| 0 <= i < name.len() ==> is_plain_char(#[trigger] name[i])
    &&& k >= 1
    &&& path[k] == '/'
    &&& path.subrange(k + 1, path.len() as int) == name
    &&& path[0] != '/'
    &&& forall|i: int| 0 <= i < k ==> #[trigger] path[i] != '\\'
}

/// Whether the path ends in a plain name as `ends_in_plain_name` describes.
pub open spec fn has_plain_file_name(path: Seq<char>) -> bool {
    exists|n: Seq<char>| ends_in_plain_name(path, n)
}

/// That plain name (the text after the path's last `/`).
pub open spec fn plain_file_name(path: Seq<char>) -> Seq<char> {
    choose|n: Seq<char>| ends_in_plain_name(path, n)
}

/// A path ends in at most one plain name, so `plain_file_name` is that name.
pub proof fn lemma_plain_file_name(path: Seq<char>, n: Seq<char>)
    requires
        ends_in_plain_name(path, n),
    ensures
        has_plain_file_name(path),
        plain_file_name(path) == n,
{
    let m = plain_file_name(path);
    assert(ends_in_plain_name(path, m));
    if m.len() < n.len() {
        let k = path.len() - m.len() - 1;
        let kn = path.len() - n.len() - 1;
        assert(path[k] == n[k - kn - 1]);
        assert(is_plain_char(n[k - kn - 1]));
    } else if n.len() < m.len() {
        let k = path.len() - n.len() - 1;
        let km = path.len() - m.len() - 1;
        assert(path[k] == m[k - km - 1]);
        assert(is_plain_char(m[k - km - 1]));
    }
}

/// The last `.` decides the stem: the text before it where that is not
/// empty, else the whole name.
pub proof fn lemma_name_stem(name: Seq<char>, k: int)
    requires
        is_last_dot(name, k),
    ensures
        name_stem(name) == (if k > 0 { name.take(k) } else { name }),
{
    if exists|j: int| is_last_dot(name, j) && j > 0 {
        let j = choose|j: int| is_last_dot(name, j) && j > 0;
        if j < k {
            assert(name[k] == '.');
        } else if k < j {
            assert(name[j] == '.');
        }
    }
}

/// `path` is a directory part, a `\`, then `name`, in the form of a Windows
/// path: the directory part is not empty, starts with neither `\` nor `/`
/// and holds no `/`; the name is not empty, is not `.` or `..`, and holds no
/// `/`, `\` or `:`. Where `\` separates components (Windows) the last one
/// is `name`; elsewhere the whole path is one component.
pub open spec fn ends_in_backslash_name(path: Seq<char>, name: Seq<char>) -> bool {
    let k = path.len() - name.len() - 1;
    &&& name.len() > 0
    &&& !(name.len() == 1 && name[0] == '.')
    &&& !(name.len() == 2 && name[0] == '.' && name[1] == '.')
    &&& forall|i: int| 0 <= i < name.len() ==> is_plain_char(#[trigger] name[i])
    &&& k >= 1
    &&& path[k] == '\\'
    &&& path.subrange(k + 1, path.len() as int) == name
    &&& path[0] != '\\'
    &&& path[0] != '/'
    &&& forall|i: int| 0 <= i < k ==> #[trigger] path[i] != '/'
}

/// Whether the path ends in a name after a `\` as `ends_in_backslash_name`
/// describes.
pub open spec fn has_backslash_file_name(path: Seq<char>) -> bool {
    exists|n: Seq<char>| ends_in_backslash_name(path, n)
}

/// That name (the text after the path's last `\`).
pub open spec fn backslash_file_name(path: Seq<char>) -> Seq<char> {
    choose|n: Seq<char>| ends_in_backslash_name(path, n)
}

/// A path ends in at most one name after a `\`, so `backslash_file_name`
/// is that name.
pub proof fn lemma_backslash_file_name(path: Seq<char>, n: Seq<char>)
    requires
        ends_in_backslash_name(path, n),
    ensures
        has_backslash_file_name(path),
        backslash_file_name(path) == n,
{
    let m = backslash_file_name(path);
    assert(ends_in_backslash_name(path, m));
    if m.len() < n.len() {
        let k = path.len() - m.len() - 1;
        let kn = path.len() - n.len() - 1;
        assert(path[k] == n[k - kn - 1]);
        assert(is_plain_char(n[k - kn - 1]));
    } else if n.len() < m.len() {
        let k = path.len() - n.len() - 1;
        let km = path.len() - m.len() - 1;
        assert(path[k] == m[k - km - 1]);
        assert(is_plain_char(m[k - km - 1]));
    }
}

/// Whether `k` is the position of the last `.` in `name`.
pub open spec fn is_last_dot(name: Seq<char>, k: int) -> bool {
    &&& 0 <= k < name.len()
    &&& name[k] == '.'
    &&& forall|j: int| k < j < name.len() ==> #[trigger] name[j] != '.'
}

/// The stem of a file name: the text before its last `.`, where that text
/// is not empty; else the whole name.
pub open spec fn name_stem(name: Seq<char>) -> Seq<char> {
    if exists|k: int| is_last_dot(name, k) && k > 0 {
        name.take(choose|k: int| is_last_dot(name, k) && k > 0)
    } else {
        name
    }
}

/// std's `Path::file_stem`, taken as text. How a path splits into
/// components depends on the platform, so in general which part comes back
/// is left open. What holds everywhere: a stem is a non-empty slice of the
/// path's own text; an empty path has none; and a path that ends in a plain
/// name (`ends_in_plain_name`) has that name's stem.
#[verifier::external_body]
pub(crate) fn file_stem(path: &str) -> (r: Option<String>)
    ensures
        r matches Some(s) ==> is_contiguous_part(s@, path@) && s@.len() > 0 && (has_plain_file_name(
            path@,
        ) ==> s@ == name_stem(plain_file_name(path@))) && (has_backslash_file_name(path@) ==> (s@
            == name_stem(backslash_file_name(path@)) || s@ == name_stem(path@))),
        r is None || path@.len() > 0,
        r is Some || !(has_plain_file_name(path@) || has_backslash_file_name(path@)),
{
    match std::path::Path::new(path).file_stem() {
        Some(os) => match os.to_str() {
            Some(t) => Some(t.to_string()),
            None => None,
        },
        None => None,
    }
}

/// std's `Path::file_name`, taken as text. As for `file_stem`, which part
/// comes back depends in general on the platform. What holds everywhere: a
/// name is a non-empty slice of the path's own text; an empty path has none;
/// and a path that ends in a plain name has that name.
#[verifier::external_body]
pub(crate) fn file_name(path: &str) -> (r: Option<String>)
    ensures
        r matches Some(s) ==> is_contiguous_part(s@, path@) && s@.len() > 0 && (has_plain_file_name(
            path@,
        ) ==> s@ == plain_file_name(path@)) && (has_backslash_file_name(path@) ==> (s@
            == backslash_file_name(path@) || s@ == path@)),
        r is None || path@.len() > 0,
        r is Some || !(has_plain_file_name(path@) || has_backslash_file_name(path@)),
{
    match std::path::Path::new(path).file_name() {
        Some(os) => match os.to_str() {
            Some(t) => Some(t.to_string()),
            None => None,
        },
        None => None,
    }
}

/// The name a preset card shows for an executable path, given the path's
/// file name: that name where there is one, else the whole path.
pub fn display_name_from(path: &str, name: Option<String>) -> (r: String)
    ensures
        r@ == (match name {
            Some(n) => n@,
            None => path@,
        }),
{
    match name {
        Some(n) => n,
        None => String::from_str(path),
    }
}

/// The name under which a preset card shows an executable: the file name of
/// its path, where there is one, else the whole path.
pub fn executable_display_name(path: &str) -> (r: String)
    ensures
        is_contiguous_part(r@, path@),
        path@.len() > 0 ==> r@.len() > 0,
        path@.len() == 0 ==> r@ == path@,
        has_plain_file_name(path@) ==> r@ == plain_file_name(path@),
        has_backslash_file_name(path@) ==> (r@ == backslash_file_name(path@) || r@ == path@),
{
    let name = file_name(path);
    let r = display_name_from(path, name);
    assert(path@.subrange(0, 0 + path@.len() as int) =~= path@);
    r
}

} // verus!
