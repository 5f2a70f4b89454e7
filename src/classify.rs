//! Path classification: file names, extensions, image candidates and hidden names.
use vstd::prelude::*;
use vstd::string::*;

verus! {

/// The character that separates the components of a path.
pub const SEP: char = '/';

/// Index just past the last character of `p[..e]` that is not a separator.
pub open spec fn end_from(p: Seq<char>, e: int) -> int
    decreases e,
{
    if e > 0 && p[e - 1] == SEP {
        end_from(p, e - 1)
    } else {
        e
    }
}

/// Index of the first character of the run of non-separators that ends at `s`.
pub open spec fn start_from(p: Seq<char>, s: int) -> int
    decreases s,
{
    if s > 0 && p[s - 1] != SEP {
        start_from(p, s - 1)
    } else {
        s
    }
}

/// The last component of a path, trailing separators ignored.
pub open spec fn last_component(p: Seq<char>) -> Seq<char> {
    let e = end_from(p, p.len() as int);
    p.subrange(start_from(p, e), e)
}

/// The file name of a path: its last component, unless that is empty, `.` or `..`.
pub open spec fn file_name_of(p: Seq<char>) -> Option<Seq<char>> {
    let n = last_component(p);
    if n.len() == 0 || n == seq!['.'] || n == seq!['.', '.'] {
        None
    } else {
        Some(n)
    }
}

/// Index of the last `.` in `n[..i]`, or -1 when there is none.
pub open spec fn last_dot_from(n: Seq<char>, i: int) -> int
    decreases i,
{
    if i <= 0 {
        -1
    } else if n[i - 1] == '.' {
        i - 1
    } else {
        last_dot_from(n, i - 1)
    }
}

/// The extension of a file name: what follows its last dot, provided that
/// something precedes that dot.
pub open spec fn extension_of(n: Seq<char>) -> Option<Seq<char>> {
    let d = last_dot_from(n, n.len() as int);
    if d <= 0 {
        None
    } else {
        Some(n.subrange(d + 1, n.len() as int))
    }
}

/// `c` is the lowercase ASCII letter `w` in either case.
pub open spec fn same_letter(c: char, w: char) -> bool {
    c == w || (c as u32) + 32 == (w as u32)
}

/// `e` spells the lowercase ASCII word `w`, ignoring ASCII case.
pub open spec fn spells(e: Seq<char>, w: Seq<char>) -> bool {
    e.len() == w.len() && forall|i: int| 0 <= i < e.len() ==> same_letter(#[trigger] e[i], w[i])
}

/// The extensions that mark a candidate image.
pub open spec fn is_image_extension(e: Seq<char>) -> bool {
    spells(e, seq!['j', 'p', 'g']) || spells(e, seq!['j', 'p', 'e', 'g']) || spells(
        e,
        seq!['p', 'n', 'g'],
    ) || spells(e, seq!['w', 'e', 'b', 'p'])
}

/// A path is a candidate image when its file name has one of the image extensions.
pub open spec fn is_image_path(p: Seq<char>) -> bool {
    match file_name_of(p) {
        Some(n) => match extension_of(n) {
            Some(e) => is_image_extension(e),
            None => false,
        },
        None => false,
    }
}

/// A name that follows the hidden-entry convention.
pub open spec fn is_hidden(n: Seq<char>) -> bool {
    n.len() > 0 && n[0] == '.'
}

/// Bounds of the last component of `p`.
fn component_bounds(p: &str) -> (r: (usize, usize))
    ensures
        r.1 == end_from(p@, p@.len() as int),
        r.0 == start_from(p@, r.1 as int),
        r.0 <= r.1 <= p@.len(),
{
    let len = p.unicode_len();
    let mut e: usize = len;
    while e > 0 && p.get_char(e - 1) == SEP
        invariant
            e <= len == p@.len(),
            end_from(p@, e as int) == end_from(p@, len as int),
        decreases e,
    {
        e = e - 1;
    }
    let mut s: usize = e;
    while s > 0 && p.get_char(s - 1) != SEP
        invariant
            s <= e <= len == p@.len(),
            e == end_from(p@, len as int),
            start_from(p@, s as int) == start_from(p@, e as int),
        decreases s,
    {
        s = s - 1;
    }
    (s, e)
}

/// The file name of `p`, as `file_name_of` describes it.
pub fn file_name(p: &str) -> (r: Option<String>)
    ensures
        r matches Some(n) ==> file_name_of(p@) == Some(n@),
        r is None ==> file_name_of(p@) is None,
{
    let (s, e) = component_bounds(p);
    let n = p.substring_char(s, e);
    let k = e - s;
    if k == 0 || (k == 1 && n.get_char(0) == '.') || (k == 2 && n.get_char(0) == '.'
        && n.get_char(1) == '.') {
        proof {
            if k == 1 {
                assert(n@ =~= seq!['.']);
            }
            if k == 2 {
                assert(n@ =~= seq!['.', '.']);
            }
        }
        None
    } else {
        proof {
            if k == 1 {
                assert(n@.len() != seq!['.', '.'].len());
            }
            if k == 2 {
                assert(n@ != seq!['.']);
            }
        }
        Some(String::from_str(n))
    }
}

/// `e` spells `w`, ignoring ASCII case.
fn spells_word(e: &str, w: &str) -> (r: bool)
    requires
        forall|i: int| 0 <= i < w@.len() ==> 'a' <= #[trigger] w@[i] <= 'z',
    ensures
        r == spells(e@, w@),
{
    let n = e.unicode_len();
    if n != w.unicode_len() {
        return false;
    }
    let mut i: usize = 0;
    while i < n
        invariant
            i <= n == e@.len() == w@.len(),
            forall|j: int| 0 <= j < i ==> same_letter(#[trigger] e@[j], w@[j]),
        decreases n - i,
    {
        let c = e.get_char(i);
        let d = w.get_char(i);
        if !(c == d || (c as u32) + 32 == (d as u32)) {
            return false;
        }
        i = i + 1;
    }
    true
}

/// The extension of the file name `n`, as `extension_of` describes it.
pub fn extension(n: &str) -> (r: Option<String>)
    ensures
        r matches Some(e) ==> extension_of(n@) == Some(e@),
        r is None ==> extension_of(n@) is None,
{
    let len = n.unicode_len();
    let mut i: usize = len;
    while i > 0 && n.get_char(i - 1) != '.'
        invariant
            i <= len == n@.len(),
            last_dot_from(n@, i as int) == last_dot_from(n@, len as int),
        decreases i,
    {
        i = i - 1;
    }
    if i <= 1 {
        None
    } else {
        Some(String::from_str(n.substring_char(i, len)))
    }
}

/// True when the extension of `path`'s file name is `jpg`, `jpeg`, `png` or
/// `webp`, in any ASCII case.
pub fn is_image_file(path: &str) -> (r: bool)
    ensures
        r == is_image_path(path@),
{
    let name = match file_name(path) {
        Some(n) => n,
        None => return false,
    };
    let ext = match extension(name.as_str()) {
        Some(e) => e,
        None => return false,
    };
    proof {
        reveal_strlit("jpg");
        reveal_strlit("jpeg");
        reveal_strlit("png");
        reveal_strlit("webp");
        assert("jpg"@ =~= seq!['j', 'p', 'g']);
        assert("jpeg"@ =~= seq!['j', 'p', 'e', 'g']);
        assert("png"@ =~= seq!['p', 'n', 'g']);
        assert("webp"@ =~= seq!['w', 'e', 'b', 'p']);
    }
    let e = ext.as_str();
    spells_word(e, "jpg") || spells_word(e, "jpeg") || spells_word(e, "png") || spells_word(
        e,
        "webp",
    )
}

/// True when `name` follows the hidden-entry convention: it starts with a dot.
pub fn is_hidden_name(name: &str) -> (r: bool)
    ensures
        r == is_hidden(name@),
{
    name.unicode_len() > 0 && name.get_char(0) == '.'
}

/// `a` and `b` hold the same characters.
pub(crate) fn str_eq(a: &str, b: &str) -> (r: bool)
    ensures
        r == (a@ == b@),
{
    let n = a.unicode_len();
    if n != b.unicode_len() {
        return false;
    }
    let mut i: usize = 0;
    while i < n
        invariant
            i <= n == a@.len() == b@.len(),
            forall|j: int| 0 <= j < i ==> a@[j] == b@[j],
        decreases n - i,
    {
        if a.get_char(i) != b.get_char(i) {
            return false;
        }
        i = i + 1;
    }
    assert(a@ =~= b@);
    true
}

} // verus!
