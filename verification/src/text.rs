//! The text of a path, and what must hold of it before a backend may copy or move it.
//!
//! Both backends build the destination of each copied or moved entry by cutting the
//! source's path off the entry's path. They cut at the source's count of characters,
//! where its length in bytes is meant, so they need a source in which every character
//! is one byte. The in-memory backend moves a directory entry by entry and may never
//! end when the destination is the source or lies under it. The rules below leave
//! such paths out.

use vstd::prelude::*;

verus! {

/// Whether every character of the text is one byte long in UTF-8.
pub open spec fn is_single_byte(text: Seq<char>) -> bool {
    vstd::utf8::is_ascii_chars(text)
}

/// Whether the text stands for itself: it holds neither `~` nor `$`, which a backend
/// would replace by the home directory or by a variable of the environment.
pub open spec fn is_literal(text: Seq<char>) -> bool {
    forall|i: int| 0 <= i < text.len() ==> #[trigger] text[i] != '~' && text[i] != '$'
}

/// Whether the text starts at the root directory.
pub open spec fn is_absolute(text: Seq<char>) -> bool {
    text.len() > 0 && text[0] == '/'
}

/// Whether the component that starts behind position `i` is empty, `.` or `..`.
pub open spec fn odd_component_after(text: Seq<char>, i: int) -> bool {
    ||| (i + 1 < text.len() && text[i + 1] == '/')
    ||| (i + 1 < text.len() && text[i + 1] == '.' && (i + 2 == text.len() || text[i + 2] == '/'))
    ||| (i + 2 < text.len() && text[i + 1] == '.' && text[i + 2] == '.' && (i + 3 == text.len()
        || text[i + 3] == '/'))
}

/// Whether the text is a path as resolving leaves it, so that resolving it once more
/// changes nothing: absolute, standing for itself, without a separator at its end
/// (but for the root itself) and without a component that is empty, `.` or `..`.
pub open spec fn is_resolved(text: Seq<char>) -> bool {
    &&& is_absolute(text)
    &&& is_literal(text)
    &&& (text.len() == 1 || text[text.len() - 1] != '/')
    &&& forall|i: int|
        0 <= i < text.len() && text[i] == '/' ==> !#[trigger] odd_component_after(text, i)
}

/// Whether `path` is the directory `dir` or lies under it: `dir` begins it, and either
/// nothing follows or a separator does.
pub open spec fn is_within(path: Seq<char>, dir: Seq<char>) -> bool {
    &&& 0 < dir.len() <= path.len()
    &&& forall|i: int| 0 <= i < dir.len() ==> path[i] == #[trigger] dir[i]
    &&& (dir.len() == path.len() || dir[dir.len() - 1] == '/' || path[dir.len() as int] == '/')
}

/// The position of the last separator in the text, or -1 where it holds none.
pub open spec fn last_separator(text: Seq<char>) -> int
    decreases text.len(),
{
    if text.len() == 0 {
        -1
    } else if text.last() == '/' {
        text.len() - 1
    } else {
        last_separator(text.drop_last())
    }
}

/// The directory that holds the path with this text: what stands before the last
/// separator, the root where nothing stands before it, and nothing where the text
/// holds no separator.
pub open spec fn parent_of(text: Seq<char>) -> Seq<char> {
    let at = last_separator(text);
    if at < 0 {
        Seq::empty()
    } else if at == 0 {
        text.subrange(0, 1)
    } else {
        text.subrange(0, at)
    }
}

/// Whether either backend can copy from the source with this text, whatever the
/// filesystem holds: the text is absolute, stands for itself and is made of
/// characters of one byte, so the resolved source is made of such characters too.
pub open spec fn copies_safely(src: Seq<char>) -> bool {
    &&& is_absolute(src)
    &&& is_literal(src)
    &&& is_single_byte(src)
}

/// Whether the in-memory backend can move the source to the destination, whatever the
/// filesystem holds: both texts are resolved, the source is made of characters of one
/// byte, and the destination is neither the source nor under it.
pub open spec fn moves_safely(src: Seq<char>, dst: Seq<char>) -> bool {
    &&& is_resolved(src)
    &&& is_single_byte(src)
    &&& is_resolved(dst)
    &&& !is_within(dst, src)
}

/// Tests [`is_literal`].
pub fn is_literal_text(text: &str) -> (b: bool)
    ensures
        b == is_literal(text@),
{
    let n: usize = text.unicode_len();
    let mut i: usize = 0;
    while i < n
        invariant
            i <= n,
            n == text@.len(),
            forall|j: int| 0 <= j < i ==> #[trigger] text@[j] != '~' && text@[j] != '$',
        decreases n - i,
    {
        let c = text.get_char(i);
        if c == '~' || c == '$' {
            return false;
        }
        i += 1;
    }
    true
}

/// Tests [`odd_component_after`] at a position of the text.
fn has_odd_component_after(text: &str, n: usize, i: usize) -> (b: bool)
    requires
        n == text@.len(),
        i < n,
    ensures
        b == odd_component_after(text@, i as int),
{
    if n - i < 2 {
        return false;
    }
    let first = text.get_char(i + 1);
    if first == '/' {
        return true;
    }
    if first != '.' {
        return false;
    }
    if n - i == 2 {
        return true;
    }
    let second = text.get_char(i + 2);
    if second == '/' {
        return true;
    }
    if second != '.' {
        return false;
    }
    if n - i == 3 {
        return true;
    }
    text.get_char(i + 3) == '/'
}

/// Tests [`is_resolved`].
pub fn is_resolved_text(text: &str) -> (b: bool)
    ensures
        b == is_resolved(text@),
{
    let n: usize = text.unicode_len();
    if n == 0 || text.get_char(0) != '/' {
        return false;
    }
    if n > 1 && text.get_char(n - 1) == '/' {
        return false;
    }
    if !is_literal_text(text) {
        return false;
    }
    let mut i: usize = 0;
    while i < n
        invariant
            i <= n,
            n == text@.len(),
            forall|j: int|
                0 <= j < i && text@[j] == '/' ==> !#[trigger] odd_component_after(text@, j),
        decreases n - i,
    {
        if text.get_char(i) == '/' && has_odd_component_after(text, n, i) {
            return false;
        }
        i += 1;
    }
    true
}

/// Tests [`is_within`].
pub fn is_within_text(path: &str, dir: &str) -> (b: bool)
    ensures
        b == is_within(path@, dir@),
{
    let n: usize = dir.unicode_len();
    let m: usize = path.unicode_len();
    if n == 0 || n > m {
        return false;
    }
    let mut i: usize = 0;
    while i < n
        invariant
            i <= n,
            n <= m,
            n == dir@.len(),
            m == path@.len(),
            forall|j: int| 0 <= j < i ==> path@[j] == #[trigger] dir@[j],
        decreases n - i,
    {
        if path.get_char(i) != dir.get_char(i) {
            return false;
        }
        i += 1;
    }
    n == m || dir.get_char(n - 1) == '/' || path.get_char(n) == '/'
}

/// Gives [`parent_of`] the text.
pub fn parent_text<'a>(text: &'a str) -> (parent: &'a str)
    ensures
        parent@ == parent_of(text@),
{
    let n: usize = text.unicode_len();
    let mut i: usize = n;
    assert(text@.subrange(0, n as int) =~= text@);
    while i > 0
        invariant
            i <= n,
            n == text@.len(),
            last_separator(text@) == last_separator(text@.subrange(0, i as int)),
        decreases i,
    {
        let ghost head = text@.subrange(0, i as int);
        if text.get_char(i - 1) == '/' {
            assert(head.last() == '/');
            return if i == 1 {
                text.substring_char(0, 1)
            } else {
                text.substring_char(0, i - 1)
            };
        }
        assert(head.drop_last() =~= text@.subrange(0, i - 1));
        i -= 1;
    }
    assert(text@.subrange(0, 0).len() == 0);
    text.substring_char(0, 0)
}

/// Tests [`copies_safely`].
pub fn copies_safely_text(src: &str) -> (b: bool)
    ensures
        b == copies_safely(src@),
{
    let n: usize = src.unicode_len();
    n > 0 && src.get_char(0) == '/' && is_literal_text(src) && src.is_ascii()
}

/// Tests [`moves_safely`].
pub fn moves_safely_text(src: &str, dst: &str) -> (b: bool)
    ensures
        b == moves_safely(src@, dst@),
{
    is_resolved_text(src) && src.is_ascii() && is_resolved_text(dst) && !is_within_text(dst, src)
}

} // verus!
