//! Paths as text, and the questions about them that the standard library's
//! `Path` answers.
//!
//! A path is held as a `String`. Splitting it into components, finding its
//! parent or final name, joining and ordering follow the platform's rules; the
//! answers are given names here so that contracts can refer to them.

use vstd::prelude::*;
use std::cmp::Ordering;
use std::path::Path;

verus! {

/// The parent directory of `path` as `Path::parent` finds it.
pub uninterp spec fn parent_of(path: Seq<char>) -> Option<Seq<char>>;

/// The final component of `path` as `Path::file_name` finds it.
pub uninterp spec fn file_name_of(path: Seq<char>) -> Option<Seq<char>>;

/// The components of `path` in order, as `Path::components` yields them.
pub uninterp spec fn components_of(path: Seq<char>) -> Seq<Seq<char>>;

/// `base` extended by `tail`, as `Path::join` builds it.
pub uninterp spec fn joined(base: Seq<char>, tail: Seq<char>) -> Seq<char>;

/// How `a` compares with `b` as paths: negative when `a` orders first, zero
/// when neither does, positive when `b` orders first. This is the order of
/// `Path`'s `Ord`, which compares component by component.
pub uninterp spec fn path_order(a: Seq<char>, b: Seq<char>) -> int;

/// The text of an optional string.
pub open spec fn text_of(value: Option<String>) -> Option<Seq<char>> {
    match value {
        Some(s) => Some(s@),
        None => None,
    }
}

/// The texts of a list of strings.
pub open spec fn texts_of(values: Seq<String>) -> Seq<Seq<char>> {
    Seq::new(values.len(), |i: int| values[i]@)
}

/// Calls `Path::parent` on `path`. The result is the path without its final
/// component, or `None` when there is no such component; the contract names
/// it [`parent_of`].
#[verifier::external_body]
pub(crate) fn parent(path: &str) -> (r: Option<String>)
    ensures
        text_of(r) == parent_of(path@),
{
    match Path::new(path).parent() {
        Some(p) => Some(p.to_string_lossy().into_owned()),
        None => None,
    }
}

/// Calls `Path::file_name` on `path`. The result is the final component when
/// it is a normal name; the contract names it [`file_name_of`].
#[verifier::external_body]
pub(crate) fn file_name(path: &str) -> (r: Option<String>)
    ensures
        text_of(r) == file_name_of(path@),
{
    match Path::new(path).file_name() {
        Some(n) => Some(n.to_string_lossy().into_owned()),
        None => None,
    }
}

/// Calls `Path::components` on `path` and collects the text of each
/// component; the contract names the list [`components_of`].
#[verifier::external_body]
pub(crate) fn components(path: &str) -> (r: Vec<String>)
    ensures
        texts_of(r@) == components_of(path@),
{
    Path::new(path).components().map(|c| c.as_os_str().to_string_lossy().into_owned()).collect()
}

/// Calls `Path::join` to extend `base` by `tail`; the contract names the
/// result [`joined`].
#[verifier::external_body]
pub(crate) fn join(base: &str, tail: &str) -> (r: String)
    ensures
        r@ == joined(base@, tail@),
{
    Path::new(base).join(tail).to_string_lossy().into_owned()
}

/// Compares `a` and `b` with `Path`'s `Ord` and reports the sign; the
/// contract names it [`path_order`].
#[verifier::external_body]
pub(crate) fn order(a: &str, b: &str) -> (sign: i8)
    ensures
        sign == path_order(a@, b@),
        -1 <= sign <= 1,
{
    match Path::new(a).cmp(Path::new(b)) {
        Ordering::Less => -1,
        Ordering::Equal => 0,
        Ordering::Greater => 1,
    }
}

} // verus!
