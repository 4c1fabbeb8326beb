//! Fitting a path into a display column.

use vstd::prelude::*;

verus! {

/// What stands in front of a shortened path.
pub const ELLIPSIS: &'static str = "...";

/// How many characters of the full text a text of at most `max` characters can
/// keep behind the ellipsis.
pub open spec fn kept_length(max: nat) -> nat {
    if max >= 3 {
        (max - 3) as nat
    } else {
        0
    }
}

/// `text` as shown in a column `max` characters wide: unchanged when it fits,
/// otherwise an ellipsis followed by its last `kept_length(max)` characters.
pub open spec fn shortened(text: Seq<char>, max: nat) -> Seq<char> {
    if text.len() <= max {
        text
    } else {
        ELLIPSIS@ + text.subrange(text.len() - kept_length(max), text.len() as int)
    }
}

/// The ellipsis and the last `keep` characters of `text`.
pub fn tail_with_ellipsis(text: &str, keep: usize) -> (r: String)
    requires
        keep <= text@.len(),
    ensures
        r@ == ELLIPSIS@ + text@.subrange(text@.len() - keep, text@.len() as int),
{
    let len: usize = text.unicode_len();
    let tail = text.substring_char(len - keep, len);
    String::from_str(ELLIPSIS).concat(tail)
}

/// Shortens `path` for a column of `max_length` characters. A path that fits
/// is returned as it is; a longer one keeps its end, behind an ellipsis. The
/// lengths count characters.
pub fn format_path_for_display(path: &str, max_length: usize) -> (r: String)
    ensures
        r@ == shortened(path@, max_length as nat),
        max_length >= 3 ==> r@.len() <= max_length,
{
    let len: usize = path.unicode_len();
    if len <= max_length {
        String::from_str(path)
    } else {
        let keep: usize = if max_length >= 3 {
            max_length - 3
        } else {
            0
        };
        proof {
            reveal_strlit("...");
        }
        tail_with_ellipsis(path, keep)
    }
}

} // verus!
