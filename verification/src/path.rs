//! Joining of directory and file names.
//!
//! Paths are plain strings with `/` between their parts.

use vstd::prelude::*;

verus! {

/// The separator between the parts of a path.
pub open spec fn separator() -> Seq<char> {
    seq!['/']
}

/// `leaf` placed inside `base`: the two with one separator between them,
/// unless `base` is empty or already ends in one.
pub open spec fn joined(base: Seq<char>, leaf: Seq<char>) -> Seq<char> {
    if base.len() == 0 {
        leaf
    } else if base.last() == '/' {
        base + leaf
    } else {
        base + separator() + leaf
    }
}

/// Whether the text ends in a separator.
fn ends_with_separator(text: &str) -> (ends: bool)
    ensures
        ends == (text@.len() > 0 && text@.last() == '/'),
{
    let count: usize = text.unicode_len();
    if count == 0 {
        false
    } else {
        text.get_char(count - 1) == '/'
    }
}

/// Places `leaf` inside the directory `base`.
pub fn join(base: &str, leaf: &str) -> (path: String)
    ensures
        path@ == joined(base@, leaf@),
{
    if base.unicode_len() == 0 {
        String::from_str(leaf)
    } else if ends_with_separator(base) {
        let mut path: String = String::from_str(base);
        path.append(leaf);
        path
    } else {
        proof {
            reveal_strlit("/");
            assert("/"@ =~= separator());
        }
        let mut path: String = String::from_str(base);
        path.append("/");
        path.append(leaf);
        path
    }
}

/// A joined path begins with its directory and ends with its leaf.
pub proof fn lemma_joined_keeps_both(base: Seq<char>, leaf: Seq<char>)
    ensures
        base.is_prefix_of(joined(base, leaf)),
        leaf.is_suffix_of(joined(base, leaf)),
        base.len() + leaf.len() <= joined(base, leaf).len() <= base.len() + leaf.len() + 1,
{
    let whole = joined(base, leaf);
    assert(whole.subrange(0, base.len() as int) =~= base);
    assert(whole.subrange(whole.len() - leaf.len(), whole.len() as int) =~= leaf);
}

} // verus!
