//! Helpers for paths below a staging root.

use vstd::prelude::*;
use vstd::string::*;

use crate::text::{append_text, copy_text};

verus! {

/// The destination below the staging root, where there is one: the root's
/// text followed by the destination's, with nothing put between or taken
/// away.
pub open spec fn staged(destination: Seq<char>, destdir: Option<Seq<char>>) -> Seq<char> {
    match destdir {
        Some(root) => root + destination,
        None => destination,
    }
}

/// Places a destination below the staging root, if one is given.
pub fn append_destdir(destination: &str, destdir: Option<&str>) -> (r: String)
    ensures
        r@ == staged(
            destination@,
            match destdir {
                Some(root) => Some(root@),
                None => None,
            },
        ),
{
    match destdir {
        Some(root) => append_text(root, destination),
        None => copy_text(destination),
    }
}

} // verus!
