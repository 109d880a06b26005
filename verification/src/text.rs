//! Lists of strings as contracts see them.

use vstd::prelude::*;

verus! {

/// The views of a list of strings, item by item.
pub open spec fn views(items: Seq<String>) -> Seq<Seq<char>> {
    items.map_values(|s: String| s@)
}

} // verus!
