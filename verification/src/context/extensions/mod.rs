//! The extensions the renderer cannot do without.

pub mod device;
pub mod instance;

use vstd::prelude::*;

verus! {

/// Whether `names` spells out `wanted`, name by name.
pub open spec fn spells(names: Seq<String>, wanted: Seq<Seq<char>>) -> bool {
    &&& names.len() == wanted.len()
    &&& forall|i: int| 0 <= i < names.len() ==> (#[trigger] names[i])@ == wanted[i]
}

} // verus!
