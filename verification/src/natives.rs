//! Native code that belongs to a library.

use vstd::prelude::*;
use crate::internal_types::shared::VersionJsonLibrary;

verus! {

/// The classifier under which `data` offers native code apart from its
/// own file. No library offers any: the native bundles of a release are
/// libraries of their own.
pub fn get_natives(data: &VersionJsonLibrary) -> (r: &'static str)
    ensures
        r@ == Seq::<char>::empty(),
{
    proof {
        reveal_strlit("");
        assert(""@ =~= Seq::<char>::empty());
    }
    ""
}

} // verus!
