//! The tag of the currency record variant.  It predates the partitioned
//! registry and stands apart from it; no decoder is installed for it here.

use vstd::prelude::*;
use crate::TypeTag;

verus! {

/// Tag carrier for the currency record variant.
#[derive(Clone)]
pub struct SafeCoinTypeTag;

impl TypeTag for SafeCoinTypeTag {
    open spec fn spec_type_tag(&self) -> u64 {
        256
    }

    fn type_tag(&self) -> u64 {
        256
    }
}

} // verus!
