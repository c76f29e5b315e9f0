//! System scan and destruction markers.
use vstd::prelude::*;

verus! {

/// Updates system scan state after collection.
pub trait SysScanUpdate {

}

/// Destroys provider-managed system resources.
pub trait SysDestroy {

}

} // verus!
