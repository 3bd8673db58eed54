//! Variables of the simulated aircraft.

use crate::sys::{FsObjectId, FS_OBJECT_ID_USER_AIRCRAFT};
use crate::vars::{Var, VarKind};
use vstd::prelude::*;

verus! {

/// The kind of the variables the simulation owns.
#[derive(Debug, Clone, Copy)]
pub struct AVarKind;

impl VarKind for AVarKind {
    open spec fn target() -> FsObjectId {
        FS_OBJECT_ID_USER_AIRCRAFT
    }

    open spec fn writable() -> bool {
        true
    }

    fn default_target() -> (target: FsObjectId) {
        FS_OBJECT_ID_USER_AIRCRAFT
    }

    fn can_set() -> (writable: bool) {
        true
    }
}

pub type AVar = Var<AVarKind>;

} // verus!
