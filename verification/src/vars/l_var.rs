//! Variables local to the modules of an aircraft.

use crate::sys::{FsObjectId, FS_OBJECT_ID_USER_AIRCRAFT};
use crate::vars::{Var, VarKind};
use vstd::prelude::*;

verus! {

/// The kind of the variables that modules define for themselves.
#[derive(Debug, Clone, Copy)]
pub struct LVarKind;

impl VarKind for LVarKind {
    open spec fn target() -> FsObjectId {
        FS_OBJECT_ID_USER_AIRCRAFT
    }

    open spec fn writable() -> bool {
        true
    }

    fn default_target() -> (target: FsObjectId) {
        FS_OBJECT_ID_USER_AIRCRAFT
    }

    fn can_set() -> (writable: bool) {
        true
    }
}

pub type LVar = Var<LVarKind>;

} // verus!
