//! Simulation variables: the errors of their accessors, the two kinds of
//! variable, and what is decided before and after the host is asked.

use crate::host_string::{has_nul, is_first_nul, HostString, NulError};
use crate::sys::{
    FsObjectId, FsUnitId, FsVarError, FsVarId, FS_VAR_ERROR_NONE,
    FS_VAR_ERROR_NOT_SUPPORTED, FS_VAR_PARAM_TYPE_INTEGER,
};
use crate::utils::{FsVarParamArrayOwned, FsVarParamVariant};
use core::marker::PhantomData;
use vstd::prelude::*;
use vstd::string::StringSliceAdditionalSpecFns;

pub mod a_var;
pub mod l_var;

verus! {

/// A failed variable access.
#[derive(Debug, Clone, Copy, PartialEq, Eq, Structural)]
pub enum VarError {
    /// The host reported this code.
    Fs(FsVarError),
    /// A name holds a zero byte and cannot be handed to the host.
    Nul(NulError),
}

pub type VarResult<T> = Result<T, VarError>;

impl From<NulError> for VarError {
    fn from(e: NulError) -> (error: VarError) {
        VarError::Nul(e)
    }
}

impl vstd::std_specs::convert::FromSpecImpl<NulError> for VarError {
    open spec fn obeys_from_spec() -> bool {
        true
    }

    open spec fn from_spec(e: NulError) -> VarError {
        VarError::Nul(e)
    }
}

/// A unit of measure as the host knows it.
#[derive(Debug, Clone, Copy, PartialEq, Eq, Structural)]
pub struct UnitId(pub FsUnitId);

impl UnitId {
    /// Encodes the name of a unit for the host to look up. A name with a
    /// zero byte in it is refused.
    pub fn from_str(unit: &str) -> (encoded: VarResult<HostString>)
        ensures
            match encoded {
                Ok(name) => !has_nul(unit.spec_bytes()) && name@ == unit.spec_bytes(),
                Err(e) => e matches VarError::Nul(nul) && is_first_nul(
                    unit.spec_bytes(),
                    nul.position(),
                ),
            },
    {
        match HostString::new(unit) {
            Ok(name) => Ok(name),
            Err(nul) => Err(VarError::Nul(nul)),
        }
    }
}

/// A kind of simulation variable.
pub trait VarKind {
    /// The object a variable of this kind is read from when none is named.
    spec fn target() -> FsObjectId;

    /// Whether variables of this kind can be written.
    spec fn writable() -> bool;

    /// The object a variable of this kind is read from when none is named.
    fn default_target() -> (target: FsObjectId)
        ensures
            target == Self::target(),
    ;

    /// Whether variables of this kind can be written.
    fn can_set() -> (writable: bool)
        ensures
            writable == Self::writable(),
    ;
}

/// The parameter array of a variable that takes no parameters.
pub fn empty_param_array() -> (array: FsVarParamArrayOwned)
    ensures
        array@ == Seq::<FsVarParamVariant>::empty(),
{
    FsVarParamArrayOwned::empty()
}

/// A parameter array of one index.
#[derive(Debug, Clone, Copy, PartialEq, Eq, Structural)]
pub struct VarParamArray1 {
    variant: FsVarParamVariant,
}

impl VarParamArray1 {
    /// The parameter.
    pub closed spec fn view(&self) -> FsVarParamVariant {
        self.variant
    }

    /// The array that holds `index`.
    pub fn index(index: u32) -> (array: Self)
        ensures
            array@ == (FsVarParamVariant { type_: FS_VAR_PARAM_TYPE_INTEGER, value: index as u64 }),
    {
        VarParamArray1 {
            variant: FsVarParamVariant { type_: FS_VAR_PARAM_TYPE_INTEGER, value: index as u64 },
        }
    }

    /// The array as the host reads it: its size, which is one, and its
    /// parameter.
    pub fn as_raw_mut(&mut self) -> (raw: (u32, FsVarParamVariant))
        ensures
            raw.0 == 1,
            raw.1 == old(self)@,
            *final(self) == *old(self),
    {
        (1, self.variant)
    }
}

/// Turns the result code of an accessor into a result: `Ok` for success and
/// for nothing else.
pub fn check(code: FsVarError) -> (result: VarResult<()>)
    ensures
        result == (if code == FS_VAR_ERROR_NONE {
            Ok::<(), VarError>(())
        } else {
            Err::<(), VarError>(VarError::Fs(code))
        }),
{
    if code == FS_VAR_ERROR_NONE {
        Ok(())
    } else {
        Err(VarError::Fs(code))
    }
}

/// The names of a variable and its unit, encoded for the host to look up.
pub struct VarNames {
    pub name: HostString,
    pub unit: HostString,
}

/// A simulation variable of kind `K` in a unit of measure.
#[derive(Debug)]
pub struct Var<K: VarKind> {
    id: FsVarId,
    unit: UnitId,
    _k: PhantomData<K>,
}

impl<K: VarKind> Clone for Var<K> {
    fn clone(&self) -> (copy: Self)
        ensures
            copy.id() == self.id(),
            copy.unit_id() == self.unit_id(),
    {
        Var { id: self.id, unit: self.unit, _k: PhantomData }
    }
}

impl<K: VarKind> Copy for Var<K> {

}

impl<K: VarKind> Var<K> {
    /// The identifier the host knows the variable by.
    pub closed spec fn id(&self) -> FsVarId {
        self.id
    }

    /// The unit the variable is read and written in.
    pub closed spec fn unit_id(&self) -> UnitId {
        self.unit
    }

    /// Encodes the names of a variable and its unit for the host to look up:
    /// the name first, then the unit. A name with a zero byte in it is
    /// refused.
    pub fn new(name: &str, unit: &str) -> (encoded: VarResult<VarNames>)
        ensures
            match encoded {
                Ok(names) => {
                    &&& !has_nul(name.spec_bytes())
                    &&& !has_nul(unit.spec_bytes())
                    &&& names.name@ == name.spec_bytes()
                    &&& names.unit@ == unit.spec_bytes()
                },
                Err(e) => {
                    &&& e matches VarError::Nul(nul)
                    &&& if has_nul(name.spec_bytes()) {
                        is_first_nul(name.spec_bytes(), nul.position())
                    } else {
                        is_first_nul(unit.spec_bytes(), nul.position())
                    }
                },
            },
    {
        let name_c = match HostString::new(name) {
            Ok(n) => n,
            Err(nul) => {
                return Err(VarError::Nul(nul));
            },
        };
        let unit_c = match UnitId::from_str(unit) {
            Ok(u) => u,
            Err(e) => {
                return Err(e);
            },
        };
        Ok(VarNames { name: name_c, unit: unit_c })
    }

    /// The variable the host knows by `id`, in `unit`.
    pub fn from_ids(id: FsVarId, unit: UnitId) -> (var: Self)
        ensures
            var.id() == id,
            var.unit_id() == unit,
    {
        Var { id, unit, _k: PhantomData }
    }

    /// Decides whether the host is asked to write the variable at all: a
    /// variable of a kind that cannot be written is refused as not supported
    /// before the host sees anything.
    pub fn set_with(&self) -> (allowed: VarResult<()>)
        ensures
            allowed == (if K::writable() {
                Ok::<(), VarError>(())
            } else {
                Err::<(), VarError>(VarError::Fs(FS_VAR_ERROR_NOT_SUPPORTED))
            }),
    {
        if !K::can_set() {
            return Err(VarError::Fs(FS_VAR_ERROR_NOT_SUPPORTED));
        }
        Ok(())
    }

    /// The unit the variable is read and written in.
    pub fn unit(&self) -> (unit: UnitId)
        ensures
            unit == self.unit_id(),
    {
        self.unit
    }

    /// The identifier the host knows the variable by.
    pub fn raw_id(&self) -> (id: FsVarId)
        ensures
            id == self.id(),
    {
        self.id
    }
}

} // verus!
