//! Parameter arrays for variables that take parameters, such as the index of
//! an engine.
//!
//! A parameter array is described by a format string with one character per
//! parameter: `c` for a checksum, `s` for a string, `i` for an index and `f`
//! for a floating-point number.

use crate::sys::{
    FsCRC, FsVarParamType, FS_VAR_PARAM_TYPE_CRC, FS_VAR_PARAM_TYPE_DOUBLE,
    FS_VAR_PARAM_TYPE_INTEGER, FS_VAR_PARAM_TYPE_STRING,
};
use vstd::prelude::*;
use vstd::string::{StrSliceExecFns, StringExecFns};

verus! {

/// One parameter as the caller gives it.
#[derive(Debug, Clone, Copy, PartialEq, Eq, Structural)]
pub enum FsParamArg {
    Crc(FsCRC),
    /// The address of a string in the host's encoding.
    Str(usize),
    Index(u32),
    /// The bits of a double-precision number.
    Double(u64),
}

/// Why a parameter array could not be made.
#[derive(Debug)]
pub enum FsParamError {
    ArgCountMismatch { fmt_len: usize, args_len: usize },
    UnknonwnFormatChar { ch: char, index: usize },
    UnknonwnError { msg: String },
}

/// One parameter as the host reads it: a tag and eight bytes of payload.
#[derive(Debug, Clone, Copy, PartialEq, Eq, Structural)]
pub struct FsVarParamVariant {
    pub type_: FsVarParamType,
    pub value: u64,
}

/// A parameter array that owns its parameters.
pub struct FsVarParamArrayOwned {
    raw: Vec<FsVarParamVariant>,
}

/// The parameter the host reads for `arg` under the format character `ch`,
/// if the character names the kind of the argument.
pub open spec fn variant_of(ch: char, arg: FsParamArg) -> Option<FsVarParamVariant> {
    match arg {
        FsParamArg::Crc(x) => if ch == 'c' {
            Some(FsVarParamVariant { type_: FS_VAR_PARAM_TYPE_CRC, value: x as u64 })
        } else {
            None
        },
        FsParamArg::Str(p) => if ch == 's' {
            Some(FsVarParamVariant { type_: FS_VAR_PARAM_TYPE_STRING, value: p as u64 })
        } else {
            None
        },
        FsParamArg::Index(x) => if ch == 'i' {
            Some(FsVarParamVariant { type_: FS_VAR_PARAM_TYPE_INTEGER, value: x as u64 })
        } else {
            None
        },
        FsParamArg::Double(x) => if ch == 'f' {
            Some(FsVarParamVariant { type_: FS_VAR_PARAM_TYPE_DOUBLE, value: x })
        } else {
            None
        },
    }
}

/// Whether `index` is the first position at which the format does not name
/// the kind of the argument.
pub open spec fn is_first_mismatch(fmt: Seq<char>, args: Seq<FsParamArg>, index: int) -> bool {
    &&& 0 <= index < fmt.len()
    &&& index < args.len()
    &&& variant_of(fmt[index], args[index]) is None
    &&& forall|j: int| 0 <= j < index ==> variant_of(fmt[j], args[j]) is Some
}

/// The parameters the host reads for `args` under `fmt`, where every format
/// character names the kind of its argument.
pub open spec fn variants_of(fmt: Seq<char>, args: Seq<FsParamArg>) -> Seq<FsVarParamVariant> {
    Seq::new(args.len(), |i: int| variant_of(fmt[i], args[i])->0)
}

/// Tags `arg` for the host. Fails with the format character if it does not
/// name the kind of the argument.
pub fn make_variant(ch: char, arg: FsParamArg) -> (made: Result<FsVarParamVariant, char>)
    ensures
        match made {
            Ok(variant) => variant_of(ch, arg) == Some(variant),
            Err(bad) => variant_of(ch, arg) is None && bad == ch,
        },
{
    match arg {
        FsParamArg::Crc(x) => {
            if ch == 'c' {
                Ok(FsVarParamVariant { type_: FS_VAR_PARAM_TYPE_CRC, value: x as u64 })
            } else {
                Err(ch)
            }
        },
        FsParamArg::Str(p) => {
            if ch == 's' {
                Ok(FsVarParamVariant { type_: FS_VAR_PARAM_TYPE_STRING, value: p as u64 })
            } else {
                Err(ch)
            }
        },
        FsParamArg::Index(x) => {
            if ch == 'i' {
                Ok(FsVarParamVariant { type_: FS_VAR_PARAM_TYPE_INTEGER, value: x as u64 })
            } else {
                Err(ch)
            }
        },
        FsParamArg::Double(x) => {
            if ch == 'f' {
                Ok(FsVarParamVariant { type_: FS_VAR_PARAM_TYPE_DOUBLE, value: x })
            } else {
                Err(ch)
            }
        },
    }
}

impl FsVarParamArrayOwned {
    /// The parameters in order.
    pub closed spec fn view(&self) -> Seq<FsVarParamVariant> {
        self.raw@
    }

    /// An array without parameters.
    pub fn empty() -> (array: Self)
        ensures
            array@ == Seq::<FsVarParamVariant>::empty(),
    {
        FsVarParamArrayOwned { raw: Vec::new() }
    }

    /// The parameters as the host reads them.
    pub fn as_raw(&self) -> (raw: &[FsVarParamVariant])
        ensures
            raw@ == self@,
    {
        self.raw.as_slice()
    }

    /// The number of parameters as the host counts them, in 32 bits.
    pub fn size(&self) -> (size: u32)
        ensures
            size == self@.len() % 0x1_0000_0000,
    {
        (self.raw.len() as u64 % 0x1_0000_0000u64) as u32
    }
}

/// Makes a parameter array from a format string and as many arguments as it
/// has characters. Fails if the counts differ, and at the first character
/// that does not name the kind of its argument, which the error then quotes.
pub fn fs_create_param_array(fmt: &str, args: &[FsParamArg]) -> (made: Result<
    FsVarParamArrayOwned,
    FsParamError,
>)
    ensures
        match made {
            Ok(array) => {
                &&& fmt@.len() == args@.len()
                &&& forall|i: int| 0 <= i < args@.len() ==> variant_of(fmt@[i], args@[i]) is Some
                &&& array@ == variants_of(fmt@, args@)
            },
            Err(FsParamError::ArgCountMismatch { fmt_len, args_len }) => {
                &&& fmt@.len() != args@.len()
                &&& fmt_len == fmt@.len()
                &&& args_len == args@.len()
            },
            Err(FsParamError::UnknonwnError { msg }) => {
                &&& fmt@.len() == args@.len()
                &&& exists|k: int| #[trigger]
                    is_first_mismatch(fmt@, args@, k) && msg@ == seq![fmt@[k]]
            },
            Err(FsParamError::UnknonwnFormatChar { .. }) => false,
        },
{
    let fmt_len = fmt.unicode_len();
    if fmt_len != args.len() {
        return Err(FsParamError::ArgCountMismatch { fmt_len, args_len: args.len() });
    }
    let mut v: Vec<FsVarParamVariant> = Vec::new();
    let mut i: usize = 0;
    while i < fmt_len
        invariant
            i <= fmt_len,
            fmt_len == fmt@.len(),
            fmt_len == args@.len(),
            v@.len() == i,
            forall|j: int|
                0 <= j < i ==> #[trigger] variant_of(fmt@[j], args@[j]) == Some(v@[j]),
        decreases fmt_len - i,
    {
        let ch = fmt.get_char(i);
        match make_variant(ch, args[i]) {
            Ok(var) => {
                v.push(var);
            },
            Err(_) => {
                let msg = String::from_str(fmt.substring_char(i, i + 1));
                assert(msg@ =~= seq![fmt@[i as int]]);
                assert(is_first_mismatch(fmt@, args@, i as int));
                return Err(FsParamError::UnknonwnError { msg });
            },
        }
        i += 1;
    }
    assert(v@ =~= variants_of(fmt@, args@));
    Ok(FsVarParamArrayOwned { raw: v })
}

} // verus!
