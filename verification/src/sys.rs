//! The integer side of the host interface: handle and code types as the
//! simulator defines them, and the constants it assigns to them.
//!
//! Pointers never appear here. Wherever the host expects an opaque user
//! pointer the binding hands it a token of pointer width.

use vstd::prelude::*;

verus! {

/// Execution context handle supplied by the host at every entry point.
pub type FsContext = u64;

/// File token returned by the host's open calls.
pub type FsIOFile = u64;

/// Result code of the host's file operations.
pub type FsIOErr = u32;

/// Bit set accepted by the host's open calls.
pub type FsIOOpenFlags = u32;

/// Identifier the host assigns to an outstanding network request.
pub type FsNetworkRequestId = u32;

/// Bit set selecting the receivers of a comm-bus call.
pub type FsCommBusBroadcastFlags = u8;

/// Result code of the host's variable accessors.
pub type FsVarError = u32;

/// Identifier of a unit of measure.
pub type FsUnitId = i32;

/// Identifier of a simulation object a variable is read from.
pub type FsObjectId = u32;

/// Checksum by which the host names a variable parameter.
pub type FsCRC = u32;

/// Identifier of a simulation variable.
pub type FsVarId = i32;

/// Tag of a variable parameter.
pub type FsVarParamType = u32;

/// File token the host returns when an open call fails at once.
pub const FS_IO_ERROR_FILE: u32 = 0;

pub const FS_IO_ERR_SUCCESS: FsIOErr = 0;

pub const FS_IO_ERR_BAD_PARAMS: FsIOErr = 1;

pub const FS_IO_ERR_FILE_NOT_FOUND: FsIOErr = 2;

pub const FS_IO_ERR_ACCESS_NOT_ALLOWED: FsIOErr = 3;

pub const FS_IO_ERR_FILE_NOT_OPENED: FsIOErr = 4;

pub const FS_IO_ERR_READ_NOT_ALLOWED: FsIOErr = 5;

pub const FS_IO_ERR_PARTIAL_READ_IMPOSSIBLE: FsIOErr = 6;

pub const FS_IO_ERR_OPERATION_IMPOSSIBLE: FsIOErr = 7;

pub const FS_IO_OPEN_FLAG_NONE: FsIOOpenFlags = 0x00;

pub const FS_IO_OPEN_FLAG_RDONLY: FsIOOpenFlags = 0x01;

pub const FS_IO_OPEN_FLAG_WRONLY: FsIOOpenFlags = 0x02;

pub const FS_IO_OPEN_FLAG_RDWR: FsIOOpenFlags = 0x04;

pub const FS_IO_OPEN_FLAG_CREAT: FsIOOpenFlags = 0x08;

pub const FS_IO_OPEN_FLAG_TRUNC: FsIOOpenFlags = 0x10;

pub const FS_IO_OPEN_FLAG_HIDDEN: FsIOOpenFlags = 0x20;

pub const FS_COMM_BUS_BROADCAST_JS: FsCommBusBroadcastFlags = 0x01;

pub const FS_COMM_BUS_BROADCAST_WASM: FsCommBusBroadcastFlags = 0x02;

pub const FS_COMM_BUS_BROADCAST_WASM_SELF_CALL: FsCommBusBroadcastFlags = 0x04;

pub const FS_COMM_BUS_BROADCAST_DEFAULT: FsCommBusBroadcastFlags = 0x03;

pub const FS_COMM_BUS_BROADCAST_ALL_WASM: FsCommBusBroadcastFlags = 0x06;

pub const FS_COMM_BUS_BROADCAST_ALL: FsCommBusBroadcastFlags = 0x07;

pub const FS_VAR_ERROR_NONE: FsVarError = 0;

pub const FS_VAR_ERROR_FAIL: FsVarError = 1;

pub const FS_VAR_ERROR_NOT_FOUND: FsVarError = 2;

pub const FS_VAR_ERROR_BAD_DATA: FsVarError = 3;

pub const FS_VAR_ERROR_NOT_SUPPORTED: FsVarError = 4;

pub const FS_OBJECT_ID_USER_AIRCRAFT: FsObjectId = 0;

pub const FS_OBJECT_ID_USER_AVATAR: FsObjectId = 1;

pub const FS_OBJECT_ID_USER_CURRENT: FsObjectId = 2;

pub const FS_VAR_PARAM_TYPE_INTEGER: FsVarParamType = 0;

pub const FS_VAR_PARAM_TYPE_STRING: FsVarParamType = 1;

pub const FS_VAR_PARAM_TYPE_CRC: FsVarParamType = 2;

pub const FS_VAR_PARAM_TYPE_DOUBLE: FsVarParamType = 3;

} // verus!
