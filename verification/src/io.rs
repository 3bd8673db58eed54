//! File I/O through the host: one-shot callbacks for open, read and write.
//!
//! Every operation is started in two steps around the host call. The first
//! step stores the completion callback in a cell and describes the call to
//! make; the second takes the host's immediate answer and, if the host
//! refused, gives the cell up at once. An accepted operation completes later,
//! when the host calls the matching trampoline with the cell's token: that is
//! the other place, and the only other one, where the cell is given up.

use crate::buffer::{payload, payload_of};
use crate::host_string::{has_nul, is_first_nul, HostString, NulError};
use crate::registry::{after_settle, cell_at, CallbackRegistry};
use crate::sys::{
    FsIOErr, FsIOFile, FsIOOpenFlags, FS_IO_ERROR_FILE, FS_IO_ERR_ACCESS_NOT_ALLOWED,
    FS_IO_ERR_BAD_PARAMS, FS_IO_ERR_FILE_NOT_FOUND, FS_IO_ERR_FILE_NOT_OPENED,
    FS_IO_ERR_OPERATION_IMPOSSIBLE, FS_IO_ERR_PARTIAL_READ_IMPOSSIBLE,
    FS_IO_ERR_READ_NOT_ALLOWED, FS_IO_ERR_SUCCESS, FS_IO_OPEN_FLAG_CREAT,
    FS_IO_OPEN_FLAG_HIDDEN, FS_IO_OPEN_FLAG_NONE, FS_IO_OPEN_FLAG_RDONLY, FS_IO_OPEN_FLAG_RDWR,
    FS_IO_OPEN_FLAG_TRUNC, FS_IO_OPEN_FLAG_WRONLY,
};
use vstd::prelude::*;
use crate::text::{digits, push_number};
use vstd::string::{StringExecFns, StringSliceAdditionalSpecFns};

pub mod fs;

verus! {

/// A failed file operation.
#[derive(Debug, Clone, Copy, PartialEq, Eq, Structural)]
pub enum IoError {
    /// The path holds a zero byte and cannot be handed to the host.
    Nul(NulError),
    BadParams,
    FileNotFound,
    AccessNotAllowed,
    FileNotOpened,
    ReadNotAllowed,
    PartialReadImpossible,
    OperationImpossible,
    /// A code the host reported that this library does not know.
    Unknown(u32),
}

pub type IoResult<T> = Result<T, IoError>;

/// The error a host result code stands for, or `None` for success.
pub open spec fn error_of_code(code: FsIOErr) -> Option<IoError> {
    if code == FS_IO_ERR_SUCCESS {
        None
    } else if code == FS_IO_ERR_BAD_PARAMS {
        Some(IoError::BadParams)
    } else if code == FS_IO_ERR_FILE_NOT_FOUND {
        Some(IoError::FileNotFound)
    } else if code == FS_IO_ERR_ACCESS_NOT_ALLOWED {
        Some(IoError::AccessNotAllowed)
    } else if code == FS_IO_ERR_FILE_NOT_OPENED {
        Some(IoError::FileNotOpened)
    } else if code == FS_IO_ERR_READ_NOT_ALLOWED {
        Some(IoError::ReadNotAllowed)
    } else if code == FS_IO_ERR_PARTIAL_READ_IMPOSSIBLE {
        Some(IoError::PartialReadImpossible)
    } else if code == FS_IO_ERR_OPERATION_IMPOSSIBLE {
        Some(IoError::OperationImpossible)
    } else {
        Some(IoError::Unknown(code))
    }
}

impl IoError {
    /// Translates a host result code.
    pub fn from_raw(code: FsIOErr) -> (error: Option<IoError>)
        ensures
            error == error_of_code(code),
    {
        if code == FS_IO_ERR_SUCCESS {
            None
        } else if code == FS_IO_ERR_BAD_PARAMS {
            Some(IoError::BadParams)
        } else if code == FS_IO_ERR_FILE_NOT_FOUND {
            Some(IoError::FileNotFound)
        } else if code == FS_IO_ERR_ACCESS_NOT_ALLOWED {
            Some(IoError::AccessNotAllowed)
        } else if code == FS_IO_ERR_FILE_NOT_OPENED {
            Some(IoError::FileNotOpened)
        } else if code == FS_IO_ERR_READ_NOT_ALLOWED {
            Some(IoError::ReadNotAllowed)
        } else if code == FS_IO_ERR_PARTIAL_READ_IMPOSSIBLE {
            Some(IoError::PartialReadImpossible)
        } else if code == FS_IO_ERR_OPERATION_IMPOSSIBLE {
            Some(IoError::OperationImpossible)
        } else {
            Some(IoError::Unknown(code))
        }
    }

    /// Turns a host result code into a result: `Ok` for success and for
    /// nothing else.
    pub fn check(code: FsIOErr) -> (result: IoResult<()>)
        ensures
            result == (match error_of_code(code) {
                None => Ok::<(), IoError>(()),
                Some(e) => Err::<(), IoError>(e),
            }),
    {
        match IoError::from_raw(code) {
            None => Ok(()),
            Some(e) => Err(e),
        }
    }
}

/// The error in words.
pub open spec fn io_error_text(error: IoError) -> Seq<char> {
    match error {
        IoError::Nul(e) => "null byte in string: "@ + e.text(),
        IoError::BadParams => "bad parameters"@,
        IoError::FileNotFound => "file not found"@,
        IoError::AccessNotAllowed => "access not allowed"@,
        IoError::FileNotOpened => "file not opened"@,
        IoError::ReadNotAllowed => "read not allowed"@,
        IoError::PartialReadImpossible => "partial read impossible"@,
        IoError::OperationImpossible => "operation impossible"@,
        IoError::Unknown(c) => "unknown IO error (0x"@ + digits(c as nat, 16) + ")"@,
    }
}

impl IoError {
    /// The error in words. An unknown code is quoted in hexadecimal.
    pub fn message(&self) -> (message: String)
        ensures
            message@ == io_error_text(*self),
    {
        match self {
            IoError::Nul(e) => {
                let mut message = String::from_str("null byte in string: ");
                message.append(e.message().as_str());
                message
            },
            IoError::BadParams => String::from_str("bad parameters"),
            IoError::FileNotFound => String::from_str("file not found"),
            IoError::AccessNotAllowed => String::from_str("access not allowed"),
            IoError::FileNotOpened => String::from_str("file not opened"),
            IoError::ReadNotAllowed => String::from_str("read not allowed"),
            IoError::PartialReadImpossible => String::from_str("partial read impossible"),
            IoError::OperationImpossible => String::from_str("operation impossible"),
            IoError::Unknown(c) => {
                let mut message = String::from_str("unknown IO error (0x");
                push_number(&mut message, *c as u64, 16);
                message.append(")");
                message
            },
        }
    }
}

impl From<NulError> for IoError {
    fn from(e: NulError) -> (error: IoError) {
        IoError::Nul(e)
    }
}

impl vstd::std_specs::convert::FromSpecImpl<NulError> for IoError {
    open spec fn obeys_from_spec() -> bool {
        true
    }

    open spec fn from_spec(e: NulError) -> IoError {
        IoError::Nul(e)
    }
}

/// How a file is opened, as a set of bits.
#[derive(Debug, Clone, Copy, PartialEq, Eq, Structural)]
pub struct OpenFlags {
    bits: u32,
}

/// Every bit that names an open flag.
pub const OPEN_FLAGS_ALL: FsIOOpenFlags = 0x3f;

impl OpenFlags {
    /// The bits of the set.
    pub closed spec fn view(&self) -> u32 {
        self.bits
    }

    /// No flag.
    pub fn none() -> (flags: Self)
        ensures
            flags@ == FS_IO_OPEN_FLAG_NONE,
    {
        OpenFlags { bits: FS_IO_OPEN_FLAG_NONE }
    }

    /// Open for reading only.
    pub fn rdonly() -> (flags: Self)
        ensures
            flags@ == FS_IO_OPEN_FLAG_RDONLY,
    {
        OpenFlags { bits: FS_IO_OPEN_FLAG_RDONLY }
    }

    /// Open for writing only.
    pub fn wronly() -> (flags: Self)
        ensures
            flags@ == FS_IO_OPEN_FLAG_WRONLY,
    {
        OpenFlags { bits: FS_IO_OPEN_FLAG_WRONLY }
    }

    /// Open for reading and writing.
    pub fn rdwr() -> (flags: Self)
        ensures
            flags@ == FS_IO_OPEN_FLAG_RDWR,
    {
        OpenFlags { bits: FS_IO_OPEN_FLAG_RDWR }
    }

    /// Create the file if it does not exist.
    pub fn creat() -> (flags: Self)
        ensures
            flags@ == FS_IO_OPEN_FLAG_CREAT,
    {
        OpenFlags { bits: FS_IO_OPEN_FLAG_CREAT }
    }

    /// Empty the file when it is opened.
    pub fn trunc() -> (flags: Self)
        ensures
            flags@ == FS_IO_OPEN_FLAG_TRUNC,
    {
        OpenFlags { bits: FS_IO_OPEN_FLAG_TRUNC }
    }

    /// Create the file hidden.
    pub fn hidden() -> (flags: Self)
        ensures
            flags@ == FS_IO_OPEN_FLAG_HIDDEN,
    {
        OpenFlags { bits: FS_IO_OPEN_FLAG_HIDDEN }
    }

    /// The bits of the set, as the host takes them.
    pub fn bits(&self) -> (bits: FsIOOpenFlags)
        ensures
            bits == self@,
    {
        self.bits
    }

    /// The set with exactly these bits, if each of them names a flag.
    pub fn from_bits(bits: u32) -> (flags: Option<Self>)
        ensures
            flags is Some <==> bits & !OPEN_FLAGS_ALL == 0,
            flags matches Some(f) ==> f@ == bits,
    {
        if bits & !OPEN_FLAGS_ALL == 0 {
            Some(OpenFlags { bits })
        } else {
            None
        }
    }

    /// The set with those of these bits that name a flag.
    pub fn from_bits_truncate(bits: u32) -> (flags: Self)
        ensures
            flags@ == bits & OPEN_FLAGS_ALL,
    {
        OpenFlags { bits: bits & OPEN_FLAGS_ALL }
    }

    /// Whether no flag is set.
    pub fn is_empty(&self) -> (empty: bool)
        ensures
            empty == (self@ == 0),
    {
        self.bits == 0
    }

    /// Whether every flag of `other` is set.
    pub fn contains(&self, other: OpenFlags) -> (all_in: bool)
        ensures
            all_in == (self@ & other@ == other@),
    {
        self.bits & other.bits == other.bits
    }

    /// The flags of either set.
    pub fn union(self, other: OpenFlags) -> (flags: Self)
        ensures
            flags@ == self@ | other@,
    {
        OpenFlags { bits: self.bits | other.bits }
    }

    /// The flags of both sets.
    pub fn intersection(self, other: OpenFlags) -> (flags: Self)
        ensures
            flags@ == self@ & other@,
    {
        OpenFlags { bits: self.bits & other.bits }
    }
}

impl core::ops::BitOr for OpenFlags {
    type Output = OpenFlags;

    fn bitor(self, rhs: OpenFlags) -> (flags: OpenFlags) {
        OpenFlags { bits: self.bits | rhs.bits }
    }
}

impl vstd::std_specs::ops::BitOrSpecImpl for OpenFlags {
    open spec fn obeys_bitor_spec() -> bool {
        true
    }

    open spec fn bitor_req(self, rhs: OpenFlags) -> bool {
        true
    }

    closed spec fn bitor_spec(self, rhs: OpenFlags) -> OpenFlags {
        OpenFlags { bits: self.bits | rhs.bits }
    }
}

/// `a | b` holds the flags of both sets.
pub proof fn lemma_open_flags_bitor(a: OpenFlags, b: OpenFlags)
    ensures
        vstd::std_specs::ops::BitOrSpec::bitor_spec(a, b)@ == a@ | b@,
{
}

/// Whether a file token is anything but the host's error token. The host's
/// error token is compared in 32 bits.
pub open spec fn is_valid_token(raw: FsIOFile) -> bool {
    raw % 0x1_0000_0000 != FS_IO_ERROR_FILE
}

/// The token the host is asked to close when a handle with token `raw` is
/// closed while the host reports the file as `opened`: none unless the token
/// is valid and the file is open.
pub open spec fn close_request(raw: FsIOFile, opened: bool) -> Option<FsIOFile> {
    if is_valid_token(raw) && opened {
        Some(raw)
    } else {
        None
    }
}

/// The token of a handle that has been closed.
pub open spec fn spent_token() -> FsIOFile {
    FS_IO_ERROR_FILE as u64
}

/// Closing is idempotent. A handle that has been closed, one that holds the
/// error token, and one whose file the host does not report as open ask the
/// host for nothing when they are closed, whatever the host says.
pub proof fn lemma_close_is_idempotent(raw: FsIOFile, opened: bool)
    ensures
        !is_valid_token(spent_token()),
        close_request(spent_token(), opened) is None,
        !is_valid_token(raw) ==> close_request(raw, opened) is None,
        close_request(raw, false) is None,
{
}

/// A length as the host counts it: in 32 bits, two's complement.
pub open spec fn wrapped_i32(n: int) -> int {
    if n % 0x1_0000_0000 < 0x8000_0000 {
        n % 0x1_0000_0000
    } else {
        n % 0x1_0000_0000 - 0x1_0000_0000
    }
}

/// Reduces a length or an offset to the 32 bits the host counts in.
pub fn wrap_i32(n: u64) -> (wrapped: i32)
    ensures
        wrapped == wrapped_i32(n as int),
{
    let low: u64 = n % 0x1_0000_0000;
    if low < 0x8000_0000 {
        low as i32
    } else {
        (low as i64 - 0x1_0000_0000i64) as i32
    }
}

/// What the host says of a file at the moment it is asked. The host alone
/// knows how far a transfer has come, so nothing of this is kept: whoever
/// wants to know asks again.
#[derive(Debug, Clone, Copy, PartialEq, Eq, Structural)]
pub struct FileStatus {
    pub opened: bool,
    pub in_progress: bool,
    pub done: bool,
    pub has_error: bool,
    pub last_error: FsIOErr,
    pub size: u64,
}

/// A file token of the host.
#[derive(Debug)]
pub struct File(FsIOFile);

/// An open call for the host: the path in the host's encoding, the flags and
/// the token that stands for the completion callback.
pub struct OpenRequest {
    pub path: HostString,
    pub flags: FsIOOpenFlags,
    pub token: usize,
}

/// An open-and-read call for the host.
pub struct OpenReadRequest {
    pub path: HostString,
    pub flags: FsIOOpenFlags,
    pub byte_offset: i32,
    pub bytes_to_read: i32,
    pub token: usize,
}

/// A read call for the host.
#[derive(Debug, Clone, Copy, PartialEq, Eq, Structural)]
pub struct ReadCall {
    pub file: FsIOFile,
    pub byte_offset: i32,
    pub bytes_to_read: i32,
    pub token: usize,
}

/// A write call for the host.
#[derive(Debug, Clone, Copy, PartialEq, Eq, Structural)]
pub struct WriteCall {
    pub file: FsIOFile,
    pub byte_offset: i32,
    pub size: i32,
    pub token: usize,
}

/// Takes the token the host returned for an open call. The error token means
/// that the host refused: the cell under `token` is given up at once and the
/// call fails with `FileNotFound`. Any other token is the opened file, and the
/// cell stays for the completion.
pub fn settle_open<C>(registry: &mut CallbackRegistry<C>, token: usize, raw: FsIOFile) -> (outcome:
    IoResult<File>)
    ensures
        final(registry)@ == after_settle(old(registry)@, token, is_valid_token(raw)),
        match outcome {
            Ok(file) => is_valid_token(raw) && file@ == raw,
            Err(e) => !is_valid_token(raw) && e == IoError::FileNotFound,
        },
{
    if (raw % 0x1_0000_0000) as u32 == FS_IO_ERROR_FILE {
        let _ = registry.reclaim(token);
        Err(IoError::FileNotFound)
    } else {
        Ok(File(raw))
    }
}

/// Takes the result code the host returned for a read or write call. An
/// error code means that the host refused: the cell under `token` is given up
/// at once and the error is returned. On success the cell stays for the
/// completion.
pub fn settle_transfer<C>(registry: &mut CallbackRegistry<C>, token: usize, code: FsIOErr) -> (outcome:
    IoResult<()>)
    ensures
        final(registry)@ == after_settle(old(registry)@, token, error_of_code(code) is None),
        outcome == (match error_of_code(code) {
            None => Ok::<(), IoError>(()),
            Some(e) => Err::<(), IoError>(e),
        }),
{
    match IoError::from_raw(code) {
        Some(e) => {
            let _ = registry.reclaim(token);
            Err(e)
        },
        None => Ok(()),
    }
}

impl OpenRequest {
    /// Takes the token the host returned for this call.
    pub fn complete<C>(self, registry: &mut CallbackRegistry<C>, raw: FsIOFile) -> (outcome: IoResult<
        File,
    >)
        ensures
            final(registry)@ == after_settle(old(registry)@, self.token, is_valid_token(raw)),
            match outcome {
                Ok(file) => is_valid_token(raw) && file@ == raw,
                Err(e) => !is_valid_token(raw) && e == IoError::FileNotFound,
            },
    {
        settle_open(registry, self.token, raw)
    }
}

impl OpenReadRequest {
    /// Takes the token the host returned for this call.
    pub fn complete<C>(self, registry: &mut CallbackRegistry<C>, raw: FsIOFile) -> (outcome: IoResult<
        File,
    >)
        ensures
            final(registry)@ == after_settle(old(registry)@, self.token, is_valid_token(raw)),
            match outcome {
                Ok(file) => is_valid_token(raw) && file@ == raw,
                Err(e) => !is_valid_token(raw) && e == IoError::FileNotFound,
            },
    {
        settle_open(registry, self.token, raw)
    }
}

impl ReadCall {
    /// Takes the result code the host returned for this call.
    pub fn complete<C>(self, registry: &mut CallbackRegistry<C>, code: FsIOErr) -> (outcome: IoResult<
        (),
    >)
        ensures
            final(registry)@ == after_settle(old(registry)@, self.token, error_of_code(code) is None),
            outcome == (match error_of_code(code) {
                None => Ok::<(), IoError>(()),
                Some(e) => Err::<(), IoError>(e),
            }),
    {
        settle_transfer(registry, self.token, code)
    }
}

impl WriteCall {
    /// Takes the result code the host returned for this call.
    pub fn complete<C>(self, registry: &mut CallbackRegistry<C>, code: FsIOErr) -> (outcome: IoResult<
        (),
    >)
        ensures
            final(registry)@ == after_settle(old(registry)@, self.token, error_of_code(code) is None),
            outcome == (match error_of_code(code) {
                None => Ok::<(), IoError>(()),
                Some(e) => Err::<(), IoError>(e),
            }),
    {
        settle_transfer(registry, self.token, code)
    }
}

impl File {
    /// The token of the file.
    pub closed spec fn view(&self) -> FsIOFile {
        self.0
    }

    /// Wraps a token of the host.
    pub fn from_raw(raw: FsIOFile) -> (file: File)
        ensures
            file@ == raw,
    {
        File(raw)
    }

    /// The token of the file.
    pub fn raw(&self) -> (raw: FsIOFile)
        ensures
            raw == self@,
    {
        self.0
    }

    /// Whether the token is anything but the host's error token.
    pub fn is_valid(&self) -> (valid: bool)
        ensures
            valid == is_valid_token(self@),
    {
        (self.0 % 0x1_0000_0000) as u32 != FS_IO_ERROR_FILE
    }

    /// Whether the host has the file open.
    pub fn is_opened(&self, host: &FileStatus) -> (opened: bool)
        ensures
            opened == host.opened,
    {
        host.opened
    }

    /// Whether the host is still working on the file.
    pub fn in_progress(&self, host: &FileStatus) -> (busy: bool)
        ensures
            busy == host.in_progress,
    {
        host.in_progress
    }

    /// Whether the host has finished its work on the file.
    pub fn is_done(&self, host: &FileStatus) -> (done: bool)
        ensures
            done == host.done,
    {
        host.done
    }

    /// Whether the host's work on the file has failed.
    pub fn has_error(&self, host: &FileStatus) -> (failed: bool)
        ensures
            failed == host.has_error,
    {
        host.has_error
    }

    /// The last error the host recorded for the file.
    pub fn last_error(&self, host: &FileStatus) -> (error: Option<IoError>)
        ensures
            error == error_of_code(host.last_error),
    {
        IoError::from_raw(host.last_error)
    }

    /// The size of the file as the host reports it.
    pub fn file_size(&self, host: &FileStatus) -> (size: u64)
        ensures
            size == host.size,
    {
        host.size
    }

    /// Prepares a read of `bytes_to_read` bytes at `byte_offset`: stores
    /// `on_done` in a fresh cell and describes the call.
    pub fn read<C>(
        &self,
        registry: &mut CallbackRegistry<C>,
        byte_offset: i32,
        bytes_to_read: i32,
        on_done: C,
    ) -> (call: ReadCall)
        ensures
            call.file == self@,
            call.byte_offset == byte_offset,
            call.bytes_to_read == bytes_to_read,
            call.token != 0,
            !old(registry)@.contains_key(call.token),
            final(registry)@ == old(registry)@.insert(call.token, on_done),
    {
        let token = registry.register(on_done);
        ReadCall { file: self.0, byte_offset, bytes_to_read, token }
    }

    /// Prepares a write of `data` at `byte_offset`: stores `on_done` in a
    /// fresh cell and describes the call. The host counts the size in 32 bits.
    pub fn write<C>(
        &self,
        registry: &mut CallbackRegistry<C>,
        data: &[u8],
        byte_offset: i32,
        on_done: C,
    ) -> (call: WriteCall)
        ensures
            call.file == self@,
            call.byte_offset == byte_offset,
            call.size == wrapped_i32(data@.len() as int),
            call.token != 0,
            !old(registry)@.contains_key(call.token),
            final(registry)@ == old(registry)@.insert(call.token, on_done),
    {
        let token = registry.register(on_done);
        WriteCall { file: self.0, byte_offset, size: wrap_i32(data.len() as u64), token }
    }

    /// Decides whether the host has to be asked to close the file, given
    /// whether the host has it open. The host is asked only for a valid token
    /// of an open file. The handle is then spent: its token becomes the error
    /// token, so that closing it again asks for nothing.
    pub fn close(&mut self, opened: bool) -> (to_close: Option<FsIOFile>)
        ensures
            to_close == close_request(old(self)@, opened),
            final(self)@ == spent_token(),
    {
        let raw = self.0;
        let valid = self.is_valid();
        self.0 = FS_IO_ERROR_FILE as u64;
        if valid && opened {
            Some(raw)
        } else {
            None
        }
    }
}

/// Prepares an open of `path`. A path with a zero byte in it is refused
/// before anything is stored. Otherwise `on_done` is stored in a fresh cell
/// and the call is described.
pub fn open<C>(registry: &mut CallbackRegistry<C>, path: &str, flags: OpenFlags, on_done: C) -> (prepared:
    IoResult<OpenRequest>)
    ensures
        match prepared {
            Ok(request) => {
                &&& !has_nul(path.spec_bytes())
                &&& request.path@ == path.spec_bytes()
                &&& request.flags == flags@
                &&& request.token != 0
                &&& !old(registry)@.contains_key(request.token)
                &&& final(registry)@ == old(registry)@.insert(request.token, on_done)
            },
            Err(e) => {
                &&& e matches IoError::Nul(nul)
                &&& is_first_nul(path.spec_bytes(), nul.position())
                &&& final(registry)@ == old(registry)@
            },
        },
{
    match HostString::new(path) {
        Err(nul) => Err(IoError::Nul(nul)),
        Ok(path_c) => {
            let token = registry.register(on_done);
            Ok(OpenRequest { path: path_c, flags: flags.bits(), token })
        },
    }
}

/// Prepares an open of `path` that reads `bytes_to_read` bytes at
/// `byte_offset` as soon as the file is open. A path with a zero byte in it
/// is refused before anything is stored.
pub fn open_read<C>(
    registry: &mut CallbackRegistry<C>,
    path: &str,
    flags: OpenFlags,
    byte_offset: i32,
    bytes_to_read: i32,
    on_done: C,
) -> (prepared: IoResult<OpenReadRequest>)
    ensures
        match prepared {
            Ok(request) => {
                &&& !has_nul(path.spec_bytes())
                &&& request.path@ == path.spec_bytes()
                &&& request.flags == flags@
                &&& request.byte_offset == byte_offset
                &&& request.bytes_to_read == bytes_to_read
                &&& request.token != 0
                &&& !old(registry)@.contains_key(request.token)
                &&& final(registry)@ == old(registry)@.insert(request.token, on_done)
            },
            Err(e) => {
                &&& e matches IoError::Nul(nul)
                &&& is_first_nul(path.spec_bytes(), nul.position())
                &&& final(registry)@ == old(registry)@
            },
        },
{
    match HostString::new(path) {
        Err(nul) => Err(IoError::Nul(nul)),
        Ok(path_c) => {
            let token = registry.register(on_done);
            Ok(OpenReadRequest { path: path_c, flags: flags.bits(), byte_offset, bytes_to_read, token })
        },
    }
}

/// Entry point for a completed open. Gives up the cell behind `user` and
/// returns its callback together with the file it is to be called with. A
/// null or dead `user` returns nothing.
pub fn open_trampoline<C>(registry: &mut CallbackRegistry<C>, file: FsIOFile, user: usize) -> (fired:
    Option<(C, File)>)
    ensures
        final(registry)@ == old(registry)@.remove(user),
        match fired {
            Some((cb, f)) => cell_at(old(registry)@, user) == Some(cb) && f@ == file,
            None => cell_at(old(registry)@, user) is None,
        },
{
    match registry.reclaim(user) {
        Some(cb) => Some((cb, File(file))),
        None => None,
    }
}

/// Entry point for a completed read. Gives up the cell behind `user` and
/// returns its callback together with what it is to be called with: the
/// bytes read, which are none for a null buffer or a count that is not
/// positive, and the offset. A null or dead `user` returns nothing.
pub fn read_trampoline<'a, C>(
    registry: &mut CallbackRegistry<C>,
    buf_addr: usize,
    byte_offset: i32,
    bytes_read: i32,
    user: usize,
    mem: &'a [u8],
) -> (fired: Option<(C, &'a [u8], i32)>)
    ensures
        final(registry)@ == old(registry)@.remove(user),
        match fired {
            Some((cb, bytes, offset)) => {
                &&& cell_at(old(registry)@, user) == Some(cb)
                &&& bytes@ == payload_of(buf_addr, bytes_read as int, mem@)
                &&& offset == byte_offset
            },
            None => cell_at(old(registry)@, user) is None,
        },
{
    match registry.reclaim(user) {
        Some(cb) => Some((cb, payload(buf_addr, bytes_read as i64, mem), byte_offset)),
        None => None,
    }
}

/// Entry point for a completed write. Gives up the cell behind `user` and
/// returns its callback together with the offset and the count it is to be
/// called with. A null or dead `user` returns nothing.
pub fn write_trampoline<C>(
    registry: &mut CallbackRegistry<C>,
    byte_offset: i32,
    bytes_written: i32,
    user: usize,
) -> (fired: Option<(C, i32, i32)>)
    ensures
        final(registry)@ == old(registry)@.remove(user),
        match fired {
            Some((cb, offset, written)) => {
                &&& cell_at(old(registry)@, user) == Some(cb)
                &&& offset == byte_offset
                &&& written == bytes_written
            },
            None => cell_at(old(registry)@, user) is None,
        },
{
    match registry.reclaim(user) {
        Some(cb) => Some((cb, byte_offset, bytes_written)),
        None => None,
    }
}

} // verus!
