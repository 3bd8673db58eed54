//! Requests built on the file calls: read a whole file, write one, or hold
//! one open, and ask later how far the host has come.
//!
//! A request is shared by two parties: the handle the caller holds, and the
//! completion the host still owes. Its cell lives until both are through with
//! it. The completion callback leaves the cell exactly once, when the host
//! completes; what the completion brought stays in the cell until the handle
//! takes it.

use crate::buffer::{payload, payload_of};
use crate::host_string::{has_nul, is_first_nul};
use crate::io::{
    close_request, spent_token, error_of_code, is_valid_token, open_read, wrap_i32, wrapped_i32, File, FileStatus, IoError,
    IoResult, OpenFlags, OpenReadRequest, OpenRequest, ReadCall, WriteCall,
};
use crate::registry::{after_settle, CallbackRegistry};
use crate::sys::{
    FsIOErr, FsIOFile, FsIOOpenFlags, FS_IO_OPEN_FLAG_CREAT, FS_IO_OPEN_FLAG_RDONLY,
    FS_IO_OPEN_FLAG_TRUNC, FS_IO_OPEN_FLAG_WRONLY,
};
use crate::text::{str_from_utf8, string_from_utf8};
use std::str::Utf8Error;
use std::string::FromUtf8Error;
use vstd::prelude::*;
use vstd::slice::slice_to_vec;
use vstd::string::StringSliceAdditionalSpecFns;
use vstd::utf8::{encode_utf8, valid_utf8};

verus! {

/// How far a request has come.
#[derive(Debug, Clone, Copy, PartialEq, Eq, Structural)]
pub enum RequestStatus {
    InProgress,
    Done,
    Error,
}

/// The status a request has when the host says this of its file: an error
/// outranks completion.
pub open spec fn status_of(host: FileStatus) -> RequestStatus {
    if host.has_error {
        RequestStatus::Error
    } else if host.done {
        RequestStatus::Done
    } else {
        RequestStatus::InProgress
    }
}

/// The status of a request whose file the host describes by `host`.
pub fn request_status(host: &FileStatus) -> (status: RequestStatus)
    ensures
        status == status_of(*host),
{
    if host.has_error {
        RequestStatus::Error
    } else if host.done {
        RequestStatus::Done
    } else {
        RequestStatus::InProgress
    }
}

/// The state of a read request.
pub enum ReadState<F> {
    /// The host has not completed the read. The callback waits in the cell.
    /// `held` says whether the caller still holds the handle.
    Pending { on_done: F, as_text: bool, held: bool },
    /// The host has completed the read and the callback has left the cell.
    /// The bytes read stay until the handle takes them.
    Done { data: Option<Seq<u8>> },
}

enum ReadCell<F> {
    Pending { on_done: F, as_text: bool, held: bool },
    Done { data: Option<Vec<u8>> },
}

impl<F> ReadCell<F> {
    spec fn view(&self) -> ReadState<F> {
        match *self {
            ReadCell::Pending { on_done, as_text, held } => ReadState::Pending {
                on_done,
                as_text,
                held,
            },
            ReadCell::Done { data } => ReadState::Done {
                data: match data {
                    Some(bytes) => Some(bytes@),
                    None => None,
                },
            },
        }
    }
}

/// The read requests that are under way or hold a result.
pub struct ReadRequests<F> {
    cells: CallbackRegistry<ReadCell<F>>,
}

/// The handle of a read request.
pub struct ReadRequest {
    file: File,
    token: usize,
}

/// The requests after the host has completed the read behind `user` with
/// `bytes`. A request whose handle is held keeps the bytes; one whose handle
/// is gone is through. Nothing else changes, and a completion that no pending
/// request waits for changes nothing.
pub open spec fn reads_after_completion<F>(
    requests: Map<usize, ReadState<F>>,
    user: usize,
    bytes: Seq<u8>,
) -> Map<usize, ReadState<F>> {
    if requests.contains_key(user) {
        match requests[user] {
            ReadState::Pending { held, .. } => if held {
                requests.insert(user, ReadState::Done { data: Some(bytes) })
            } else {
                requests.remove(user)
            },
            ReadState::Done { .. } => requests,
        }
    } else {
        requests
    }
}

/// The requests after the handle of the request under `token` has taken the
/// bytes read.
pub open spec fn reads_after_take<F>(requests: Map<usize, ReadState<F>>, token: usize) -> Map<
    usize,
    ReadState<F>,
> {
    if requests.contains_key(token) && requests[token] is Done {
        requests.insert(token, ReadState::Done { data: None })
    } else {
        requests
    }
}

/// The bytes the handle of the request under `token` gets when it takes them.
pub open spec fn taken_data<F>(requests: Map<usize, ReadState<F>>, token: usize) -> Option<Seq<u8>> {
    if requests.contains_key(token) {
        match requests[token] {
            ReadState::Done { data } => data,
            ReadState::Pending { .. } => None,
        }
    } else {
        None
    }
}

/// The requests after the handle of the request under `token` has been let
/// go. A pending request stays for its completion; a completed one is through.
pub open spec fn reads_after_release<F>(requests: Map<usize, ReadState<F>>, token: usize) -> Map<
    usize,
    ReadState<F>,
> {
    if requests.contains_key(token) {
        match requests[token] {
            ReadState::Pending { on_done, as_text, .. } => requests.insert(
                token,
                ReadState::Pending { on_done, as_text, held: false },
            ),
            ReadState::Done { .. } => requests.remove(token),
        }
    } else {
        requests
    }
}

impl<F> ReadRequests<F> {
    /// The requests by token.
    pub closed spec fn view(&self) -> Map<usize, ReadState<F>> {
        self.cells@.map_values(|cell: ReadCell<F>| cell@)
    }

    /// No requests.
    pub fn new() -> (requests: Self)
        ensures
            requests@ == Map::<usize, ReadState<F>>::empty(),
    {
        let requests = ReadRequests { cells: CallbackRegistry::new() };
        assert(requests@ =~= Map::<usize, ReadState<F>>::empty());
        requests
    }

    /// Whether a request is stored under `token`.
    pub fn contains(&self, token: usize) -> (stored: bool)
        ensures
            stored == self@.contains_key(token),
    {
        self.cells.contains(token)
    }

    fn start(&mut self, path: &str, on_done: F, as_text: bool) -> (prepared: IoResult<OpenReadRequest>)
        ensures
            match prepared {
                Ok(request) => {
                    &&& !has_nul(path.spec_bytes())
                    &&& request.path@ == path.spec_bytes()
                    &&& request.flags == FS_IO_OPEN_FLAG_RDONLY
                    &&& request.byte_offset == 0
                    &&& request.bytes_to_read == -1
                    &&& request.token != 0
                    &&& !old(self)@.contains_key(request.token)
                    &&& final(self)@ == old(self)@.insert(
                        request.token,
                        ReadState::Pending { on_done, as_text, held: true },
                    )
                },
                Err(e) => {
                    &&& e matches IoError::Nul(nul)
                    &&& is_first_nul(path.spec_bytes(), nul.position())
                    &&& final(self)@ == old(self)@
                },
            },
    {
        let cell = ReadCell::Pending { on_done, as_text, held: true };
        let prepared = open_read(&mut self.cells, path, OpenFlags::rdonly(), 0, -1, cell);
        proof {
            if let Ok(request) = &prepared {
                assert(self@ =~= old(self)@.insert(request.token, cell@));
            }
        }
        prepared
    }

    /// Takes the token the host returned for the open-and-read call of a
    /// request. The error token means that the host refused: the request is
    /// dropped at once, callback and all, and the call fails with
    /// `FileNotFound`. Any other token starts the request.
    pub fn opened(&mut self, request: OpenReadRequest, raw: FsIOFile) -> (outcome: IoResult<
        ReadRequest,
    >)
        ensures
            final(self)@ == after_settle(old(self)@, request.token, is_valid_token(raw)),
            match outcome {
                Ok(handle) => is_valid_token(raw) && handle.file() == raw && handle.token()
                    == request.token,
                Err(e) => !is_valid_token(raw) && e == IoError::FileNotFound,
            },
    {
        let token = request.token;
        let outcome = request.complete(&mut self.cells, raw);
        proof {
            if !is_valid_token(raw) {
                assert(self@ =~= old(self)@.remove(token));
            }
        }
        match outcome {
            Ok(file) => Ok(ReadRequest { file, token }),
            Err(e) => Err(e),
        }
    }

    /// Entry point for a completed read of a request. The callback leaves
    /// the request and is returned with what it is to be called with: the
    /// bytes read, which are none for a null buffer or a count that is not
    /// positive, and, for a request that asked for text, the bytes decoded.
    /// The bytes are kept for the handle if it is still held. A null or dead
    /// `user`, or one whose read has completed before, returns nothing.
    pub fn completed<'a>(
        &mut self,
        buf_addr: usize,
        bytes_read: i32,
        user: usize,
        mem: &'a [u8],
    ) -> (fired: Option<(F, &'a [u8], Option<Result<&'a str, Utf8Error>>)>)
        ensures
            final(self)@ == reads_after_completion(
                old(self)@,
                user,
                payload_of(buf_addr, bytes_read as int, mem@),
            ),
            match fired {
                Some((cb, bytes, text)) => {
                    &&& old(self)@.contains_key(user)
                    &&& old(self)@[user] matches ReadState::Pending { on_done, as_text, .. }
                    &&& cb == on_done
                    &&& bytes@ == payload_of(buf_addr, bytes_read as int, mem@)
                    &&& text is Some <==> as_text
                    &&& text matches Some(t) ==> {
                        &&& t is Ok <==> valid_utf8(bytes@)
                        &&& t matches Ok(s) ==> s.spec_bytes() == bytes@
                    }
                },
                None => !(old(self)@.contains_key(user) && old(self)@[user] is Pending),
            },
    {
        let bytes = payload(buf_addr, bytes_read as i64, mem);
        let held = match self.cells.get(user) {
            Some(ReadCell::Pending { held, .. }) => Some(*held),
            _ => None,
        };
        let cell = match held {
            None => None,
            Some(true) => {
                let kept = ReadCell::Done { data: Some(slice_to_vec(bytes)) };
                match self.cells.replace(user, kept) {
                    Ok(was) => {
                        assert(self@ =~= old(self)@.insert(user, kept@));
                        Some(was)
                    },
                    Err(_) => None,
                }
            },
            Some(false) => {
                let was = self.cells.reclaim(user);
                assert(self@ =~= old(self)@.remove(user));
                was
            },
        };
        match cell {
            Some(ReadCell::Pending { on_done, as_text, .. }) => {
                let text = if as_text {
                    Some(str_from_utf8(bytes))
                } else {
                    None
                };
                Some((on_done, bytes, text))
            },
            _ => None,
        }
    }

    /// Lets go of the handle of a request and returns its file. A request
    /// that is still pending stays for its completion; a completed one is
    /// dropped.
    pub fn release(&mut self, handle: ReadRequest) -> (file: File)
        ensures
            file@ == handle.file(),
            final(self)@ == reads_after_release(old(self)@, handle.token()),
    {
        let token = handle.token;
        let pending = match self.cells.get(token) {
            Some(ReadCell::Pending { .. }) => Some(true),
            Some(ReadCell::Done { .. }) => Some(false),
            None => None,
        };
        match pending {
            Some(true) => {
                match self.cells.borrow_mut(token) {
                    Some(ReadCell::Pending { held, .. }) => {
                        *held = false;
                    },
                    _ => {},
                }
                assert(self@ =~= reads_after_release(old(self)@, token));
            },
            Some(false) => {
                let _ = self.cells.reclaim(token);
                assert(self@ =~= reads_after_release(old(self)@, token));
            },
            None => {},
        }
        handle.file
    }
}

impl ReadRequest {
    /// The token of the file the request reads.
    pub closed spec fn file(&self) -> FsIOFile {
        self.file@
    }

    /// The token the request is stored under.
    pub closed spec fn token(&self) -> usize {
        self.token
    }

    /// The token the request is stored under, which is the one the host
    /// holds for its completion.
    pub fn user_token(&self) -> (token: usize)
        ensures
            token == self.token(),
    {
        self.token
    }

    /// The file the request reads.
    pub fn file_ref(&self) -> (file: &File)
        ensures
            file@ == self.file(),
    {
        &self.file
    }

    /// How far the request has come, by what the host says of its file.
    pub fn status(&self, host: &FileStatus) -> (status: RequestStatus)
        ensures
            status == status_of(*host),
    {
        request_status(host)
    }

    /// Whether the host has completed the request without an error.
    pub fn is_done(&self, host: &FileStatus) -> (done: bool)
        ensures
            done == (status_of(*host) == RequestStatus::Done),
    {
        self.status(host) == RequestStatus::Done
    }

    /// Whether the request has failed.
    pub fn has_error(&self, host: &FileStatus) -> (failed: bool)
        ensures
            failed == (status_of(*host) == RequestStatus::Error),
    {
        self.status(host) == RequestStatus::Error
    }

    /// The last error the host recorded for the file.
    pub fn last_error(&self, host: &FileStatus) -> (error: Option<IoError>)
        ensures
            error == error_of_code(host.last_error),
    {
        self.file.last_error(host)
    }

    /// The size of the file as the host reports it.
    pub fn file_size(&self, host: &FileStatus) -> (size: u64)
        ensures
            size == host.size,
    {
        self.file.file_size(host)
    }

    /// Takes the bytes read, once the read has completed. They can be taken
    /// once.
    pub fn take_data<F>(&self, requests: &mut ReadRequests<F>) -> (data: Option<Vec<u8>>)
        ensures
            final(requests)@ == reads_after_take(old(requests)@, self.token()),
            match data {
                Some(bytes) => taken_data(old(requests)@, self.token()) == Some(bytes@),
                None => taken_data(old(requests)@, self.token()) is None,
            },
    {
        match requests.cells.borrow_mut(self.token) {
            Some(ReadCell::Done { data }) => {
                let taken = data.take();
                assert(requests@ =~= reads_after_take(old(requests)@, self.token));
                taken
            },
            _ => {
                assert(requests@ =~= reads_after_take(old(requests)@, self.token));
                None
            },
        }
    }

    /// Takes the bytes read and turns them into a string, which succeeds
    /// exactly when they are well-formed UTF-8.
    pub fn take_string<F>(&self, requests: &mut ReadRequests<F>) -> (text: Option<
        Result<String, FromUtf8Error>,
    >)
        ensures
            final(requests)@ == reads_after_take(old(requests)@, self.token()),
            match text {
                Some(t) => {
                    &&& taken_data(old(requests)@, self.token()) matches Some(bytes)
                    &&& t is Ok <==> valid_utf8(bytes)
                    &&& t matches Ok(s) ==> encode_utf8(s@) == bytes
                },
                None => taken_data(old(requests)@, self.token()) is None,
            },
    {
        match self.take_data(requests) {
            Some(bytes) => Some(string_from_utf8(bytes)),
            None => None,
        }
    }
}

/// Prepares a request that reads the whole file at `path` and hands the
/// bytes to `on_done`. A path with a zero byte in it is refused before
/// anything is stored.
pub fn read<F>(requests: &mut ReadRequests<F>, path: &str, on_done: F) -> (prepared: IoResult<
    OpenReadRequest,
>)
    ensures
        match prepared {
            Ok(request) => {
                &&& !has_nul(path.spec_bytes())
                &&& request.path@ == path.spec_bytes()
                &&& request.flags == FS_IO_OPEN_FLAG_RDONLY
                &&& request.byte_offset == 0
                &&& request.bytes_to_read == -1
                &&& request.token != 0
                &&& !old(requests)@.contains_key(request.token)
                &&& final(requests)@ == old(requests)@.insert(
                    request.token,
                    ReadState::Pending { on_done, as_text: false, held: true },
                )
            },
            Err(e) => {
                &&& e matches IoError::Nul(nul)
                &&& is_first_nul(path.spec_bytes(), nul.position())
                &&& final(requests)@ == old(requests)@
            },
        },
{
    requests.start(path, on_done, false)
}

/// Prepares a request that reads the whole file at `path` and hands it to
/// `on_done` as text. A path with a zero byte in it is refused before
/// anything is stored.
pub fn read_to_string<F>(requests: &mut ReadRequests<F>, path: &str, on_done: F) -> (prepared:
    IoResult<OpenReadRequest>)
    ensures
        match prepared {
            Ok(request) => {
                &&& !has_nul(path.spec_bytes())
                &&& request.path@ == path.spec_bytes()
                &&& request.flags == FS_IO_OPEN_FLAG_RDONLY
                &&& request.byte_offset == 0
                &&& request.bytes_to_read == -1
                &&& request.token != 0
                &&& !old(requests)@.contains_key(request.token)
                &&& final(requests)@ == old(requests)@.insert(
                    request.token,
                    ReadState::Pending { on_done, as_text: true, held: true },
                )
            },
            Err(e) => {
                &&& e matches IoError::Nul(nul)
                &&& is_first_nul(path.spec_bytes(), nul.position())
                &&& final(requests)@ == old(requests)@
            },
        },
{
    requests.start(path, on_done, true)
}

/// What a completed write brought: where it wrote and how much.
#[derive(Debug, Clone, Copy, PartialEq, Eq, Structural)]
pub struct WriteOutcome {
    pub byte_offset: i32,
    pub bytes_written: i32,
}

/// Where a write request writes.
#[derive(Debug, Clone, Copy, PartialEq, Eq, Structural)]
pub enum WriteAt {
    /// At this offset.
    Offset(i32),
    /// At the end of the file, as the host reports its size when it is open.
    End,
}

/// The state of a write request.
pub enum WriteState {
    /// The host has not opened the file yet. The bytes to write wait in the
    /// cell.
    Opening { data: Seq<u8>, at: WriteAt, held: bool },
    /// The file is open and the write is with the host, which reads the
    /// bytes where the request keeps them.
    Writing { data: Seq<u8>, held: bool },
    /// The request is through, with the outcome of the write if the host
    /// took it and the handle has not taken it yet.
    Done { outcome: Option<WriteOutcome> },
}

enum WriteCell {
    Opening { data: Vec<u8>, at: WriteAt, held: bool },
    Writing { data: Vec<u8>, held: bool },
    Done { outcome: Option<WriteOutcome> },
}

impl WriteCell {
    spec fn view(&self) -> WriteState {
        match *self {
            WriteCell::Opening { data, at, held } => WriteState::Opening { data: data@, at, held },
            WriteCell::Writing { data, held } => WriteState::Writing { data: data@, held },
            WriteCell::Done { outcome } => WriteState::Done { outcome },
        }
    }
}

/// The write requests that are under way or hold an outcome.
pub struct WriteRequests {
    cells: CallbackRegistry<WriteCell>,
}

/// The handle of a write request.
pub struct WriteRequest {
    file: File,
    token: usize,
}

/// Whether the caller still holds the handle of a request in this state.
pub open spec fn write_is_held(state: WriteState) -> bool {
    match state {
        WriteState::Opening { held, .. } => held,
        WriteState::Writing { held, .. } => held,
        WriteState::Done { .. } => true,
    }
}

/// The offset a request writes at, given the size of the file when it is
/// open.
pub open spec fn offset_of(at: WriteAt, file_size: u64) -> int {
    match at {
        WriteAt::Offset(offset) => offset as int,
        WriteAt::End => wrapped_i32(file_size as int),
    }
}

/// The requests after the host has opened the file of the request behind
/// `user`: the request waits for the write, keeping its bytes for the host
/// to read.
pub open spec fn writes_after_open(requests: Map<usize, WriteState>, user: usize) -> Map<
    usize,
    WriteState,
> {
    if requests.contains_key(user) {
        match requests[user] {
            WriteState::Opening { data, held, .. } => requests.insert(
                user,
                WriteState::Writing { data, held },
            ),
            _ => requests,
        }
    } else {
        requests
    }
}

/// The bytes the host reads for the write of the request under `token`,
/// while that write is with the host.
pub open spec fn write_buffer(requests: Map<usize, WriteState>, token: usize) -> Option<Seq<u8>> {
    if requests.contains_key(token) {
        match requests[token] {
            WriteState::Writing { data, .. } => Some(data),
            _ => None,
        }
    } else {
        None
    }
}

/// The requests after the write of the request under `token` has come to an
/// end with `outcome`, which is `None` if the host refused the write. A
/// request whose handle is held keeps the outcome; one whose handle is gone is
/// through.
pub open spec fn writes_after_end(
    requests: Map<usize, WriteState>,
    token: usize,
    outcome: Option<WriteOutcome>,
) -> Map<usize, WriteState> {
    if requests.contains_key(token) && requests[token] is Writing {
        if write_is_held(requests[token]) {
            requests.insert(token, WriteState::Done { outcome })
        } else {
            requests.remove(token)
        }
    } else {
        requests
    }
}

/// The requests after the handle of the request under `token` has taken the
/// outcome.
pub open spec fn writes_after_take(requests: Map<usize, WriteState>, token: usize) -> Map<
    usize,
    WriteState,
> {
    if requests.contains_key(token) && requests[token] is Done {
        requests.insert(token, WriteState::Done { outcome: None })
    } else {
        requests
    }
}

/// The outcome the handle of the request under `token` gets when it takes it.
pub open spec fn taken_outcome(requests: Map<usize, WriteState>, token: usize) -> Option<
    WriteOutcome,
> {
    if requests.contains_key(token) {
        match requests[token] {
            WriteState::Done { outcome } => outcome,
            _ => None,
        }
    } else {
        None
    }
}

/// The requests after the handle of the request under `token` has been let
/// go. A request the host still owes a completion stays for it; one that is
/// through is dropped.
pub open spec fn writes_after_release(requests: Map<usize, WriteState>, token: usize) -> Map<
    usize,
    WriteState,
> {
    if requests.contains_key(token) {
        match requests[token] {
            WriteState::Opening { data, at, .. } => requests.insert(
                token,
                WriteState::Opening { data, at, held: false },
            ),
            WriteState::Writing { data, .. } => requests.insert(
                token,
                WriteState::Writing { data, held: false },
            ),
            WriteState::Done { .. } => requests.remove(token),
        }
    } else {
        requests
    }
}

impl WriteRequests {
    /// The requests by token.
    pub closed spec fn view(&self) -> Map<usize, WriteState> {
        self.cells@.map_values(|cell: WriteCell| cell@)
    }

    /// No requests.
    pub fn new() -> (requests: Self)
        ensures
            requests@ == Map::<usize, WriteState>::empty(),
    {
        let requests = WriteRequests { cells: CallbackRegistry::new() };
        assert(requests@ =~= Map::<usize, WriteState>::empty());
        requests
    }

    /// Whether a request is stored under `token`.
    pub fn contains(&self, token: usize) -> (stored: bool)
        ensures
            stored == self@.contains_key(token),
    {
        self.cells.contains(token)
    }

    /// Takes the token the host returned for the open call of a request.
    /// The error token means that the host refused: the request is dropped at
    /// once and the call fails with `FileNotFound`. Any other token starts
    /// the request.
    pub fn opened(&mut self, request: OpenRequest, raw: FsIOFile) -> (outcome: IoResult<WriteRequest>)
        ensures
            final(self)@ == after_settle(old(self)@, request.token, is_valid_token(raw)),
            match outcome {
                Ok(handle) => is_valid_token(raw) && handle.file() == raw && handle.token()
                    == request.token,
                Err(e) => !is_valid_token(raw) && e == IoError::FileNotFound,
            },
    {
        let token = request.token;
        let outcome = request.complete(&mut self.cells, raw);
        proof {
            if !is_valid_token(raw) {
                assert(self@ =~= old(self)@.remove(token));
            }
        }
        match outcome {
            Ok(file) => Ok(WriteRequest { file, token }),
            Err(e) => Err(e),
        }
    }

    /// Entry point for a completed open of a request's file. Returns the
    /// write call to make for the request: at the offset the request names,
    /// or at the size the host reports for the file. The bytes stay with the
    /// request, where the host reads them until the write has come to an end.
    /// The completion of that write is owed to the same token. A null or dead
    /// `user`, or one whose file has been opened before, returns nothing.
    pub fn file_opened(&mut self, file: FsIOFile, user: usize, file_size: u64) -> (issue: Option<
        WriteCall,
    >)
        ensures
            final(self)@ == writes_after_open(old(self)@, user),
            match issue {
                Some(call) => {
                    &&& old(self)@.contains_key(user)
                    &&& old(self)@[user] matches WriteState::Opening { data, at, .. }
                    &&& call.file == file
                    &&& call.byte_offset == offset_of(at, file_size)
                    &&& call.size == wrapped_i32(data.len() as int)
                    &&& call.token == user
                },
                None => !(old(self)@.contains_key(user) && old(self)@[user] is Opening),
            },
    {
        let opening = match self.cells.get(user) {
            Some(WriteCell::Opening { .. }) => true,
            _ => false,
        };
        if !opening {
            return None;
        }
        proof {
            self.cells.lemma_null_is_never_live();
        }
        match self.cells.reclaim(user) {
            Some(WriteCell::Opening { data, at, held }) => {
                let byte_offset = match at {
                    WriteAt::Offset(offset) => offset,
                    WriteAt::End => wrap_i32(file_size),
                };
                let size = wrap_i32(data.len() as u64);
                let next = WriteCell::Writing { data, held };
                self.cells.put(user, next);
                assert(self@ =~= writes_after_open(old(self)@, user));
                Some(WriteCall { file, byte_offset, size, token: user })
            },
            _ => None,
        }
    }

    /// The bytes the host reads for the write of the request under `token`,
    /// while that write is with the host.
    pub fn buffer(&self, token: usize) -> (bytes: Option<&[u8]>)
        ensures
            match bytes {
                Some(b) => write_buffer(self@, token) == Some(b@),
                None => write_buffer(self@, token) is None,
            },
    {
        match self.cells.get(token) {
            Some(WriteCell::Writing { data, .. }) => Some(data.as_slice()),
            _ => None,
        }
    }

    fn end(&mut self, token: usize, outcome: Option<WriteOutcome>) -> (ended: bool)
        ensures
            final(self)@ == writes_after_end(old(self)@, token, outcome),
            ended == (old(self)@.contains_key(token) && old(self)@[token] is Writing),
    {
        let held = match self.cells.get(token) {
            Some(WriteCell::Writing { held, .. }) => Some(*held),
            _ => None,
        };
        match held {
            None => false,
            Some(true) => {
                let next = WriteCell::Done { outcome };
                let _ = self.cells.replace(token, next);
                assert(self@ =~= writes_after_end(old(self)@, token, outcome));
                true
            },
            Some(false) => {
                let _ = self.cells.reclaim(token);
                assert(self@ =~= writes_after_end(old(self)@, token, outcome));
                true
            },
        }
    }

    /// Takes the result code the host returned for the write call of a
    /// request. An error code means that the host refused and no completion
    /// will come: the request ends without an outcome. On success the
    /// request waits for the completion.
    pub fn issued(&mut self, call: WriteCall, code: FsIOErr) -> (outcome: IoResult<()>)
        ensures
            error_of_code(code) is None ==> final(self)@ == old(self)@,
            error_of_code(code) is Some ==> final(self)@ == writes_after_end(
                old(self)@,
                call.token,
                None,
            ),
            outcome == (match error_of_code(code) {
                None => Ok::<(), IoError>(()),
                Some(e) => Err::<(), IoError>(e),
            }),
    {
        match IoError::from_raw(code) {
            Some(e) => {
                let _ = self.end(call.token, None);
                Err(e)
            },
            None => Ok(()),
        }
    }

    /// Entry point for a completed write of a request. The outcome is kept
    /// for the handle if it is still held. Returns whether a request was
    /// waiting for this completion.
    pub fn completed(&mut self, byte_offset: i32, bytes_written: i32, user: usize) -> (taken: bool)
        ensures
            final(self)@ == writes_after_end(
                old(self)@,
                user,
                Some(WriteOutcome { byte_offset, bytes_written }),
            ),
            taken == (old(self)@.contains_key(user) && old(self)@[user] is Writing),
    {
        self.end(user, Some(WriteOutcome { byte_offset, bytes_written }))
    }

    /// Lets go of the handle of a request and returns its file. A request
    /// the host still owes a completion stays for it; one that is through is
    /// dropped.
    pub fn release(&mut self, handle: WriteRequest) -> (file: File)
        ensures
            file@ == handle.file(),
            final(self)@ == writes_after_release(old(self)@, handle.token()),
    {
        let token = handle.token;
        let through = match self.cells.get(token) {
            Some(WriteCell::Done { .. }) => Some(true),
            Some(_) => Some(false),
            None => None,
        };
        match through {
            Some(false) => {
                match self.cells.borrow_mut(token) {
                    Some(WriteCell::Opening { held, .. }) => {
                        *held = false;
                    },
                    Some(WriteCell::Writing { held, .. }) => {
                        *held = false;
                    },
                    _ => {},
                }
                assert(self@ =~= writes_after_release(old(self)@, token));
            },
            Some(true) => {
                let _ = self.cells.reclaim(token);
                assert(self@ =~= writes_after_release(old(self)@, token));
            },
            None => {},
        }
        handle.file
    }
}

impl WriteRequest {
    /// The token of the file the request writes.
    pub closed spec fn file(&self) -> FsIOFile {
        self.file@
    }

    /// The token the request is stored under.
    pub closed spec fn token(&self) -> usize {
        self.token
    }

    /// The token the request is stored under, which is the one the host
    /// holds for its completions.
    pub fn user_token(&self) -> (token: usize)
        ensures
            token == self.token(),
    {
        self.token
    }

    /// The file the request writes.
    pub fn file_ref(&self) -> (file: &File)
        ensures
            file@ == self.file(),
    {
        &self.file
    }

    /// How far the request has come, by what the host says of its file.
    pub fn status(&self, host: &FileStatus) -> (status: RequestStatus)
        ensures
            status == status_of(*host),
    {
        request_status(host)
    }

    /// Whether the host has completed the request without an error.
    pub fn is_done(&self, host: &FileStatus) -> (done: bool)
        ensures
            done == (status_of(*host) == RequestStatus::Done),
    {
        self.status(host) == RequestStatus::Done
    }

    /// Whether the request has failed.
    pub fn has_error(&self, host: &FileStatus) -> (failed: bool)
        ensures
            failed == (status_of(*host) == RequestStatus::Error),
    {
        self.status(host) == RequestStatus::Error
    }

    /// The last error the host recorded for the file.
    pub fn last_error(&self, host: &FileStatus) -> (error: Option<IoError>)
        ensures
            error == error_of_code(host.last_error),
    {
        self.file.last_error(host)
    }

    /// Takes the outcome of the write, once it has completed. It can be
    /// taken once.
    pub fn take_outcome(&self, requests: &mut WriteRequests) -> (outcome: Option<WriteOutcome>)
        ensures
            final(requests)@ == writes_after_take(old(requests)@, self.token()),
            outcome == taken_outcome(old(requests)@, self.token()),
    {
        match requests.cells.borrow_mut(self.token) {
            Some(WriteCell::Done { outcome }) => {
                let taken = outcome.take();
                assert(requests@ =~= writes_after_take(old(requests)@, self.token));
                taken
            },
            _ => {
                assert(requests@ =~= writes_after_take(old(requests)@, self.token));
                None
            },
        }
    }
}

fn write_impl(requests: &mut WriteRequests, path: &str, data: &[u8], flags: OpenFlags, at: WriteAt) -> (prepared:
    IoResult<OpenRequest>)
    ensures
        match prepared {
            Ok(request) => {
                &&& !has_nul(path.spec_bytes())
                &&& request.path@ == path.spec_bytes()
                &&& request.flags == flags@
                &&& request.token != 0
                &&& !old(requests)@.contains_key(request.token)
                &&& final(requests)@ == old(requests)@.insert(
                    request.token,
                    WriteState::Opening { data: data@, at, held: true },
                )
            },
            Err(e) => {
                &&& e matches IoError::Nul(nul)
                &&& is_first_nul(path.spec_bytes(), nul.position())
                &&& final(requests)@ == old(requests)@
            },
        },
{
    let cell = WriteCell::Opening { data: slice_to_vec(data), at, held: true };
    let prepared = crate::io::open(&mut requests.cells, path, flags, cell);
    proof {
        if let Ok(request) = &prepared {
            assert(requests@ =~= old(requests)@.insert(request.token, cell@));
        }
    }
    prepared
}

/// Prepares a request that replaces the file at `path` by `data`: the file
/// is created if need be, emptied, and written from its start. A path with a
/// zero byte in it is refused before anything is stored.
pub fn write(requests: &mut WriteRequests, path: &str, data: &[u8]) -> (prepared: IoResult<
    OpenRequest,
>)
    ensures
        match prepared {
            Ok(request) => {
                &&& !has_nul(path.spec_bytes())
                &&& request.path@ == path.spec_bytes()
                &&& request.flags == (FS_IO_OPEN_FLAG_WRONLY | FS_IO_OPEN_FLAG_CREAT)
                    | FS_IO_OPEN_FLAG_TRUNC
                &&& request.token != 0
                &&& !old(requests)@.contains_key(request.token)
                &&& final(requests)@ == old(requests)@.insert(
                    request.token,
                    WriteState::Opening { data: data@, at: WriteAt::Offset(0), held: true },
                )
            },
            Err(e) => {
                &&& e matches IoError::Nul(nul)
                &&& is_first_nul(path.spec_bytes(), nul.position())
                &&& final(requests)@ == old(requests)@
            },
        },
{
    let flags = OpenFlags::wronly().union(OpenFlags::creat()).union(OpenFlags::trunc());
    write_impl(requests, path, data, flags, WriteAt::Offset(0))
}

/// Prepares a request that writes `data` at the end of the file at `path`,
/// which is created if need be. A path with a zero byte in it is refused
/// before anything is stored.
pub fn append(requests: &mut WriteRequests, path: &str, data: &[u8]) -> (prepared: IoResult<
    OpenRequest,
>)
    ensures
        match prepared {
            Ok(request) => {
                &&& !has_nul(path.spec_bytes())
                &&& request.path@ == path.spec_bytes()
                &&& request.flags == FS_IO_OPEN_FLAG_WRONLY | FS_IO_OPEN_FLAG_CREAT
                &&& request.token != 0
                &&& !old(requests)@.contains_key(request.token)
                &&& final(requests)@ == old(requests)@.insert(
                    request.token,
                    WriteState::Opening { data: data@, at: WriteAt::End, held: true },
                )
            },
            Err(e) => {
                &&& e matches IoError::Nul(nul)
                &&& is_first_nul(path.spec_bytes(), nul.position())
                &&& final(requests)@ == old(requests)@
            },
        },
{
    let flags = OpenFlags::wronly().union(OpenFlags::creat());
    write_impl(requests, path, data, flags, WriteAt::End)
}

/// Prepares a request that writes `data` from the start of the file at
/// `path`, which is created if need be and not emptied. A path with a zero
/// byte in it is refused before anything is stored.
pub fn create_new(requests: &mut WriteRequests, path: &str, data: &[u8]) -> (prepared: IoResult<
    OpenRequest,
>)
    ensures
        match prepared {
            Ok(request) => {
                &&& !has_nul(path.spec_bytes())
                &&& request.path@ == path.spec_bytes()
                &&& request.flags == FS_IO_OPEN_FLAG_WRONLY | FS_IO_OPEN_FLAG_CREAT
                &&& request.token != 0
                &&& !old(requests)@.contains_key(request.token)
                &&& final(requests)@ == old(requests)@.insert(
                    request.token,
                    WriteState::Opening { data: data@, at: WriteAt::Offset(0), held: true },
                )
            },
            Err(e) => {
                &&& e matches IoError::Nul(nul)
                &&& is_first_nul(path.spec_bytes(), nul.position())
                &&& final(requests)@ == old(requests)@
            },
        },
{
    let flags = OpenFlags::wronly().union(OpenFlags::creat());
    write_impl(requests, path, data, flags, WriteAt::Offset(0))
}

/// The state of a file that is being held open.
#[derive(Debug, Clone, Copy, PartialEq, Eq, Structural)]
pub struct HandleState {
    /// Whether the host has completed the open.
    pub ready: bool,
    /// Whether the caller still holds the handle.
    pub held: bool,
}

/// The files that are being held open.
pub struct FileHandles {
    cells: CallbackRegistry<HandleState>,
}

/// The handle of a file that is being held open.
pub struct FileHandle {
    file: File,
    token: usize,
}

/// The files after the host has completed the open behind `user`. A file
/// whose handle is held becomes ready; one whose handle is gone is dropped.
pub open spec fn handles_after_open(files: Map<usize, HandleState>, user: usize) -> Map<
    usize,
    HandleState,
> {
    if files.contains_key(user) && !files[user].ready {
        if files[user].held {
            files.insert(user, HandleState { ready: true, held: true })
        } else {
            files.remove(user)
        }
    } else {
        files
    }
}

/// The files after the handle of the file under `token` has been let go. A
/// file whose open the host still owes stays for it; a ready one is dropped.
pub open spec fn handles_after_release(files: Map<usize, HandleState>, token: usize) -> Map<
    usize,
    HandleState,
> {
    if files.contains_key(token) {
        if files[token].ready {
            files.remove(token)
        } else {
            files.insert(token, HandleState { ready: false, held: false })
        }
    } else {
        files
    }
}

impl FileHandles {
    /// The files by token.
    pub closed spec fn view(&self) -> Map<usize, HandleState> {
        self.cells@
    }

    /// No files.
    pub fn new() -> (files: Self)
        ensures
            files@ == Map::<usize, HandleState>::empty(),
    {
        FileHandles { cells: CallbackRegistry::new() }
    }

    /// Whether a file is stored under `token`.
    pub fn contains(&self, token: usize) -> (stored: bool)
        ensures
            stored == self@.contains_key(token),
    {
        self.cells.contains(token)
    }

    /// Takes the token the host returned for the open call of a file. The
    /// error token means that the host refused: the file is dropped at once
    /// and the call fails with `FileNotFound`.
    pub fn opened(&mut self, request: OpenRequest, raw: FsIOFile) -> (outcome: IoResult<FileHandle>)
        ensures
            final(self)@ == after_settle(old(self)@, request.token, is_valid_token(raw)),
            match outcome {
                Ok(handle) => is_valid_token(raw) && handle.file() == raw && handle.token()
                    == request.token,
                Err(e) => !is_valid_token(raw) && e == IoError::FileNotFound,
            },
    {
        let token = request.token;
        match request.complete(&mut self.cells, raw) {
            Ok(file) => Ok(FileHandle { file, token }),
            Err(e) => Err(e),
        }
    }

    /// Entry point for a completed open of a held file. Returns whether a
    /// file was waiting for this completion.
    pub fn file_opened(&mut self, user: usize) -> (taken: bool)
        ensures
            final(self)@ == handles_after_open(old(self)@, user),
            taken == (old(self)@.contains_key(user) && !old(self)@[user].ready),
    {
        let state = match self.cells.get(user) {
            Some(state) => Some(*state),
            None => None,
        };
        match state {
            Some(HandleState { ready: false, held: true }) => {
                let _ = self.cells.replace(user, HandleState { ready: true, held: true });
                true
            },
            Some(HandleState { ready: false, held: false }) => {
                let _ = self.cells.reclaim(user);
                true
            },
            _ => false,
        }
    }

    /// Lets go of the handle of a file and returns the file. A file whose
    /// open the host still owes stays for it; a ready one is dropped.
    pub fn release(&mut self, handle: FileHandle) -> (file: File)
        ensures
            file@ == handle.file(),
            final(self)@ == handles_after_release(old(self)@, handle.token()),
    {
        let token = handle.token;
        let state = match self.cells.get(token) {
            Some(state) => Some(*state),
            None => None,
        };
        match state {
            Some(HandleState { ready: true, .. }) => {
                let _ = self.cells.reclaim(token);
            },
            Some(HandleState { ready: false, .. }) => {
                let _ = self.cells.replace(token, HandleState { ready: false, held: false });
            },
            None => {},
        }
        handle.file
    }
}

impl FileHandle {
    /// The token of the file.
    pub closed spec fn file(&self) -> FsIOFile {
        self.file@
    }

    /// The token the file is stored under.
    pub closed spec fn token(&self) -> usize {
        self.token
    }

    /// The token the file is stored under, which is the one the host holds
    /// for the completion of the open.
    pub fn user_token(&self) -> (token: usize)
        ensures
            token == self.token(),
    {
        self.token
    }

    /// The file.
    pub fn file_ref(&self) -> (file: &File)
        ensures
            file@ == self.file(),
    {
        &self.file
    }

    /// Whether the host has completed the open.
    pub fn is_ready(&self, files: &FileHandles) -> (ready: bool)
        ensures
            ready == (files@.contains_key(self.token()) && files@[self.token()].ready),
    {
        match files.cells.get(self.token) {
            Some(state) => state.ready,
            None => false,
        }
    }

    /// How far the host has come with the file.
    pub fn status(&self, host: &FileStatus) -> (status: RequestStatus)
        ensures
            status == status_of(*host),
    {
        request_status(host)
    }

    /// The size of the file as the host reports it.
    pub fn file_size(&self, host: &FileStatus) -> (size: u64)
        ensures
            size == host.size,
    {
        self.file.file_size(host)
    }

    /// The last error the host recorded for the file.
    pub fn last_error(&self, host: &FileStatus) -> (error: Option<IoError>)
        ensures
            error == error_of_code(host.last_error),
    {
        self.file.last_error(host)
    }

    /// Prepares a read from the file: stores `on_done` in a fresh cell and
    /// describes the call.
    pub fn read<C>(
        &self,
        registry: &mut CallbackRegistry<C>,
        offset: i32,
        len: i32,
        on_done: C,
    ) -> (call: ReadCall)
        ensures
            call.file == self.file(),
            call.byte_offset == offset,
            call.bytes_to_read == len,
            call.token != 0,
            !old(registry)@.contains_key(call.token),
            final(registry)@ == old(registry)@.insert(call.token, on_done),
    {
        self.file.read(registry, offset, len, on_done)
    }

    /// Prepares a write to the file: stores `on_done` in a fresh cell and
    /// describes the call.
    pub fn write<C>(
        &self,
        registry: &mut CallbackRegistry<C>,
        data: &[u8],
        offset: i32,
        on_done: C,
    ) -> (call: WriteCall)
        ensures
            call.file == self.file(),
            call.byte_offset == offset,
            call.size == wrapped_i32(data@.len() as int),
            call.token != 0,
            !old(registry)@.contains_key(call.token),
            final(registry)@ == old(registry)@.insert(call.token, on_done),
    {
        self.file.write(registry, data, offset, on_done)
    }

    /// Decides whether the host has to be asked to close the file, given
    /// whether the host has it open, and spends the file token.
    pub fn close(&mut self, opened: bool) -> (to_close: Option<FsIOFile>)
        ensures
            to_close == close_request(old(self).file(), opened),
            final(self).file() == spent_token(),
            final(self).token() == old(self).token(),
    {
        self.file.close(opened)
    }
}

/// Prepares the open of a file that is to be held open. A path with a zero
/// byte in it is refused before anything is stored.
pub fn open(files: &mut FileHandles, path: &str, flags: OpenFlags) -> (prepared: IoResult<
    OpenRequest,
>)
    ensures
        match prepared {
            Ok(request) => {
                &&& !has_nul(path.spec_bytes())
                &&& request.path@ == path.spec_bytes()
                &&& request.flags == flags@
                &&& request.token != 0
                &&& !old(files)@.contains_key(request.token)
                &&& final(files)@ == old(files)@.insert(
                    request.token,
                    HandleState { ready: false, held: true },
                )
            },
            Err(e) => {
                &&& e matches IoError::Nul(nul)
                &&& is_first_nul(path.spec_bytes(), nul.position())
                &&& final(files)@ == old(files)@
            },
        },
{
    crate::io::open(&mut files.cells, path, flags, HandleState { ready: false, held: true })
}

/// The completion callback leaves a read request once. After a completion
/// the request is no longer pending, so a second completion under the same
/// token hands out nothing and changes nothing.
pub proof fn lemma_read_completes_once<F>(
    requests: Map<usize, ReadState<F>>,
    user: usize,
    first: Seq<u8>,
    second: Seq<u8>,
)
    ensures
        !(reads_after_completion(requests, user, first).contains_key(user)
            && reads_after_completion(requests, user, first)[user] is Pending),
        reads_after_completion(reads_after_completion(requests, user, first), user, second)
            == reads_after_completion(requests, user, first),
{
}

/// The bytes of a completed read are kept for the handle and can be taken
/// once: the handle gets exactly the bytes the completion brought, and a
/// second take gets nothing.
pub proof fn lemma_read_data_is_taken_once<F>(
    requests: Map<usize, ReadState<F>>,
    token: usize,
    bytes: Seq<u8>,
)
    requires
        requests.contains_key(token),
        requests[token] matches ReadState::Pending { held, .. } && held,
    ensures
        taken_data(requests, token) is None,
        taken_data(reads_after_completion(requests, token, bytes), token) == Some(bytes),
        taken_data(reads_after_take(reads_after_completion(requests, token, bytes), token), token)
            is None,
{
}

/// A read request is through when both its completion has come and its
/// handle has been let go, in either order, and then nothing of it is left.
pub proof fn lemma_read_request_ends<F>(requests: Map<usize, ReadState<F>>, token: usize, bytes: Seq<u8>)
    requires
        requests.contains_key(token),
        requests[token] matches ReadState::Pending { held, .. } && held,
    ensures
        reads_after_release(reads_after_completion(requests, token, bytes), token)
            == requests.remove(token),
        reads_after_completion(reads_after_release(requests, token), token, bytes)
            == requests.remove(token),
        reads_after_release(requests, token).contains_key(token),
        reads_after_completion(requests, token, bytes).contains_key(token),
{
    assert(reads_after_release(reads_after_completion(requests, token, bytes), token)
        =~= requests.remove(token));
    assert(reads_after_completion(reads_after_release(requests, token), token, bytes)
        =~= requests.remove(token));
}

/// A write request moves forward only: the open completes once, the write
/// ends once, and the outcome the write brought is the one the handle takes,
/// once.
pub proof fn lemma_write_runs_once(
    requests: Map<usize, WriteState>,
    token: usize,
    outcome: WriteOutcome,
    late: Option<WriteOutcome>,
)
    requires
        requests.contains_key(token),
        requests[token] matches WriteState::Opening { held, .. } && held,
    ensures
        ({
            let opened = writes_after_open(requests, token);
            let ended = writes_after_end(opened, token, Some(outcome));
            &&& requests[token] matches WriteState::Opening { data, .. }
            &&& opened[token] == WriteState::Writing { data, held: true }
            &&& write_buffer(opened, token) == Some(data)
            &&& write_buffer(requests, token) is None
            &&& write_buffer(ended, token) is None
            &&& writes_after_open(opened, token) == opened
            &&& writes_after_end(requests, token, late) == requests
            &&& ended[token] == WriteState::Done { outcome: Some(outcome) }
            &&& writes_after_end(ended, token, late) == ended
            &&& writes_after_open(ended, token) == ended
            &&& taken_outcome(ended, token) == Some(outcome)
            &&& taken_outcome(writes_after_take(ended, token), token) is None
            &&& writes_after_release(ended, token) == requests.remove(token)
        }),
{
    let opened = writes_after_open(requests, token);
    let ended = writes_after_end(opened, token, Some(outcome));
    assert(writes_after_release(ended, token) =~= requests.remove(token));
}

/// A write the host refuses ends the request without an outcome.
pub proof fn lemma_refused_write_has_no_outcome(requests: Map<usize, WriteState>, token: usize)
    requires
        requests.contains_key(token),
        requests[token] matches WriteState::Writing { held, .. } && held,
    ensures
        writes_after_end(requests, token, None)[token] == (WriteState::Done { outcome: None }),
        taken_outcome(writes_after_end(requests, token, None), token) is None,
{
}

/// A held file becomes ready when its open completes, once, and is dropped
/// when both the open has completed and the handle has been let go, in
/// either order.
pub proof fn lemma_handle_ends(files: Map<usize, HandleState>, token: usize)
    requires
        files.contains_key(token),
        files[token] == (HandleState { ready: false, held: true }),
    ensures
        handles_after_open(files, token)[token] == (HandleState { ready: true, held: true }),
        handles_after_open(handles_after_open(files, token), token) == handles_after_open(
            files,
            token,
        ),
        handles_after_release(handles_after_open(files, token), token) == files.remove(token),
        handles_after_open(handles_after_release(files, token), token) == files.remove(token),
{
    assert(handles_after_release(handles_after_open(files, token), token) =~= files.remove(token));
    assert(handles_after_open(handles_after_release(files, token), token) =~= files.remove(token));
}

} // verus!
