use msfs::io::fs::{
    append, create_new, open, read, read_to_string, request_status, FileHandles, ReadRequests,
    RequestStatus, WriteOutcome, WriteRequests,
};
use msfs::io::{FileStatus, IoError, OpenFlags};
use msfs::registry::CallbackRegistry;
use msfs::sys::{FS_IO_ERROR_FILE, FS_IO_ERR_OPERATION_IMPOSSIBLE, FS_IO_ERR_SUCCESS};

fn host(done: bool, has_error: bool) -> FileStatus {
    FileStatus { opened: true, in_progress: !done, done, has_error, last_error: 0, size: 42 }
}

#[test]
fn status_ranks_error_over_done() {
    assert_eq!(request_status(&host(false, false)), RequestStatus::InProgress);
    assert_eq!(request_status(&host(true, false)), RequestStatus::Done);
    assert_eq!(request_status(&host(false, true)), RequestStatus::Error);
    assert_eq!(request_status(&host(true, true)), RequestStatus::Error);
}

#[test]
fn read_request_caches_the_payload() {
    let mut reads: ReadRequests<&str> = ReadRequests::new();
    let request = read(&mut reads, "\\work/hello.txt", "on_done").unwrap();
    assert_eq!(request.flags, 1);
    assert_eq!(request.byte_offset, 0);
    assert_eq!(request.bytes_to_read, -1);
    let token = request.token;
    let handle = reads.opened(request, 31).unwrap();
    assert_eq!(handle.user_token(), token);
    assert_eq!(handle.file_ref().raw(), 31);
    assert_eq!(handle.take_data(&mut reads), None);

    assert_eq!(handle.status(&host(false, false)), RequestStatus::InProgress);
    assert!(!handle.is_done(&host(false, false)));
    assert!(handle.is_done(&host(true, false)));
    assert!(handle.has_error(&host(true, true)));
    assert!(!handle.has_error(&host(true, false)));
    assert_eq!(handle.file_size(&host(true, false)), 42);
    assert_eq!(handle.last_error(&host(true, false)), None);

    let mem = b"hello world";
    let (cb, bytes, text) = reads.completed(0x500, 5, token, mem).unwrap();
    assert_eq!(cb, "on_done");
    assert_eq!(bytes, b"hello");
    assert!(text.is_none());
    assert!(reads.completed(0x500, 5, token, mem).is_none());

    assert_eq!(handle.take_data(&mut reads), Some(b"hello".to_vec()));
    assert_eq!(handle.take_data(&mut reads), None);
    assert!(reads.contains(token));
    let file = reads.release(handle);
    assert_eq!(file.raw(), 31);
    assert!(!reads.contains(token));
}

#[test]
fn read_request_released_before_completion_still_completes() {
    let mut reads: ReadRequests<u8> = ReadRequests::new();
    let request = read(&mut reads, "a", 3).unwrap();
    let token = request.token;
    let handle = reads.opened(request, 8).unwrap();
    let _file = reads.release(handle);
    assert!(reads.contains(token));
    let (cb, bytes, _) = reads.completed(0x10, 2, token, b"xy").unwrap();
    assert_eq!(cb, 3);
    assert_eq!(bytes, b"xy");
    assert!(!reads.contains(token));
    assert!(reads.completed(0x10, 2, token, b"xy").is_none());
}

#[test]
fn read_of_a_missing_file_drops_the_request() {
    let mut reads: ReadRequests<u8> = ReadRequests::new();
    let request = read(&mut reads, "missing", 3).unwrap();
    let token = request.token;
    assert!(reads.contains(token));
    match reads.opened(request, FS_IO_ERROR_FILE as u64) {
        Err(e) => assert_eq!(e, IoError::FileNotFound),
        Ok(_) => panic!("the error token gave a request"),
    }
    assert!(!reads.contains(token));
    assert!(reads.completed(0x10, 2, token, b"xy").is_none());
    match read(&mut reads, "mis\0sing", 3) {
        Err(IoError::Nul(e)) => assert_eq!(e.nul_position(), 3),
        _ => panic!("a path with a zero byte was accepted"),
    }
}

#[test]
fn read_to_string_decodes_the_payload() {
    let mut reads: ReadRequests<u8> = ReadRequests::new();
    let request = read_to_string(&mut reads, "a", 1).unwrap();
    let token = request.token;
    let handle = reads.opened(request, 8).unwrap();
    let mem = "héllo".as_bytes();
    let (_, bytes, text) = reads.completed(0x10, mem.len() as i32, token, mem).unwrap();
    assert_eq!(bytes, mem);
    assert_eq!(text.unwrap().unwrap(), "héllo");
    assert_eq!(handle.take_string(&mut reads).unwrap().unwrap(), "héllo".to_string());
    assert!(handle.take_string(&mut reads).is_none());

    let request = read_to_string(&mut reads, "b", 2).unwrap();
    let token = request.token;
    let handle = reads.opened(request, 9).unwrap();
    let bad = [0x66u8, 0xff, 0x6f];
    let (_, _, text) = reads.completed(0x10, 3, token, &bad).unwrap();
    assert!(text.unwrap().is_err());
    assert!(handle.take_string(&mut reads).unwrap().is_err());

    let request = read_to_string(&mut reads, "c", 3).unwrap();
    let token = request.token;
    let _handle = reads.opened(request, 10).unwrap();
    let (_, bytes, text) = reads.completed(0, 3, token, &bad).unwrap();
    assert!(bytes.is_empty());
    assert_eq!(text.unwrap().unwrap(), "");
}

#[test]
fn text_decoding_accepts_exactly_utf8() {
    let cases: [(&[u8], Option<&str>); 7] = [
        (b"abc", Some("abc")),
        (&[0xe2, 0x82, 0xac], Some("\u{20ac}")),
        (&[0xe2, 0x82], None),
        (&[0xc0, 0x80], None),
        (&[0xc3, 0xa9], Some("\u{e9}")),
        (&[0x80], None),
        (&[0xed, 0xa0, 0x80], None),
    ];
    for (bytes, expected) in cases {
        let mut reads: ReadRequests<u8> = ReadRequests::new();
        let request = read_to_string(&mut reads, "t", 0).unwrap();
        let token = request.token;
        let handle = reads.opened(request, 4).unwrap();
        let (_, _, text) = reads.completed(0x10, bytes.len() as i32, token, bytes).unwrap();
        assert_eq!(text.unwrap().ok(), expected);
        let owned = handle.take_string(&mut reads).unwrap().ok();
        assert_eq!(owned.as_deref(), expected);
    }
}

#[test]
fn write_request_runs_open_then_write() {
    let mut writes = WriteRequests::new();
    let request = msfs::io::fs::write(&mut writes, "\\work/out.txt", b"hello world").unwrap();
    assert_eq!(request.flags, 2 | 8 | 16);
    assert_eq!(request.path.as_bytes(), b"\\work/out.txt");
    let token = request.token;
    let handle = writes.opened(request, 55).unwrap();
    assert_eq!(handle.take_outcome(&mut writes), None);
    assert!(!writes.completed(0, 11, token));

    assert_eq!(writes.buffer(token), None);
    let call = writes.file_opened(55, token, 1000).unwrap();
    assert_eq!((call.file, call.byte_offset, call.size, call.token), (55, 0, 11, token));
    assert_eq!(writes.buffer(token), Some(&b"hello world"[..]));
    assert!(writes.file_opened(55, token, 1000).is_none());
    assert_eq!(writes.issued(call, FS_IO_ERR_SUCCESS), Ok(()));
    assert_eq!(writes.buffer(token), Some(&b"hello world"[..]));
    assert_eq!(handle.take_outcome(&mut writes), None);

    assert!(writes.completed(0, 11, token));
    assert_eq!(writes.buffer(token), None);
    assert!(!writes.completed(0, 11, token));
    let outcome = handle.take_outcome(&mut writes).unwrap();
    assert_eq!(outcome, WriteOutcome { byte_offset: 0, bytes_written: 11 });
    assert_eq!(handle.take_outcome(&mut writes), None);

    assert_eq!(handle.status(&host(true, false)), RequestStatus::Done);
    assert!(handle.is_done(&host(true, false)));
    assert!(handle.has_error(&host(false, true)));
    assert_eq!(handle.last_error(&host(true, false)), None);
    let file = writes.release(handle);
    assert_eq!(file.raw(), 55);
    assert!(!writes.contains(token));
}

#[test]
fn append_writes_at_the_end_of_the_file() {
    let mut writes = WriteRequests::new();
    let request = append(&mut writes, "log.txt", b"line").unwrap();
    assert_eq!(request.flags, 2 | 8);
    let token = request.token;
    let _handle = writes.opened(request, 6).unwrap();
    let call = writes.file_opened(6, token, 1234).unwrap();
    assert_eq!(call.byte_offset, 1234);
    assert_eq!(call.size, 4);
    assert_eq!(writes.buffer(token), Some(&b"line"[..]));

    let request = append(&mut writes, "big.bin", b"").unwrap();
    let token = request.token;
    let _handle = writes.opened(request, 7).unwrap();
    let call = writes.file_opened(7, token, 0x1_8000_0001).unwrap();
    assert_eq!(call.byte_offset, i32::MIN + 1);
    assert_eq!(call.size, 0);
}

#[test]
fn create_new_does_not_truncate() {
    let mut writes = WriteRequests::new();
    let request = create_new(&mut writes, "new.txt", b"abc").unwrap();
    assert_eq!(request.flags, 2 | 8);
    let token = request.token;
    let _handle = writes.opened(request, 6).unwrap();
    let call = writes.file_opened(6, token, 99).unwrap();
    assert_eq!(call.byte_offset, 0);
}

#[test]
fn refused_write_ends_without_outcome() {
    let mut writes = WriteRequests::new();
    let request = msfs::io::fs::write(&mut writes, "out", b"x").unwrap();
    let token = request.token;
    let handle = writes.opened(request, 5).unwrap();
    let call = writes.file_opened(5, token, 0).unwrap();
    assert_eq!(writes.issued(call, FS_IO_ERR_OPERATION_IMPOSSIBLE), Err(IoError::OperationImpossible));
    assert_eq!(writes.buffer(token), None);
    assert!(!writes.completed(0, 1, token));
    assert_eq!(handle.take_outcome(&mut writes), None);
    let _ = writes.release(handle);
    assert!(!writes.contains(token));
}

#[test]
fn write_to_a_missing_file_drops_the_request() {
    let mut writes = WriteRequests::new();
    let request = msfs::io::fs::write(&mut writes, "out", b"x").unwrap();
    let token = request.token;
    match writes.opened(request, FS_IO_ERROR_FILE as u64) {
        Err(e) => assert_eq!(e, IoError::FileNotFound),
        Ok(_) => panic!("the error token gave a request"),
    }
    assert!(!writes.contains(token));
    assert!(writes.file_opened(5, token, 0).is_none());
    match msfs::io::fs::write(&mut writes, "\0", b"x") {
        Err(IoError::Nul(e)) => assert_eq!(e.nul_position(), 0),
        _ => panic!("a path with a zero byte was accepted"),
    }
}

#[test]
fn write_request_released_early_ends_with_the_write() {
    let mut writes = WriteRequests::new();
    let request = msfs::io::fs::write(&mut writes, "out", b"x").unwrap();
    let token = request.token;
    let handle = writes.opened(request, 5).unwrap();
    let _ = writes.release(handle);
    assert!(writes.contains(token));
    let call = writes.file_opened(5, token, 0).unwrap();
    assert_eq!(writes.issued(call, FS_IO_ERR_SUCCESS), Ok(()));
    assert!(writes.contains(token));
    assert!(writes.completed(0, 1, token));
    assert!(!writes.contains(token));
}

#[test]
fn file_handle_becomes_ready_once_opened() {
    let mut files = FileHandles::new();
    let request = open(&mut files, "data.bin", OpenFlags::rdwr()).unwrap();
    assert_eq!(request.flags, 4);
    let token = request.token;
    let mut handle = files.opened(request, 70).unwrap();
    assert!(!handle.is_ready(&files));
    assert!(files.file_opened(token));
    assert!(handle.is_ready(&files));
    assert!(!files.file_opened(token));
    assert_eq!(handle.status(&host(true, false)), RequestStatus::Done);
    assert_eq!(handle.file_size(&host(true, false)), 42);
    assert_eq!(handle.last_error(&host(true, false)), None);

    let mut readers: CallbackRegistry<u8> = CallbackRegistry::new();
    let call = handle.read(&mut readers, 4, 8, 1);
    assert_eq!((call.file, call.byte_offset, call.bytes_to_read), (70, 4, 8));
    let call = handle.write(&mut readers, b"abc", 2, 2);
    assert_eq!((call.file, call.byte_offset, call.size), (70, 2, 3));

    assert_eq!(handle.close(true), Some(70));
    assert_eq!(handle.close(true), None);
    let file = files.release(handle);
    assert!(!file.is_valid());
    assert!(!files.contains(token));
}

#[test]
fn file_handle_open_failure_and_early_release() {
    let mut files = FileHandles::new();
    let request = open(&mut files, "data.bin", OpenFlags::rdonly()).unwrap();
    let token = request.token;
    match files.opened(request, FS_IO_ERROR_FILE as u64) {
        Err(e) => assert_eq!(e, IoError::FileNotFound),
        Ok(_) => panic!("the error token gave a handle"),
    }
    assert!(!files.contains(token));
    assert!(!files.file_opened(token));

    let request = open(&mut files, "data.bin", OpenFlags::rdonly()).unwrap();
    let token = request.token;
    let handle = files.opened(request, 3).unwrap();
    let _ = files.release(handle);
    assert!(files.contains(token));
    assert!(files.file_opened(token));
    assert!(!files.contains(token));
}
