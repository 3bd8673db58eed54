use msfs::io::{
    open, open_read, open_trampoline, read_trampoline, wrap_i32, write_trampoline, File,
    FileStatus, IoError, OpenFlags,
};
use msfs::registry::CallbackRegistry;
use msfs::sys::{
    FS_IO_ERROR_FILE, FS_IO_ERR_ACCESS_NOT_ALLOWED, FS_IO_ERR_BAD_PARAMS,
    FS_IO_ERR_FILE_NOT_FOUND, FS_IO_ERR_FILE_NOT_OPENED, FS_IO_ERR_OPERATION_IMPOSSIBLE,
    FS_IO_ERR_PARTIAL_READ_IMPOSSIBLE, FS_IO_ERR_READ_NOT_ALLOWED, FS_IO_ERR_SUCCESS,
};

fn status(opened: bool) -> FileStatus {
    FileStatus { opened, in_progress: false, done: false, has_error: false, last_error: 0, size: 0 }
}

#[test]
fn open_read_of_a_missing_file_reclaims_the_cell() {
    let mut registry: CallbackRegistry<&str> = CallbackRegistry::new();
    let request = open_read(&mut registry, "\\work/missing.txt", OpenFlags::rdonly(), 0, -1, "cb").unwrap();
    let token = request.token;
    assert_eq!(request.path.as_bytes(), b"\\work/missing.txt");
    assert_eq!(request.flags, 1);
    assert_eq!(request.byte_offset, 0);
    assert_eq!(request.bytes_to_read, -1);
    assert!(registry.contains(token));
    assert_eq!(registry.live_count(), 1);
    match request.complete(&mut registry, FS_IO_ERROR_FILE as u64) {
        Err(e) => assert_eq!(e, IoError::FileNotFound),
        Ok(_) => panic!("the error token gave a file"),
    }
    assert!(!registry.contains(token));
    assert_eq!(registry.live_count(), 0);
    assert!(registry.is_empty());
    let mem = [1u8, 2];
    assert!(read_trampoline(&mut registry, 0x10, 0, 2, token, &mem).is_none());
}

#[test]
fn open_succeeds_and_fires_once() {
    let mut registry: CallbackRegistry<&str> = CallbackRegistry::new();
    let request = open(&mut registry, "a.txt", OpenFlags::wronly() | OpenFlags::creat(), "cb").unwrap();
    let token = request.token;
    assert_eq!(request.flags, 0x0a);
    let file = request.complete(&mut registry, 77).unwrap();
    assert_eq!(file.raw(), 77);
    assert!(file.is_valid());
    assert!(registry.contains(token));
    let (cb, opened) = open_trampoline(&mut registry, 77, token).unwrap();
    assert_eq!(cb, "cb");
    assert_eq!(opened.raw(), 77);
    assert!(!registry.contains(token));
    assert!(open_trampoline(&mut registry, 77, token).is_none());
    assert!(open_trampoline(&mut registry, 77, 0).is_none());
}

#[test]
fn an_open_that_never_completes_keeps_its_cell() {
    let mut registry: CallbackRegistry<u8> = CallbackRegistry::new();
    let request = open(&mut registry, "a.txt", OpenFlags::rdonly(), 5).unwrap();
    let token = request.token;
    let _file = request.complete(&mut registry, 3).unwrap();
    assert_eq!(registry.get(token), Some(&5));
    assert_eq!(registry.live_count(), 1);
    assert!(!registry.is_empty());
}

#[test]
fn open_rejects_nul_in_path() {
    let mut registry: CallbackRegistry<u8> = CallbackRegistry::new();
    match open(&mut registry, "a\0.txt", OpenFlags::rdonly(), 5) {
        Err(IoError::Nul(e)) => assert_eq!(e.nul_position(), 1),
        _ => panic!("a path with a zero byte was accepted"),
    }
    match open_read(&mut registry, "\0", OpenFlags::rdonly(), 0, 1, 5) {
        Err(IoError::Nul(e)) => assert_eq!(e.nul_position(), 0),
        _ => panic!("a path with a zero byte was accepted"),
    }
    assert!(registry.is_empty());
}

#[test]
fn read_call_refused_by_the_host_reclaims_the_cell() {
    let mut registry: CallbackRegistry<u8> = CallbackRegistry::new();
    let file = File::from_raw(9);
    let call = file.read(&mut registry, 16, 32, 1);
    assert_eq!((call.file, call.byte_offset, call.bytes_to_read), (9, 16, 32));
    let token = call.token;
    assert!(registry.contains(token));
    assert_eq!(call.complete(&mut registry, FS_IO_ERR_READ_NOT_ALLOWED), Err(IoError::ReadNotAllowed));
    assert!(!registry.contains(token));

    let call = file.read(&mut registry, 0, 4, 2);
    let token = call.token;
    assert_eq!(call.complete(&mut registry, FS_IO_ERR_SUCCESS), Ok(()));
    let mem = [9u8, 8, 7, 6, 5];
    let (cb, bytes, offset) = read_trampoline(&mut registry, 0x100, 0, 4, token, &mem).unwrap();
    assert_eq!(cb, 2);
    assert_eq!(bytes, &[9, 8, 7, 6]);
    assert_eq!(offset, 0);
    assert!(read_trampoline(&mut registry, 0x100, 0, 4, token, &mem).is_none());
}

#[test]
fn read_trampoline_gives_empty_bytes_for_null_or_non_positive_count() {
    let mem = [1u8, 2, 3];
    for (addr, count) in [(0usize, 3i32), (0x10, 0), (0x10, -1), (0x10, i32::MIN), (0, 0)] {
        let mut registry: CallbackRegistry<u8> = CallbackRegistry::new();
        let token = registry.register(1);
        let (_, bytes, offset) = read_trampoline(&mut registry, addr, 12, count, token, &mem).unwrap();
        assert!(bytes.is_empty());
        assert_eq!(offset, 12);
    }
    let mut registry: CallbackRegistry<u8> = CallbackRegistry::new();
    let token = registry.register(1);
    let (_, bytes, _) = read_trampoline(&mut registry, 0x10, 0, 2, token, &mem).unwrap();
    assert_eq!(bytes, &[1, 2]);
}

#[test]
fn write_call_and_trampoline() {
    let mut registry: CallbackRegistry<u8> = CallbackRegistry::new();
    let file = File::from_raw(4);
    let call = file.write(&mut registry, b"hello", 10, 3);
    assert_eq!((call.file, call.byte_offset, call.size), (4, 10, 5));
    let token = call.token;
    assert_eq!(call.complete(&mut registry, FS_IO_ERR_SUCCESS), Ok(()));
    assert_eq!(write_trampoline(&mut registry, 10, 5, token), Some((3, 10, 5)));
    assert_eq!(write_trampoline(&mut registry, 10, 5, token), None);

    let call = file.write(&mut registry, b"", 0, 4);
    assert_eq!(call.size, 0);
    let token = call.token;
    assert_eq!(call.complete(&mut registry, FS_IO_ERR_ACCESS_NOT_ALLOWED), Err(IoError::AccessNotAllowed));
    assert_eq!(write_trampoline(&mut registry, 0, 0, token), None);
    assert!(registry.is_empty());
}

#[test]
fn closing_twice_asks_the_host_once() {
    let mut file = File::from_raw(12);
    assert_eq!(file.close(true), Some(12));
    assert!(!file.is_valid());
    assert_eq!(file.close(true), None);
    assert_eq!(file.close(false), None);

    let mut never_opened = File::from_raw(13);
    assert_eq!(never_opened.close(false), None);
    assert_eq!(never_opened.close(true), None);

    let mut invalid = File::from_raw(FS_IO_ERROR_FILE as u64);
    assert!(!invalid.is_valid());
    assert_eq!(invalid.close(true), None);
}

#[test]
fn validity_is_judged_in_32_bits() {
    assert!(!File::from_raw(FS_IO_ERROR_FILE as u64).is_valid());
    assert!(!File::from_raw(0x1_0000_0000 + FS_IO_ERROR_FILE as u64).is_valid());
    assert!(File::from_raw(1).is_valid());
    assert!(File::from_raw(0xffff_ffff).is_valid());
}

#[test]
fn error_codes_translate() {
    assert_eq!(IoError::from_raw(FS_IO_ERR_SUCCESS), None);
    assert_eq!(IoError::from_raw(FS_IO_ERR_BAD_PARAMS), Some(IoError::BadParams));
    assert_eq!(IoError::from_raw(FS_IO_ERR_FILE_NOT_FOUND), Some(IoError::FileNotFound));
    assert_eq!(IoError::from_raw(FS_IO_ERR_ACCESS_NOT_ALLOWED), Some(IoError::AccessNotAllowed));
    assert_eq!(IoError::from_raw(FS_IO_ERR_FILE_NOT_OPENED), Some(IoError::FileNotOpened));
    assert_eq!(IoError::from_raw(FS_IO_ERR_READ_NOT_ALLOWED), Some(IoError::ReadNotAllowed));
    assert_eq!(IoError::from_raw(FS_IO_ERR_PARTIAL_READ_IMPOSSIBLE), Some(IoError::PartialReadImpossible));
    assert_eq!(IoError::from_raw(FS_IO_ERR_OPERATION_IMPOSSIBLE), Some(IoError::OperationImpossible));
    assert_eq!(IoError::from_raw(0xdead), Some(IoError::Unknown(0xdead)));
    assert_eq!(IoError::check(FS_IO_ERR_SUCCESS), Ok(()));
    assert_eq!(IoError::check(FS_IO_ERR_FILE_NOT_OPENED), Err(IoError::FileNotOpened));
    assert_eq!(IoError::check(99), Err(IoError::Unknown(99)));
}

#[test]
fn file_queries_pass_the_host_truth_through() {
    let file = File::from_raw(5);
    let host = FileStatus {
        opened: true,
        in_progress: true,
        done: false,
        has_error: true,
        last_error: FS_IO_ERR_BAD_PARAMS,
        size: 1234,
    };
    assert!(file.is_opened(&host));
    assert!(file.in_progress(&host));
    assert!(!file.is_done(&host));
    assert!(file.has_error(&host));
    assert_eq!(file.last_error(&host), Some(IoError::BadParams));
    assert_eq!(file.file_size(&host), 1234);
    assert_eq!(file.last_error(&status(true)), None);
}

#[test]
fn open_flags_are_a_bit_set() {
    assert_eq!(OpenFlags::none().bits(), 0);
    assert_eq!(OpenFlags::rdonly().bits(), 1);
    assert_eq!(OpenFlags::wronly().bits(), 2);
    assert_eq!(OpenFlags::rdwr().bits(), 4);
    assert_eq!(OpenFlags::creat().bits(), 8);
    assert_eq!(OpenFlags::trunc().bits(), 16);
    assert_eq!(OpenFlags::hidden().bits(), 32);
    let f = OpenFlags::wronly() | OpenFlags::creat() | OpenFlags::trunc();
    assert_eq!(f.bits(), 26);
    assert!(f.contains(OpenFlags::creat()));
    assert!(!f.contains(OpenFlags::rdonly()));
    assert!(OpenFlags::none().is_empty());
    assert_eq!(f.intersection(OpenFlags::trunc().union(OpenFlags::hidden())), OpenFlags::trunc());
    assert_eq!(OpenFlags::from_bits(0x3f).unwrap().bits(), 0x3f);
    assert!(OpenFlags::from_bits(0x40).is_none());
    assert_eq!(OpenFlags::from_bits_truncate(0xffff_ffff).bits(), 0x3f);
}

#[test]
fn lengths_wrap_to_32_bits() {
    assert_eq!(wrap_i32(0), 0);
    assert_eq!(wrap_i32(5), 5);
    assert_eq!(wrap_i32(0x7fff_ffff), i32::MAX);
    assert_eq!(wrap_i32(0x8000_0000), i32::MIN);
    assert_eq!(wrap_i32(0xffff_ffff), -1);
    assert_eq!(wrap_i32(0x1_0000_0000), 0);
    assert_eq!(wrap_i32(0x1_0000_0007), 7);
    assert_eq!(wrap_i32(u64::MAX), -1);
}
