use utils::cbytes::{cstr, CBytes};
use utils::error::FsError;
use utils::file_type::{FileAttr, FileType, DT_DIR, DT_LNK, DT_REG, DT_UNKNOWN};
use utils::read_dir::{
    dot_name, readdir, DirEntry, Opened, RawEntry, RawRead, ReadDir, Step, AT_SYMLINK_NOFOLLOW,
};

const ENOENT: i32 = 2;
const EIO: i32 = 5;
const EBADF: i32 = 9;
const EACCES: i32 = 13;
const ENOTDIR: i32 = 20;

fn record(ino: u64, tag: u8, field: &[u8]) -> RawRead {
    RawRead::Record(RawEntry { d_ino: ino, d_type: tag, d_name: field.to_vec() })
}

fn open(path: &[u8], handle: u32) -> ReadDir<u32> {
    let native = cstr(path).unwrap();
    match readdir(&native, Opened::Handle(handle)) {
        Ok(dir) => dir,
        Err(e) => panic!("no stream: {:?}", e),
    }
}

fn attr(mode: u32, size: i64) -> FileAttr {
    FileAttr {
        st_atime: 1,
        st_atime_nsec: 2,
        st_blksize: 4096,
        st_blocks: 8,
        st_ctime: 3,
        st_ctime_nsec: 4,
        st_dev: 5,
        st_gid: 6,
        st_ino: 7,
        st_mode: mode,
        st_mtime: 8,
        st_mtime_nsec: 9,
        st_nlink: 1,
        st_rdev: 0,
        st_size: size,
        st_uid: 10,
    }
}

/// Runs a stream over the reads as a caller's loop would: it stops reading
/// once the stream has ended, and reads again after `.` and `..`.
fn drain(dir: &mut ReadDir<u32>, reads: Vec<RawRead>) -> (Vec<DirEntry<u32>>, Vec<FsError>, usize) {
    let mut entries: Vec<DirEntry<u32>> = Vec::new();
    let mut errors: Vec<FsError> = Vec::new();
    let mut used: usize = 0;
    for read in reads {
        if dir.end_of_stream() {
            break;
        }
        used += 1;
        match dir.next(read) {
            Step::Again => {}
            Step::Entry(e) => entries.push(e),
            Step::Error(e) => errors.push(e),
            Step::End => {}
        }
    }
    (entries, errors, used)
}

fn one_entry(tag: u8, field: &[u8]) -> DirEntry<u32> {
    let mut dir = open(b"/tmp/t", 3);
    match dir.next(record(99, tag, field)) {
        Step::Entry(e) => e,
        _ => panic!("no entry"),
    }
}

#[test]
fn a_path_without_nul_has_a_native_form() {
    let native = cstr(b"/tmp/t").unwrap();
    assert_eq!(native.to_bytes(), b"/tmp/t");
    assert_eq!(native.to_bytes_with_nul(), b"/tmp/t\0");
}

#[test]
fn the_empty_path_has_a_native_form() {
    let native = cstr(b"").unwrap();
    assert_eq!(native.to_bytes(), b"");
    assert_eq!(native.to_bytes_with_nul(), b"\0");
}

#[test]
fn a_path_with_a_nul_byte_is_invalid() {
    assert!(matches!(cstr(b"/tmp/\0t"), Err(FsError::InvalidPath)));
    assert!(matches!(cstr(b"\0"), Err(FsError::InvalidPath)));
    assert!(matches!(cstr(b"/tmp/t\0"), Err(FsError::InvalidPath)));
}

#[test]
fn a_path_need_not_be_text() {
    let native = cstr(&[0xff, 0xfe, b'/', 0x80]).unwrap();
    assert_eq!(native.to_bytes(), &[0xff, 0xfe, b'/', 0x80]);
}

#[test]
fn a_name_ends_at_the_first_nul_of_its_field() {
    assert_eq!(CBytes::from_field(b"abc\0garbage\0\0").to_bytes(), b"abc");
    assert_eq!(CBytes::from_field(b"abc\0garbage\0\0").to_bytes_with_nul(), b"abc\0");
    assert_eq!(CBytes::from_field(b"\0abc").to_bytes(), b"");
    assert_eq!(CBytes::from_field(b"abc").to_bytes(), b"abc");
    assert_eq!(CBytes::from_field(b"").to_bytes(), b"");
}

#[test]
fn only_dot_and_dot_dot_are_dot_names() {
    assert!(dot_name(b"."));
    assert!(dot_name(b".."));
    assert!(!dot_name(b""));
    assert!(!dot_name(b"..."));
    assert!(!dot_name(b".a"));
    assert!(!dot_name(b"a."));
    assert!(!dot_name(b"a"));
    assert!(!dot_name(b".git"));
}

#[test]
fn opening_a_missing_path_fails_with_not_found() {
    let native = cstr(b"/no/such/dir").unwrap();
    let opened: Opened<u32> = Opened::Failed { errno: ENOENT };
    match readdir(&native, opened) {
        Err(e) => {
            assert_eq!(e, FsError::OsError(ENOENT));
            assert_eq!(e.raw_os_error(), Some(2));
        }
        Ok(_) => panic!("a stream without a handle"),
    }
}

#[test]
fn opening_a_file_fails_with_the_platform_s_error() {
    let native = cstr(b"/etc/passwd").unwrap();
    let opened: Opened<u32> = Opened::Failed { errno: ENOTDIR };
    assert!(matches!(readdir(&native, opened), Err(FsError::OsError(20))));
    let opened: Opened<u32> = Opened::Failed { errno: EACCES };
    assert!(matches!(readdir(&native, opened), Err(FsError::OsError(13))));
}

#[test]
fn a_new_stream_holds_its_handle_and_path_and_has_not_ended() {
    let dir = open(b"/tmp/t", 17);
    assert_eq!(*dir.handle(), 17);
    assert_eq!(dir.root(), b"/tmp/t");
    assert!(!dir.end_of_stream());
}

#[test]
fn a_directory_with_two_files_and_a_subdirectory() {
    let mut dir = open(b"/tmp/t", 3);
    let reads = vec![
        record(1, DT_DIR, b".\0"),
        record(2, DT_DIR, b"..\0"),
        record(10, DT_REG, b"a\0"),
        record(12, DT_DIR, b"c\0"),
        record(11, DT_REG, b"b\0"),
        RawRead::Null { errno: 0 },
    ];
    let (entries, errors, used) = drain(&mut dir, reads);
    assert!(errors.is_empty());
    assert_eq!(used, 6);
    assert!(dir.end_of_stream());
    let mut names: Vec<Vec<u8>> = entries.iter().map(|e| e.file_name()).collect();
    assert_eq!(names, vec![b"a".to_vec(), b"c".to_vec(), b"b".to_vec()]);
    names.sort();
    assert_eq!(names, vec![b"a".to_vec(), b"b".to_vec(), b"c".to_vec()]);
    for e in &entries {
        let t = e.file_type().unwrap();
        if e.file_name_os_str() == b"c" {
            assert!(t.is_dir());
            assert!(!t.is_file());
        } else {
            assert!(t.is_file());
            assert!(!t.is_dir());
        }
        assert!(!t.is_symlink());
    }
    assert_eq!(entries[0].ino(), 10);
    assert_eq!(entries[1].ino(), 12);
    assert_eq!(entries[2].ino(), 11);
}

#[test]
fn an_empty_directory_yields_nothing_and_no_error() {
    let mut dir = open(b"/tmp/empty", 3);
    let reads = vec![record(1, DT_DIR, b".\0"), record(2, DT_DIR, b"..\0"), RawRead::Null { errno: 0 }];
    let (entries, errors, used) = drain(&mut dir, reads);
    assert!(entries.is_empty());
    assert!(errors.is_empty());
    assert_eq!(used, 3);
    assert!(dir.end_of_stream());
}

#[test]
fn a_directory_without_any_record_ends_at_once() {
    let mut dir = open(b"/tmp/empty", 3);
    assert!(matches!(dir.next(RawRead::Null { errno: 0 }), Step::End));
    assert!(dir.end_of_stream());
}

#[test]
fn dot_records_ask_for_another_read_and_do_not_end_the_stream() {
    let mut dir = open(b"/tmp/t", 3);
    assert!(matches!(dir.next(record(1, DT_DIR, b".\0")), Step::Again));
    assert!(!dir.end_of_stream());
    assert!(matches!(dir.next(record(1, DT_UNKNOWN, b"..\0xyz")), Step::Again));
    assert!(!dir.end_of_stream());
    assert!(matches!(dir.next(record(1, DT_DIR, b"...\0")), Step::Entry(_)));
    assert!(!dir.end_of_stream());
}

#[test]
fn every_entry_is_listed_once_and_in_the_order_read() {
    let mut dir = open(b"/", 3);
    let mut reads: Vec<RawRead> = Vec::new();
    let mut expected: Vec<Vec<u8>> = Vec::new();
    for i in 0..50u64 {
        if i == 7 {
            reads.push(record(1, DT_DIR, b"..\0"));
        }
        if i == 30 {
            reads.push(record(1, DT_DIR, b".\0"));
        }
        let name = format!("file{}", 49 - i).into_bytes();
        let mut field = name.clone();
        field.extend_from_slice(b"\0pad");
        reads.push(record(100 + i, DT_REG, &field));
        expected.push(name);
    }
    reads.push(RawRead::Null { errno: 0 });
    let (entries, errors, used) = drain(&mut dir, reads);
    assert!(errors.is_empty());
    assert_eq!(used, 53);
    let names: Vec<Vec<u8>> = entries.iter().map(|e| e.file_name()).collect();
    assert_eq!(names, expected);
}

#[test]
fn a_failed_read_is_reported_once_and_ends_the_stream() {
    let mut dir = open(b"/tmp/t", 3);
    let reads = vec![
        record(10, DT_REG, b"a\0"),
        RawRead::Null { errno: EIO },
        record(11, DT_REG, b"b\0"),
        RawRead::Null { errno: 0 },
    ];
    let (entries, errors, used) = drain(&mut dir, reads);
    assert_eq!(entries.len(), 1);
    assert_eq!(errors, vec![FsError::OsError(EIO)]);
    assert_eq!(used, 2);
    assert!(dir.end_of_stream());
}

#[test]
fn an_ended_stream_says_so_whatever_it_is_handed() {
    let mut dir = open(b"/tmp/t", 3);
    assert!(matches!(dir.next(RawRead::Null { errno: 0 }), Step::End));
    assert!(matches!(dir.next(record(10, DT_REG, b"a\0")), Step::End));
    assert!(matches!(dir.next(RawRead::Null { errno: EIO }), Step::End));
    assert!(matches!(dir.next(RawRead::Null { errno: 0 }), Step::End));
    assert!(dir.end_of_stream());
    assert_eq!(*dir.handle(), 3);
    assert_eq!(dir.root(), b"/tmp/t");
}

#[test]
fn the_end_of_a_directory_is_no_error() {
    let mut dir = open(b"/tmp/t", 3);
    assert!(matches!(dir.next(RawRead::Null { errno: 0 }), Step::End));
    let mut dir = open(b"/tmp/t", 3);
    assert!(matches!(dir.next(RawRead::Null { errno: EBADF }), Step::Error(FsError::OsError(9))));
    let mut dir = open(b"/tmp/t", 3);
    assert!(matches!(dir.next(RawRead::Null { errno: -1 }), Step::Error(FsError::OsError(-1))));
}

#[test]
fn an_entry_owns_its_name_and_shares_the_handle() {
    let mut dir = open(b"/tmp/t", 21);
    let mut field: Vec<u8> = b"name\0junk".to_vec();
    let first = match dir.next(RawRead::Record(RawEntry { d_ino: 5, d_type: DT_REG, d_name: field.clone() })) {
        Step::Entry(e) => e,
        _ => panic!("no entry"),
    };
    field[0] = b'X';
    let second = match dir.next(record(6, DT_REG, b"other\0")) {
        Step::Entry(e) => e,
        _ => panic!("no entry"),
    };
    assert!(matches!(dir.next(RawRead::Null { errno: 0 }), Step::End));
    drop(dir);
    assert_eq!(first.file_name_os_str(), b"name");
    assert_eq!(first.file_name(), b"name".to_vec());
    assert_eq!(first.name_cstr().to_bytes_with_nul(), b"name\0");
    assert_eq!(second.file_name_os_str(), b"other");
    assert_eq!(*first.handle(), 21);
    assert_eq!(*second.handle(), 21);
    assert_eq!(first.ino(), 5);
    assert_eq!(second.ino(), 6);
}

#[test]
fn a_name_may_hold_any_bytes_but_nul() {
    let e = one_entry(DT_REG, &[0xff, b'.', 0x80, b'/', 0, 1, 2]);
    assert_eq!(e.file_name_os_str(), &[0xff, b'.', 0x80, b'/']);
}

#[test]
fn a_record_with_an_empty_name_is_an_entry() {
    let e = one_entry(DT_REG, b"\0");
    assert_eq!(e.file_name_os_str(), b"");
}

#[test]
fn a_known_tag_gives_the_type_without_a_lookup() {
    let e = one_entry(DT_DIR, b"c\0");
    assert_eq!(e.file_type(), FileType::from_tag(DT_DIR));
    assert!(e.file_type().unwrap().is_dir());
    let e = one_entry(DT_LNK, b"l\0");
    assert!(e.file_type().unwrap().is_symlink());
}

#[test]
fn a_known_tag_wins_over_what_a_lookup_says() {
    let e = one_entry(DT_REG, b"a\0");
    let t = e.file_type_from(Ok(attr(0o040755, 0))).unwrap();
    assert!(t.is_file());
    assert_eq!(t, FileType::from_tag(DT_REG).unwrap());
    let t = e.file_type_from(Err(FsError::OsError(ENOENT))).unwrap();
    assert!(t.is_file());
}

#[test]
fn an_unknown_tag_leaves_the_type_to_the_lookup() {
    let e = one_entry(DT_UNKNOWN, b"a\0");
    assert_eq!(e.file_type(), None);
    let found = attr(0o040755, 0);
    let t = e.file_type_from(Ok(found)).unwrap();
    assert_eq!(t, found.file_type());
    assert!(t.is_dir());
    let t = e.file_type_from(Ok(attr(0o100600, 3))).unwrap();
    assert!(t.is_file());
}

#[test]
fn an_unknown_tag_passes_the_lookup_s_error_on() {
    let e = one_entry(DT_UNKNOWN, b"a\0");
    assert_eq!(e.file_type_from(Err(FsError::OsError(ENOENT))), Err(FsError::OsError(ENOENT)));
    let e = one_entry(200, b"a\0");
    assert_eq!(e.file_type_from(Err(FsError::OsError(EACCES))), Err(FsError::OsError(EACCES)));
}

#[test]
fn a_lookup_is_asked_relative_to_the_directory_without_following_links() {
    let e = one_entry(DT_LNK, b"link\0");
    match e.stat_request(4, 0) {
        Ok(request) => {
            assert_eq!(request.fd, 4);
            assert_eq!(request.name.to_bytes_with_nul(), b"link\0");
            assert_eq!(request.flags, AT_SYMLINK_NOFOLLOW);
            assert_eq!(request.flags, 0x100);
        }
        Err(e) => panic!("no request: {:?}", e),
    };
}

#[test]
fn without_a_descriptor_there_is_no_lookup() {
    let e = one_entry(DT_REG, b"a\0");
    assert!(matches!(e.stat_request(-1, EBADF), Err(FsError::OsError(9))));
    assert!(matches!(e.stat_request(0, EBADF), Ok(_)));
}

#[test]
fn a_lookup_that_went_well_gives_the_record_it_filled() {
    let e = one_entry(DT_REG, b"a\0");
    let found = e.metadata(0, ENOENT, attr(0o100644, 1234)).unwrap();
    assert_eq!(found.st_size, 1234);
    assert_eq!(found.st_mode, 0o100644);
    assert_eq!(found.st_atime, 1);
    assert_eq!(found.st_atime_nsec, 2);
    assert_eq!(found.st_ctime, 3);
    assert_eq!(found.st_ctime_nsec, 4);
    assert_eq!(found.st_dev, 5);
    assert_eq!(found.st_gid, 6);
    assert_eq!(found.st_ino, 7);
    assert_eq!(found.st_mtime, 8);
    assert_eq!(found.st_mtime_nsec, 9);
    assert_eq!(found.st_uid, 10);
    assert_eq!(found.st_nlink, 1);
    assert_eq!(found.st_blksize, 4096);
    assert_eq!(found.st_blocks, 8);
    assert_eq!(found.st_rdev, 0);
}

#[test]
fn a_lookup_that_failed_gives_the_platform_s_error() {
    let e = one_entry(DT_REG, b"a\0");
    match e.metadata(-1, ENOENT, attr(0, 0)) {
        Err(err) => assert_eq!(err, FsError::OsError(ENOENT)),
        Ok(_) => panic!("attributes of a failed lookup"),
    }
    assert!(matches!(e.metadata(-1, EACCES, attr(0o100644, 5)), Err(FsError::OsError(13))));
}

#[test]
fn a_second_lookup_sees_the_file_as_it_is_then() {
    let e = one_entry(DT_REG, b"a\0");
    let before = e.metadata(0, 0, attr(0o100644, 4096)).unwrap();
    let after = e.metadata(0, 0, attr(0o100644, 0)).unwrap();
    assert_eq!(before.st_size, 4096);
    assert_eq!(after.st_size, 0);
    let gone = e.metadata(-1, ENOENT, attr(0, 0));
    assert!(matches!(gone, Err(FsError::OsError(2))));
}
