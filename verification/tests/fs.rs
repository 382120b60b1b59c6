use uring_runtime::driver::op::OsError;
use uring_runtime::fs::opener::Opener;
use uring_runtime::fs::opener::O_APPEND;
use uring_runtime::fs::opener::O_CREAT;
use uring_runtime::fs::opener::O_EXCL;
use uring_runtime::fs::opener::O_RDONLY;
use uring_runtime::fs::opener::O_RDWR;
use uring_runtime::fs::opener::O_TRUNC;
use uring_runtime::fs::opener::O_WRONLY;

fn invalid() -> Result<i32, OsError> {
    Err(OsError { errno: libc::EINVAL })
}

#[test]
fn open_flags_are_those_of_libc() {
    assert_eq!(O_RDONLY, libc::O_RDONLY);
    assert_eq!(O_WRONLY, libc::O_WRONLY);
    assert_eq!(O_RDWR, libc::O_RDWR);
    assert_eq!(O_CREAT, libc::O_CREAT);
    assert_eq!(O_EXCL, libc::O_EXCL);
    assert_eq!(O_TRUNC, libc::O_TRUNC);
    assert_eq!(O_APPEND, libc::O_APPEND);
}

#[test]
fn a_new_opener_has_no_option_set() {
    let opener = Opener::new();
    assert!(!opener.read && !opener.write && !opener.append);
    assert!(!opener.truncate && !opener.create && !opener.create_new);
    assert_eq!(opener.mode, 0o666);
    assert_eq!(opener.access_mode(), invalid());
    assert_eq!(opener.creation_mode(), Ok(0));
    assert_eq!(opener.open_flags(), invalid());
}

#[test]
fn options_are_set_one_by_one() {
    let mut opener = Opener::new();
    opener.read(true).write(true).append(true);
    assert!(opener.read && opener.write && opener.append);
    opener.truncate(true).create(true).create_new(true);
    assert!(opener.truncate && opener.create && opener.create_new);
    opener.read(false).create(false);
    assert!(!opener.read && opener.write && !opener.create && opener.create_new);
    assert_eq!(opener.mode, 0o666);
}

#[test]
fn access_modes() {
    let access = |read: bool, write: bool, append: bool| {
        let mut opener = Opener::new();
        opener.read(read).write(write).append(append);
        opener.access_mode()
    };
    assert_eq!(access(true, false, false), Ok(libc::O_RDONLY));
    assert_eq!(access(false, true, false), Ok(libc::O_WRONLY));
    assert_eq!(access(true, true, false), Ok(libc::O_RDWR));
    assert_eq!(access(false, false, true), Ok(libc::O_WRONLY | libc::O_APPEND));
    assert_eq!(access(false, true, true), Ok(libc::O_WRONLY | libc::O_APPEND));
    assert_eq!(access(true, false, true), Ok(libc::O_RDWR | libc::O_APPEND));
    assert_eq!(access(true, true, true), Ok(libc::O_RDWR | libc::O_APPEND));
    assert_eq!(access(false, false, false), invalid());
    assert_eq!(access(false, true, true), Ok(0o2001));
    assert_eq!(access(true, true, true), Ok(0o2002));
}

#[test]
fn creation_modes() {
    let creation = |create: bool, truncate: bool, create_new: bool| {
        let mut opener = Opener::new();
        opener.write(true).create(create).truncate(truncate).create_new(create_new);
        opener.creation_mode()
    };
    assert_eq!(creation(false, false, false), Ok(0));
    assert_eq!(creation(true, false, false), Ok(libc::O_CREAT));
    assert_eq!(creation(false, true, false), Ok(libc::O_TRUNC));
    assert_eq!(creation(true, true, false), Ok(libc::O_CREAT | libc::O_TRUNC));
    assert_eq!(creation(false, false, true), Ok(libc::O_CREAT | libc::O_EXCL));
    assert_eq!(creation(true, true, true), Ok(libc::O_CREAT | libc::O_EXCL));
    assert_eq!(creation(true, true, false), Ok(0o1100));
    assert_eq!(creation(false, true, true), Ok(0o300));
}

#[test]
fn creating_needs_write_access() {
    for (create, truncate, create_new) in
        [(true, false, false), (false, true, false), (false, false, true), (true, true, true)]
    {
        let mut opener = Opener::new();
        opener.read(true).create(create).truncate(truncate).create_new(create_new);
        assert_eq!(opener.creation_mode(), invalid());
        assert_eq!(opener.open_flags(), invalid());
    }
    let mut opener = Opener::new();
    opener.read(true);
    assert_eq!(opener.creation_mode(), Ok(0));
    assert_eq!(opener.open_flags(), Ok(libc::O_RDONLY));
}

#[test]
fn truncate_with_append_is_refused_unless_the_file_is_new() {
    let mut opener = Opener::new();
    opener.append(true).truncate(true);
    assert_eq!(opener.creation_mode(), invalid());
    assert_eq!(opener.open_flags(), invalid());
    opener.write(true).create(true);
    assert_eq!(opener.open_flags(), invalid());
    opener.create_new(true);
    assert_eq!(opener.creation_mode(), Ok(libc::O_CREAT | libc::O_EXCL));
    assert_eq!(
        opener.open_flags(),
        Ok(libc::O_WRONLY | libc::O_APPEND | libc::O_CREAT | libc::O_EXCL)
    );
}

#[test]
fn create_and_truncate_on_a_fresh_path() {
    let mut opener = Opener::new();
    opener.write(true).create(true).truncate(true);
    assert_eq!(opener.open_flags(), Ok(libc::O_WRONLY | libc::O_CREAT | libc::O_TRUNC));
    assert_eq!(opener.open_flags(), Ok(0o1101));
    opener.read(true);
    assert_eq!(opener.open_flags(), Ok(libc::O_RDWR | libc::O_CREAT | libc::O_TRUNC));
}
