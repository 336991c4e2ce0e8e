use std::sync::Arc;

use dragonos_kernel::errno::SystemError;
use dragonos_kernel::fd_table::{FileDescriptorVec, PROCESS_MAX_FD};
use dragonos_kernel::file::File;
use dragonos_kernel::file_mode::FileMode;
use dragonos_kernel::urandom::LockedUrandomInode;
use dragonos_kernel::vfs::{Cred, InodeId};

fn root() -> Cred {
    Cred { uid: 0, gid: 0, euid: 0, egid: 0, fsuid: 0, fsgid: 0 }
}

fn open_file(mode: FileMode) -> Arc<File<LockedUrandomInode>> {
    let inode = LockedUrandomInode::new(InodeId { id: 7 });
    Arc::new(File::new(inode, mode, root()).unwrap())
}

#[test]
fn new_table_has_no_open_descriptor() {
    let t: FileDescriptorVec<File<LockedUrandomInode>> = FileDescriptorVec::new();
    assert_eq!(t.fd_open_count(), 0);
    assert!(t.get_file_by_fd(0).is_none());
    assert!(t.get_file_by_fd(1023).is_none());
}

#[test]
fn alloc_takes_the_lowest_free_descriptor() {
    let mut t = FileDescriptorVec::new();
    let a = open_file(FileMode::O_RDWR());
    let b = open_file(FileMode::O_RDWR());
    let c = open_file(FileMode::O_RDWR());
    assert_eq!(t.alloc_fd(a.clone(), None), Ok(0));
    assert_eq!(t.alloc_fd(b.clone(), None), Ok(1));
    assert_eq!(t.fd_open_count(), 2);
    let dropped = t.drop_fd(0).unwrap();
    assert!(Arc::ptr_eq(&dropped, &a));
    assert_eq!(t.alloc_fd(c.clone(), None), Ok(0));
    assert!(Arc::ptr_eq(&t.get_file_by_fd(0).unwrap(), &c));
    assert!(Arc::ptr_eq(&t.get_file_by_fd(1).unwrap(), &b));
}

#[test]
fn alloc_under_a_given_descriptor() {
    let mut t = FileDescriptorVec::new();
    let a = open_file(FileMode::O_RDONLY());
    let b = open_file(FileMode::O_RDONLY());
    assert_eq!(t.alloc_fd(a.clone(), Some(5)), Ok(5));
    assert_eq!(t.alloc_fd(b, Some(5)), Err(SystemError::EBADF));
    assert!(Arc::ptr_eq(&t.get_file_by_fd(5).unwrap(), &a));
    assert_eq!(t.fd_open_count(), 1);
    // The lowest free descriptor is still 0.
    assert_eq!(t.alloc_fd(open_file(FileMode::O_RDONLY()), None), Ok(0));
}

#[test]
fn alloc_fails_with_emfile_when_full() {
    let mut t = FileDescriptorVec::new();
    let f = open_file(FileMode::O_RDONLY());
    for i in 0..PROCESS_MAX_FD {
        assert_eq!(t.alloc_fd(f.clone(), None), Ok(i as i32));
    }
    assert_eq!(t.fd_open_count(), PROCESS_MAX_FD);
    assert_eq!(t.alloc_fd(f.clone(), None), Err(SystemError::EMFILE));
    assert_eq!(t.fd_open_count(), PROCESS_MAX_FD);
    assert!(t.drop_fd(700).is_ok());
    assert_eq!(t.alloc_fd(f, None), Ok(700));
}

#[test]
fn drop_fd_of_a_free_descriptor_is_ebadf() {
    let mut t: FileDescriptorVec<File<LockedUrandomInode>> = FileDescriptorVec::new();
    assert!(matches!(t.drop_fd(3), Err(SystemError::EBADF)));
    assert!(matches!(t.drop_fd(-1), Err(SystemError::EBADF)));
    assert!(matches!(t.drop_fd(5000), Err(SystemError::EBADF)));
    assert!(matches!(t.drop_fd(1024), Err(SystemError::EBADF)));
    t.alloc_fd(open_file(FileMode::O_RDONLY()), Some(3)).unwrap();
    assert!(t.drop_fd(3).is_ok());
    assert!(t.get_file_by_fd(3).is_none());
    assert!(matches!(t.drop_fd(3), Err(SystemError::EBADF)));
    assert_eq!(t.fd_open_count(), 0);
}

#[test]
fn validate_fd_bounds() {
    type T = FileDescriptorVec<File<LockedUrandomInode>>;
    assert!(!T::validate_fd(-1));
    assert!(T::validate_fd(0));
    assert!(T::validate_fd(1023));
    assert!(!T::validate_fd(1024));
    assert!(!T::validate_fd(1025));
    assert!(!T::validate_fd(i32::MIN));
}

#[test]
fn get_file_by_fd_outside_the_table() {
    let t: FileDescriptorVec<File<LockedUrandomInode>> = FileDescriptorVec::new();
    assert!(t.get_file_by_fd(-5).is_none());
    assert!(t.get_file_by_fd(1025).is_none());
    assert!(t.get_file_by_fd(1024).is_none());
}

#[test]
fn clone_duplicates_open_files() {
    let mut t = FileDescriptorVec::new();
    let a = open_file(FileMode::O_RDWR());
    t.alloc_fd(a.clone(), Some(2)).unwrap();
    t.alloc_fd(open_file(FileMode::O_RDONLY()), Some(9)).unwrap();
    let c = t.clone();
    assert_eq!(c.fd_open_count(), 2);
    let copy = c.get_file_by_fd(2).unwrap();
    assert!(!Arc::ptr_eq(&copy, &a));
    assert_eq!(copy.mode(), a.mode());
    assert_eq!(copy.offset(), a.offset());
    assert!(c.get_file_by_fd(0).is_none());
    assert_eq!(c.get_file_by_fd(9).unwrap().mode(), FileMode::O_RDONLY());
}

#[test]
fn close_on_exec_closes_only_marked_files() {
    let mut t = FileDescriptorVec::new();
    let keep = open_file(FileMode::O_RDWR());
    let close = open_file(FileMode::O_RDWR().union(FileMode::O_CLOEXEC()));
    t.alloc_fd(keep.clone(), None).unwrap();
    t.alloc_fd(close.clone(), None).unwrap();
    t.alloc_fd(close, Some(10)).unwrap();
    t.close_on_exec();
    assert!(Arc::ptr_eq(&t.get_file_by_fd(0).unwrap(), &keep));
    assert!(t.get_file_by_fd(1).is_none());
    assert!(t.get_file_by_fd(10).is_none());
    assert_eq!(t.fd_open_count(), 1);
}

#[test]
fn iterator_walks_open_descriptors_in_order() {
    let mut t = FileDescriptorVec::new();
    let a = open_file(FileMode::O_RDONLY());
    let b = open_file(FileMode::O_RDONLY());
    t.alloc_fd(a.clone(), Some(3)).unwrap();
    t.alloc_fd(b.clone(), Some(1000)).unwrap();
    let mut it = t.iter();
    let (fd, f) = it.next().unwrap();
    assert_eq!(fd, 3);
    assert!(Arc::ptr_eq(&f, &a));
    let (fd, f) = it.next().unwrap();
    assert_eq!(fd, 1000);
    assert!(Arc::ptr_eq(&f, &b));
    assert!(it.next().is_none());
    assert!(it.next().is_none());
}

#[test]
fn install_clone_stores_only_a_made_copy() {
    let mut t = FileDescriptorVec::new();
    let a = open_file(FileMode::O_RDWR());
    t.install_clone(4, None);
    assert!(t.get_file_by_fd(4).is_none());
    t.install_clone(4, Some(a.clone()));
    assert!(Arc::ptr_eq(&t.get_file_by_fd(4).unwrap(), &a));
    assert_eq!(t.fd_open_count(), 1);
}
