use vstd::prelude::*;
use std::sync::Arc;

use crate::errno::SystemError;
use crate::file_mode::FileMode;
use crate::pid::PidPrivateData;

verus! {

/// The kinds of file system nodes.
#[derive(Clone, Copy, PartialEq, Eq, Structural, Debug)]
pub enum FileType {
    File,
    Dir,
    BlockDevice,
    CharDevice,
    FramebufferDevice,
    KvmDevice,
    Pipe,
    SymLink,
    Socket,
}

/// The directory-entry type number (`d_type`) of each kind of node.
pub open spec fn spec_file_type_num(t: FileType) -> u64 {
    match t {
        FileType::File => 8,
        FileType::Dir => 4,
        FileType::BlockDevice => 6,
        FileType::CharDevice => 2,
        FileType::FramebufferDevice => 2,
        FileType::KvmDevice => 2,
        FileType::Pipe => 1,
        FileType::SymLink => 10,
        FileType::Socket => 12,
    }
}

impl FileType {
    /// The directory-entry type number (`d_type`) of this kind of node.
    pub fn get_file_type_num(&self) -> (r: u64)
        ensures
            r == spec_file_type_num(*self),
    {
        match self {
            FileType::File => 8,
            FileType::Dir => 4,
            FileType::BlockDevice => 6,
            FileType::CharDevice => 2,
            FileType::FramebufferDevice => 2,
            FileType::KvmDevice => 2,
            FileType::Pipe => 1,
            FileType::SymLink => 10,
            FileType::Socket => 12,
        }
    }
}

/// A point in time, in seconds and nanoseconds.
#[derive(Clone, Copy, PartialEq, Eq, Structural, Debug)]
pub struct PosixTimeSpec {
    pub tv_sec: i64,
    pub tv_nsec: i64,
}

impl PosixTimeSpec {
    /// The epoch.
    pub fn zero() -> (r: PosixTimeSpec)
        ensures
            r.tv_sec == 0 && r.tv_nsec == 0,
    {
        PosixTimeSpec { tv_sec: 0, tv_nsec: 0 }
    }
}

/// Every bit that a node's permission and type mode uses.
pub const MODE_TYPE_ALL_BITS: u32 = 0o177777;

/// A node's permission and type bits.
#[derive(Clone, Copy, PartialEq, Eq, Structural, Debug)]
pub struct ModeType {
    bits: u32,
}

impl View for ModeType {
    type V = u32;

    closed spec fn view(&self) -> u32 {
        self.bits
    }
}

impl ModeType {
    /// The mode made of the known bits of `bits`.
    pub fn from_bits_truncate(bits: u32) -> (r: ModeType)
        ensures
            r@ == bits & MODE_TYPE_ALL_BITS,
    {
        ModeType { bits: bits & MODE_TYPE_ALL_BITS }
    }

    pub fn bits(&self) -> (r: u32)
        ensures
            r == self@,
    {
        self.bits
    }
}

/// A device number.
#[derive(Clone, Copy, PartialEq, Eq, Structural, Debug)]
pub struct DeviceNumber {
    pub data: u32,
}

/// The number that identifies a node.
#[derive(Clone, Copy, PartialEq, Eq, Structural, Debug)]
pub struct InodeId {
    pub id: usize,
}

/// What a node tells about itself.
#[derive(Clone, Copy, PartialEq, Eq, Structural, Debug)]
pub struct Metadata {
    pub dev_id: usize,
    pub inode_id: InodeId,
    pub size: i64,
    pub blk_size: usize,
    pub blocks: usize,
    pub atime: PosixTimeSpec,
    pub mtime: PosixTimeSpec,
    pub ctime: PosixTimeSpec,
    pub btime: PosixTimeSpec,
    pub file_type: FileType,
    pub mode: ModeType,
    pub nlinks: usize,
    pub uid: usize,
    pub gid: usize,
    pub raw_dev: DeviceNumber,
}

/// The credentials a file was opened with.
#[derive(Clone, Copy, PartialEq, Eq, Structural, Debug)]
pub struct Cred {
    pub uid: usize,
    pub gid: usize,
    pub euid: usize,
    pub egid: usize,
    pub fsuid: usize,
    pub fsgid: usize,
}

/// Where a seek counts from.
#[derive(Clone, Copy, PartialEq, Eq, Structural, Debug)]
pub enum SeekFrom {
    SeekSet(i64),
    SeekCurrent(i64),
    SeekEnd(i64),
    Invalid,
}

/// The private data of an open pipe end.
#[derive(Clone, Copy, PartialEq, Eq, Structural, Debug)]
pub struct PipeFsPrivateData {
    pub mode: FileMode,
}

impl PipeFsPrivateData {
    pub fn new(mode: FileMode) -> (r: Self)
        ensures
            r.mode == mode,
    {
        PipeFsPrivateData { mode }
    }

    pub fn set_mode(&mut self, mode: FileMode)
        ensures
            final(self).mode == mode,
    {
        self.mode = mode;
    }
}

/// The private data of an open procfs file; nothing here reads it.
#[derive(Clone, Copy, PartialEq, Eq, Structural, Debug)]
pub struct ProcfsFilePrivateData {}

/// The private data of an open device file; nothing here reads it.
#[derive(Clone, Copy, PartialEq, Eq, Structural, Debug)]
pub struct DevicePrivateData {}

/// The private data of an open tty; nothing here reads it.
#[derive(Clone, Copy, PartialEq, Eq, Structural, Debug)]
pub struct TtyFilePrivateData {}

/// The private data of an epoll instance; nothing here reads it.
#[derive(Clone, Copy, PartialEq, Eq, Structural, Debug)]
pub struct EPollPrivateData {}

/// The per-open-file data that the node behind the file keeps.
#[derive(Clone, Copy, PartialEq, Eq, Structural, Debug)]
pub enum FilePrivateData {
    /// Of a pipe.
    Pipefs(PipeFsPrivateData),
    /// Of a procfs file.
    Procfs(ProcfsFilePrivateData),
    /// Of a device file.
    DevFS(DevicePrivateData),
    /// Of a tty.
    Tty(TtyFilePrivateData),
    /// Of an epoll instance.
    EPoll(EPollPrivateData),
    /// Of a pidfd.
    Pid(PidPrivateData),
    /// No private data.
    Unused,
}

impl Default for FilePrivateData {
    fn default() -> (r: Self)
        ensures
            r is Unused,
    {
        FilePrivateData::Unused
    }
}

impl FilePrivateData {
    /// Tells a pipe end its new mode; other data is left as it is.
    pub fn update_mode(&mut self, mode: FileMode)
        ensures
            match *old(self) {
                FilePrivateData::Pipefs(_) => *final(self) == FilePrivateData::Pipefs(
                    PipeFsPrivateData { mode },
                ),
                _ => *final(self) == *old(self),
            },
    {
        if let FilePrivateData::Pipefs(pdata) = self {
            pdata.set_mode(mode);
        }
    }

    /// Whether this is the data of a pidfd.
    pub fn is_pid(&self) -> (r: bool)
        ensures
            r == (*self is Pid),
    {
        if let FilePrivateData::Pid(_data) = self {
            return true;
        }
        false
    }

    /// The pid of a pidfd's data, and `-1` for any other data.
    pub fn get_pid(&self) -> (r: i32)
        ensures
            r == match *self {
                FilePrivateData::Pid(d) => d.spec_pid() as int,
                _ => -1int,
            },
    {
        if let FilePrivateData::Pid(data) = self {
            return data.pid();
        }
        -1
    }
}

/// Nodes with a special role, that stand behind another node.
pub enum SpecialNodeData<I> {
    /// The pipe behind a named pipe.
    Pipe(Arc<I>),
    CharDevice(Arc<I>),
    BlockDevice(Arc<I>),
}

/// A node of a file system: a file, a directory or a device.
pub trait IndexNode: Sized {
    /// Whether the node may refuse a file to be opened on it. A node that
    /// says nothing may refuse.
    open spec fn may_refuse_open(&self) -> bool {
        true
    }

    /// Whether `r` is an answer the node may give to a read of `len` bytes
    /// at `offset`, with the buffer going from `before` to `after` and the
    /// private data from `data_before` to `data_after`. A node that says
    /// nothing of its reads may give any answer.
    open spec fn read_at_answer(
        &self,
        offset: usize,
        len: usize,
        before: Seq<u8>,
        after: Seq<u8>,
        data_before: FilePrivateData,
        data_after: FilePrivateData,
        r: Result<usize, SystemError>,
    ) -> bool {
        true
    }

    /// Whether `r` is an answer the node may give to a write of `len` bytes
    /// of `buf` at `offset`, with the private data going from `data_before`
    /// to `data_after`. A node that says nothing of its writes may give any
    /// answer.
    open spec fn write_at_answer(
        &self,
        offset: usize,
        len: usize,
        buf: Seq<u8>,
        data_before: FilePrivateData,
        data_after: FilePrivateData,
        r: Result<usize, SystemError>,
    ) -> bool {
        true
    }

    /// Called when a file is opened on the node; fails only where the node
    /// may refuse.
    fn open(&self, data: &mut FilePrivateData, mode: &FileMode) -> (r: Result<(), SystemError>)
        ensures
            r is Err ==> self.may_refuse_open(),
    ;

    /// Called when a file open on the node is closed.
    fn close(&self, data: &mut FilePrivateData) -> Result<(), SystemError>;

    /// Reads up to `len` bytes at `offset` into `buf`; gives the number read.
    fn read_at(&self, offset: usize, len: usize, buf: &mut [u8], data: &mut FilePrivateData) -> (r: Result<usize, SystemError>)
        ensures
            self.read_at_answer(offset, len, old(buf)@, final(buf)@, *old(data), *final(data), r),
    ;

    /// Writes up to `len` bytes of `buf` at `offset`; gives the number written.
    fn write_at(&self, offset: usize, len: usize, buf: &[u8], data: &mut FilePrivateData) -> (r: Result<usize, SystemError>)
        ensures
            self.write_at_answer(offset, len, buf@, *old(data), *final(data), r),
    ;

    /// The node's metadata.
    fn metadata(&self) -> Result<Metadata, SystemError>;

    /// The names of a directory's entries.
    fn list(&self) -> Result<Vec<String>, SystemError>;

    /// Whether `r` is an answer the node may give to a read of `len` bytes
    /// at `offset` that bypasses its cache, as `read_at_answer` says of a
    /// cached one. A node that says nothing of such reads may give any
    /// answer.
    open spec fn read_direct_answer(
        &self,
        offset: usize,
        len: usize,
        before: Seq<u8>,
        after: Seq<u8>,
        data_before: FilePrivateData,
        data_after: FilePrivateData,
        r: Result<usize, SystemError>,
    ) -> bool {
        true
    }

    /// Reads bypassing any cache; not offered (`ENOSYS`) unless the node
    /// says so.
    fn read_direct(&self, offset: usize, len: usize, buf: &mut [u8], data: &mut FilePrivateData) -> (r: Result<usize, SystemError>)
        ensures
            r == Err::<usize, SystemError>(SystemError::ENOSYS) || self.read_direct_answer(
                offset,
                len,
                old(buf)@,
                final(buf)@,
                *old(data),
                *final(data),
                r,
            ),
        default_ensures
            r == Err::<usize, SystemError>(SystemError::ENOSYS),
    {
        Err(SystemError::ENOSYS)
    }

    /// Changes the size of the node's content; not offered unless the node
    /// says so.
    fn resize(&self, len: usize) -> (r: Result<(), SystemError>)
        default_ensures
            r == Err::<(), SystemError>(SystemError::ENOSYS),
    {
        Err(SystemError::ENOSYS)
    }

    /// The entry of a directory called `name`; not offered unless the node
    /// says so.
    fn find(&self, name: &str) -> (r: Result<Arc<Self>, SystemError>)
        default_ensures
            r == Err::<Arc<Self>, SystemError>(SystemError::ENOSYS),
    {
        Err(SystemError::ENOSYS)
    }

    /// The name of the entry with number `ino`; not offered unless the node
    /// says so.
    fn get_entry_name(&self, ino: InodeId) -> (r: Result<String, SystemError>)
        default_ensures
            r == Err::<String, SystemError>(SystemError::ENOSYS),
    {
        Err(SystemError::ENOSYS)
    }

    /// Sets the metadata that may be changed; not offered unless the node
    /// says so.
    fn set_metadata(&self, metadata: &Metadata) -> (r: Result<(), SystemError>)
        default_ensures
            r == Err::<(), SystemError>(SystemError::ENOSYS),
    {
        Err(SystemError::ENOSYS)
    }

    /// The node that stands behind this one, if it has a special role.
    fn special_node(&self) -> (r: Option<SpecialNodeData<Self>>)
        default_ensures
            r is None,
    {
        None
    }
}

} // verus!
