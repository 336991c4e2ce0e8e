use vstd::prelude::*;
use std::sync::Arc;

use crate::errno::SystemError;
use crate::file_mode::FileMode;
use crate::file_operations::FileOperations;
use crate::readdir::{fill_entry, spec_reclen, str_len_of, FilldirContext};
use crate::vfs::{Cred, FilePrivateData, FileType, IndexNode, InodeId, Metadata, SeekFrom, SpecialNodeData};

verus! {

/// The position a seek aims at, before it is checked: `None` when the
/// origin is not a valid one. The current position is taken as a signed
/// 64-bit number, so one above `i64::MAX` counts as negative.
pub open spec fn spec_seek_target(origin: SeekFrom, current: usize, size: i64) -> Option<int> {
    match origin {
        SeekFrom::SeekSet(o) => Some(o as int),
        SeekFrom::SeekCurrent(o) => Some(current as i64 + o),
        SeekFrom::SeekEnd(o) => Some(size + o),
        SeekFrom::Invalid => None,
    }
}

/// The result of a seek from `origin`, when the file is at `current` and
/// its content is `size` bytes long.
pub open spec fn spec_seek_position(origin: SeekFrom, current: usize, size: i64) -> Result<usize, SystemError> {
    match spec_seek_target(origin, current, size) {
        None => Err(SystemError::EINVAL),
        Some(p) => if p < 0 || p > i64::MAX || p > usize::MAX {
            Err(SystemError::EOVERFLOW)
        } else {
            Ok(p as usize)
        },
    }
}

/// Where a seek from `origin` lands, when the file is at `current` and its
/// content is `size` bytes long: `EINVAL` for an invalid origin, and
/// `EOVERFLOW` when the position would be negative or too large.
pub fn seek_position(origin: SeekFrom, current: usize, size: i64) -> (r: Result<usize, SystemError>)
    ensures
        r == spec_seek_position(origin, current, size),
{
    let target: i128 = match origin {
        SeekFrom::SeekSet(o) => o as i128,
        SeekFrom::SeekCurrent(o) => {
            let base: i64 = #[verifier::truncate] (current as i64);
            base as i128 + o as i128
        },
        SeekFrom::SeekEnd(o) => size as i128 + o as i128,
        SeekFrom::Invalid => {
            return Err(SystemError::EINVAL);
        },
    };
    if target < 0 || target > i64::MAX as i128 || target > usize::MAX as i128 {
        return Err(SystemError::EOVERFLOW);
    }
    Ok(target as usize)
}

/// Whether a node of type `t` refuses to seek: pipes and character devices.
pub open spec fn spec_unseekable(t: FileType) -> bool {
    t == FileType::Pipe || t == FileType::CharDevice
}

/// The result of a seek on a node of type `t` from `origin`, when the file
/// is at `current` and the node's content is `size` bytes long.
pub open spec fn spec_lseek_position(t: FileType, origin: SeekFrom, current: usize, size: i64) -> Result<usize, SystemError> {
    if spec_unseekable(t) {
        Err(SystemError::ESPIPE)
    } else {
        spec_seek_position(origin, current, size)
    }
}

/// Where a seek lands on a node of type `t`: pipes and character devices
/// refuse with `ESPIPE`; otherwise as `seek_position`.
pub fn lseek_position(t: FileType, origin: SeekFrom, current: usize, size: i64) -> (r: Result<usize, SystemError>)
    ensures
        r == spec_lseek_position(t, origin, current, size),
{
    match t {
        FileType::Pipe | FileType::CharDevice => Err(SystemError::ESPIPE),
        _ => seek_position(origin, current, size),
    }
}

/// The node a file opens when the node at hand is a named pipe: the pipe
/// that stands behind it, when the node names one, and the node itself
/// otherwise.
pub fn pipe_or_node<I: IndexNode>(inode: Arc<I>, special: Option<SpecialNodeData<I>>) -> (r: Arc<I>)
    ensures
        r == match special {
            Some(SpecialNodeData::Pipe(p)) => p,
            _ => inode,
        },
{
    match special {
        Some(SpecialNodeData::Pipe(p)) => p,
        _ => inode,
    }
}

/// The node that a file opened on `inode`, a node of type `t`, is on, when
/// asking the node for the node behind it gave `special`: the pipe behind a
/// named pipe, when one is named, and `inode` itself otherwise.
pub open spec fn spec_open_target<I>(inode: Arc<I>, t: FileType, special: Option<SpecialNodeData<I>>) -> Arc<I> {
    match special {
        Some(SpecialNodeData::Pipe(p)) => if t == FileType::Pipe {
            p
        } else {
            inode
        },
        _ => inode,
    }
}

/// An open file: a node, a position in it, the mode it was opened with and
/// the node's private data for this opening.
pub struct File<I: IndexNode> {
    inode: Arc<I>,
    offset: usize,
    mode: FileMode,
    file_type: FileType,
    readdir_subdirs_name: Vec<String>,
    pub private_data: FilePrivateData,
    cred: Cred,
}

impl<I: IndexNode> File<I> {
    pub closed spec fn spec_inode(&self) -> Arc<I> {
        self.inode
    }

    pub closed spec fn spec_offset(&self) -> usize {
        self.offset
    }

    pub closed spec fn spec_mode(&self) -> FileMode {
        self.mode
    }

    pub closed spec fn spec_file_type(&self) -> FileType {
        self.file_type
    }

    pub closed spec fn spec_private_data(&self) -> FilePrivateData {
        self.private_data
    }

    pub closed spec fn spec_cred(&self) -> Cred {
        self.cred
    }

    pub closed spec fn spec_subdirs_name(&self) -> Seq<String> {
        self.readdir_subdirs_name@
    }

    /// Everything but the private data is as in `other`.
    pub open spec fn same_state_as(&self, other: &Self) -> bool {
        &&& self.spec_inode() == other.spec_inode()
        &&& self.spec_offset() == other.spec_offset()
        &&& self.spec_mode() == other.spec_mode()
        &&& self.spec_file_type() == other.spec_file_type()
        &&& self.spec_cred() == other.spec_cred()
        &&& self.spec_subdirs_name() == other.spec_subdirs_name()
    }

    /// Whether `r` is an answer that a read through the file of `len` bytes
    /// at `offset` may get, the buffer going from `before` to `after` and
    /// the private data ending as `data_after`. A read that reaches the
    /// node (the file is readable and the buffer holds `len` bytes) is a
    /// read of the node at `offset` with the file's private data: one that
    /// bypasses the node's cache when the file was opened with `O_DIRECT`
    /// (a node that does not offer those answers `ENOSYS`), and a cached
    /// one otherwise. The file's position plays no part.
    pub open spec fn pread_answer(
        &self,
        offset: usize,
        len: usize,
        before: Seq<u8>,
        after: Seq<u8>,
        data_after: FilePrivateData,
        r: Result<usize, SystemError>,
    ) -> bool {
        self.spec_mode().spec_accmode() != 1 && before.len() >= len ==> if self.spec_mode()@ & 0o40000u32
            == 0o40000u32 {
            r == Err::<usize, SystemError>(SystemError::ENOSYS) || (*self.spec_inode()).read_direct_answer(
                offset,
                len,
                before,
                after,
                self.spec_private_data(),
                data_after,
                r,
            )
        } else {
            (*self.spec_inode()).read_at_answer(
                offset,
                len,
                before,
                after,
                self.spec_private_data(),
                data_after,
                r,
            )
        }
    }

    /// Whether `r` is an answer that a read through the file of `len`
    /// bytes at the file's position may get: as `pread_answer` at the
    /// position.
    pub open spec fn read_answer(
        &self,
        len: usize,
        before: Seq<u8>,
        after: Seq<u8>,
        data_after: FilePrivateData,
        r: Result<usize, SystemError>,
    ) -> bool {
        self.pread_answer(self.spec_offset(), len, before, after, data_after, r)
    }

    /// Whether `r` is an answer that a write through the file of `len`
    /// bytes of `buf` at `offset` may get, the private data ending as
    /// `data_after`. A write that succeeds went to the node as a write at
    /// `offset` with the file's private data, and `r` is the node's answer
    /// to it. The file's position plays no part.
    pub open spec fn pwrite_answer(
        &self,
        offset: usize,
        len: usize,
        buf: Seq<u8>,
        data_after: FilePrivateData,
        r: Result<usize, SystemError>,
    ) -> bool {
        self.spec_mode().spec_accmode() != 0 && buf.len() >= len && r is Ok ==> (*self.spec_inode()).write_at_answer(
            offset,
            len,
            buf,
            self.spec_private_data(),
            data_after,
            r,
        )
    }

    /// Whether `r` is an answer that a write through the file of `len`
    /// bytes of `buf` at the file's position may get: as `pwrite_answer`
    /// at the position.
    pub open spec fn write_answer(
        &self,
        len: usize,
        buf: Seq<u8>,
        data_after: FilePrivateData,
        r: Result<usize, SystemError>,
    ) -> bool {
        self.pwrite_answer(self.spec_offset(), len, buf, data_after, r)
    }

    /// The file that opening `inode` makes before the node is told, given
    /// the node's type and, for a pipe, the node that stands behind it:
    /// the file is on the pipe behind a named pipe when there is one, and on
    /// `inode` otherwise; it starts at position 0 with `mode` and `cred`, no
    /// cached names and no private data.
    pub fn file_on(inode: Arc<I>, file_type: FileType, special: Option<SpecialNodeData<I>>, mode: FileMode, cred: Cred) -> (f: Self)
        ensures
            f.spec_file_type() == file_type,
            f.spec_inode() == if file_type == FileType::Pipe && special matches Some(
                SpecialNodeData::Pipe(p),
            ) {
                special->Some_0->Pipe_0
            } else {
                inode
            },
            f.spec_offset() == 0,
            f.spec_mode() == mode,
            f.spec_cred() == cred,
            f.spec_subdirs_name().len() == 0,
            f.spec_private_data() == FilePrivateData::Unused,
    {
        let node = if file_type == FileType::Pipe {
            pipe_or_node(inode, special)
        } else {
            inode
        };
        File {
            inode: node,
            offset: 0,
            mode,
            file_type,
            readdir_subdirs_name: Vec::new(),
            private_data: FilePrivateData::default(),
            cred,
        }
    }

    /// Opens a file on `inode` with `mode`.
    ///
    /// The node's type comes from its metadata; for a pipe, the file is
    /// opened on the pipe that stands behind the node, when the node names
    /// one. That node's `open` is then called; an error of the metadata or
    /// of `open` is returned.
    ///
    /// The contract speaks of what the node answered (its metadata, and
    /// for a pipe the node behind it) as answers the node may give to
    /// those calls.
    pub fn new(inode: Arc<I>, mode: FileMode, cred: Cred) -> (r: Result<Self, SystemError>)
        ensures
            r matches Ok(f) ==> {
                &&& f.spec_offset() == 0
                &&& f.spec_mode() == mode
                &&& f.spec_cred() == cred
                &&& f.spec_subdirs_name().len() == 0
                &&& f.spec_file_type() != FileType::Pipe ==> f.spec_inode() == inode
                &&& exists|m: Metadata, s: Option<SpecialNodeData<I>>|
                    {
                        &&& call_ensures(I::metadata, (&*inode,), Ok::<Metadata, SystemError>(m))
                        &&& m.file_type == FileType::Pipe ==> call_ensures(I::special_node, (&*inode,), s)
                        &&& f.spec_file_type() == m.file_type
                        &&& f.spec_inode() == spec_open_target(inode, m.file_type, s)
                    }
            },
            r matches Err(e) ==> call_ensures(I::metadata, (&*inode,), Err::<Metadata, SystemError>(e))
                || exists|m: Metadata, s: Option<SpecialNodeData<I>>|
                {
                    &&& call_ensures(I::metadata, (&*inode,), Ok::<Metadata, SystemError>(m))
                    &&& m.file_type == FileType::Pipe ==> call_ensures(I::special_node, (&*inode,), s)
                    &&& (*spec_open_target(inode, m.file_type, s)).may_refuse_open()
                },
    {
        // The node is asked through function values, so that the contract
        // can speak of the answers it gave.
        let read_metadata = I::metadata;
        let lookup = I::special_node;
        let meta = match read_metadata(&*inode) {
            Ok(m) => m,
            Err(e) => {
                return Err(e);
            },
        };
        let file_type = meta.file_type;
        let special = if file_type == FileType::Pipe {
            lookup(&*inode)
        } else {
            None
        };
        let ghost target = spec_open_target(inode, file_type, special);
        let mut f = Self::file_on(inode, file_type, special, mode, cred);
        assert(f.spec_inode() == target);
        match f.inode.open(&mut f.private_data, &mode) {
            Ok(()) => {},
            Err(e) => {
                return Err(e);
            },
        }
        Ok(f)
    }

    /// Reads through the node; see `read` and `pread`.
    fn do_read(&mut self, offset: usize, len: usize, buf: &mut [u8], update_offset: bool) -> (r: Result<usize, SystemError>)
        ensures
            final(self).same_state_as(old(self)) || (update_offset && r is Ok),
            final(self).spec_inode() == old(self).spec_inode(),
            final(self).spec_mode() == old(self).spec_mode(),
            final(self).spec_file_type() == old(self).spec_file_type(),
            final(self).spec_cred() == old(self).spec_cred(),
            final(self).spec_subdirs_name() == old(self).spec_subdirs_name(),
            old(self).spec_mode().spec_accmode() == 1 ==> r == Err::<usize, SystemError>(SystemError::EPERM),
            old(self).spec_mode().spec_accmode() != 1 && old(buf)@.len() < len ==> r == Err::<usize, SystemError>(
                SystemError::ENOBUFS,
            ),
            r is Err ==> final(self).spec_offset() == old(self).spec_offset(),
            r matches Ok(n) ==> final(self).spec_offset() == if update_offset {
                vstd::wrapping::usize_specs::wrapping_add(old(self).spec_offset(), n)
            } else {
                old(self).spec_offset()
            },
            (old(self).spec_mode().spec_accmode() == 1 || old(buf)@.len() < len) ==> {
                &&& final(buf)@ == old(buf)@
                &&& final(self).spec_private_data() == old(self).spec_private_data()
            },
            old(self).pread_answer(offset, len, old(buf)@, final(buf)@, final(self).spec_private_data(), r),
    {
        match self.readable() {
            Ok(()) => {},
            Err(e) => {
                return Err(e);
            },
        }
        if buf.len() < len {
            return Err(SystemError::ENOBUFS);
        }
        let res = if self.mode.contains(FileMode::O_DIRECT()) {
            self.inode.read_direct(offset, len, buf, &mut self.private_data)
        } else {
            self.inode.read_at(offset, len, buf, &mut self.private_data)
        };
        let n = match res {
            Ok(n) => n,
            Err(e) => {
                return Err(e);
            },
        };
        if update_offset {
            self.offset = self.offset.wrapping_add(n);
        }
        Ok(n)
    }

    /// Writes through the node; see `write` and `pwrite`.
    fn do_write(&mut self, offset: usize, len: usize, buf: &[u8], update_offset: bool) -> (r: Result<usize, SystemError>)
        ensures
            final(self).spec_inode() == old(self).spec_inode(),
            final(self).spec_mode() == old(self).spec_mode(),
            final(self).spec_file_type() == old(self).spec_file_type(),
            final(self).spec_cred() == old(self).spec_cred(),
            final(self).spec_subdirs_name() == old(self).spec_subdirs_name(),
            old(self).spec_mode().spec_accmode() == 0 ==> r == Err::<usize, SystemError>(SystemError::EPERM),
            old(self).spec_mode().spec_accmode() != 0 && buf@.len() < len ==> r == Err::<usize, SystemError>(
                SystemError::ENOBUFS,
            ),
            r is Err ==> final(self).spec_offset() == old(self).spec_offset(),
            r matches Ok(n) ==> final(self).spec_offset() == if update_offset {
                vstd::wrapping::usize_specs::wrapping_add(old(self).spec_offset(), n)
            } else {
                old(self).spec_offset()
            },
            (old(self).spec_mode().spec_accmode() == 0 || buf@.len() < len) ==> final(self).spec_private_data() == old(self).spec_private_data(),
            old(self).pwrite_answer(offset, len, buf@, final(self).spec_private_data(), r),
    {
        match self.writeable() {
            Ok(()) => {},
            Err(e) => {
                return Err(e);
            },
        }
        if buf.len() < len {
            return Err(SystemError::ENOBUFS);
        }
        let size = match self.inode.metadata() {
            Ok(m) => m.size,
            Err(e) => {
                return Err(e);
            },
        };
        if size >= 0 && offset > size as usize {
            match self.inode.resize(offset) {
                Ok(()) => {},
                Err(e) => {
                    return Err(e);
                },
            }
        }
        let n = match self.inode.write_at(offset, len, buf, &mut self.private_data) {
            Ok(n) => n,
            Err(e) => {
                return Err(e);
            },
        };
        if update_offset {
            self.offset = self.offset.wrapping_add(n);
        }
        Ok(n)
    }

    /// Reads up to `len` bytes at the file's position into `buf`, and moves
    /// the position past what was read.
    ///
    /// Fails with `EPERM` when the file was opened write-only and with
    /// `ENOBUFS` when `buf` is shorter than `len`; otherwise the node reads
    /// (bypassing its cache when the file was opened with `O_DIRECT`).
    pub fn read(&mut self, len: usize, buf: &mut [u8]) -> (r: Result<usize, SystemError>)
        ensures
            final(self).spec_inode() == old(self).spec_inode(),
            final(self).spec_mode() == old(self).spec_mode(),
            final(self).spec_file_type() == old(self).spec_file_type(),
            old(self).spec_mode().spec_accmode() == 1 ==> r == Err::<usize, SystemError>(SystemError::EPERM),
            old(self).spec_mode().spec_accmode() != 1 && old(buf)@.len() < len ==> r == Err::<usize, SystemError>(
                SystemError::ENOBUFS,
            ),
            r is Err ==> final(self).spec_offset() == old(self).spec_offset(),
            r matches Ok(n) ==> final(self).spec_offset() == vstd::wrapping::usize_specs::wrapping_add(
                old(self).spec_offset(),
                n,
            ),
            old(self).read_answer(len, old(buf)@, final(buf)@, final(self).spec_private_data(), r),
    {
        let offset = self.offset;
        self.do_read(offset, len, buf, true)
    }

    /// Writes up to `len` bytes of `buf` at the file's position, and moves
    /// the position past what was written.
    ///
    /// Fails with `EPERM` when the file was opened read-only and with
    /// `ENOBUFS` when `buf` is shorter than `len`. When the position lies
    /// past the node's size, the node is first grown to it.
    pub fn write(&mut self, len: usize, buf: &[u8]) -> (r: Result<usize, SystemError>)
        ensures
            final(self).spec_inode() == old(self).spec_inode(),
            final(self).spec_mode() == old(self).spec_mode(),
            final(self).spec_file_type() == old(self).spec_file_type(),
            old(self).spec_mode().spec_accmode() == 0 ==> r == Err::<usize, SystemError>(SystemError::EPERM),
            old(self).spec_mode().spec_accmode() != 0 && buf@.len() < len ==> r == Err::<usize, SystemError>(
                SystemError::ENOBUFS,
            ),
            r is Err ==> final(self).spec_offset() == old(self).spec_offset(),
            r matches Ok(n) ==> final(self).spec_offset() == vstd::wrapping::usize_specs::wrapping_add(
                old(self).spec_offset(),
                n,
            ),
            old(self).write_answer(len, buf@, final(self).spec_private_data(), r),
    {
        let offset = self.offset;
        self.do_write(offset, len, buf, true)
    }

    /// Reads up to `len` bytes at `offset` into `buf`; the file's position
    /// does not move. Fails as `read` does.
    pub fn pread(&mut self, offset: usize, len: usize, buf: &mut [u8]) -> (r: Result<usize, SystemError>)
        ensures
            final(self).spec_inode() == old(self).spec_inode(),
            final(self).spec_mode() == old(self).spec_mode(),
            final(self).spec_offset() == old(self).spec_offset(),
            old(self).spec_mode().spec_accmode() == 1 ==> r == Err::<usize, SystemError>(SystemError::EPERM),
            old(self).spec_mode().spec_accmode() != 1 && old(buf)@.len() < len ==> r == Err::<usize, SystemError>(
                SystemError::ENOBUFS,
            ),
            old(self).pread_answer(offset, len, old(buf)@, final(buf)@, final(self).spec_private_data(), r),
    {
        self.do_read(offset, len, buf, false)
    }

    /// Writes up to `len` bytes of `buf` at `offset`; the file's position
    /// does not move. Fails as `write` does.
    pub fn pwrite(&mut self, offset: usize, len: usize, buf: &[u8]) -> (r: Result<usize, SystemError>)
        ensures
            final(self).spec_inode() == old(self).spec_inode(),
            final(self).spec_mode() == old(self).spec_mode(),
            final(self).spec_offset() == old(self).spec_offset(),
            old(self).spec_mode().spec_accmode() == 0 ==> r == Err::<usize, SystemError>(SystemError::EPERM),
            old(self).spec_mode().spec_accmode() != 0 && buf@.len() < len ==> r == Err::<usize, SystemError>(
                SystemError::ENOBUFS,
            ),
            old(self).pwrite_answer(offset, len, buf@, final(self).spec_private_data(), r),
    {
        self.do_write(offset, len, buf, false)
    }

    /// Moves the file's position and returns it.
    ///
    /// Pipes and character devices cannot seek (`ESPIPE`); the type comes
    /// from the node's metadata. From the end, the node's size is read
    /// again from its metadata. An invalid origin gives `EINVAL`, and a
    /// position that would be negative gives `EOVERFLOW`. The position may
    /// lie past the end of the file.
    pub fn lseek(&mut self, origin: SeekFrom) -> (r: Result<usize, SystemError>)
        ensures
            final(self).same_state_as(old(self)) || r is Ok,
            final(self).spec_inode() == old(self).spec_inode(),
            final(self).spec_mode() == old(self).spec_mode(),
            final(self).spec_file_type() == old(self).spec_file_type(),
            final(self).spec_private_data() == old(self).spec_private_data(),
            final(self).spec_cred() == old(self).spec_cred(),
            final(self).spec_subdirs_name() == old(self).spec_subdirs_name(),
            r is Err ==> final(self).spec_offset() == old(self).spec_offset(),
            r matches Ok(p) ==> final(self).spec_offset() == p,
            r matches Ok(p) ==> match origin {
                SeekFrom::SeekSet(o) => p == o,
                SeekFrom::SeekCurrent(o) => p == old(self).spec_offset() as i64 + o,
                SeekFrom::SeekEnd(_) => p <= i64::MAX,
                SeekFrom::Invalid => false,
            },
    {
        let file_type = match self.inode.metadata() {
            Ok(m) => m.file_type,
            Err(e) => {
                return Err(e);
            },
        };
        if file_type == FileType::Pipe || file_type == FileType::CharDevice {
            return lseek_position(file_type, origin, self.offset, 0);
        }
        let size: i64 = match origin {
            SeekFrom::SeekEnd(_) => match self.metadata() {
                Ok(m) => m.size,
                Err(e) => {
                    return Err(e);
                },
            },
            _ => 0,
        };
        let pos = match lseek_position(file_type, origin, self.offset, size) {
            Ok(p) => p,
            Err(e) => {
                return Err(e);
            },
        };
        self.offset = pos;
        Ok(pos)
    }

    /// Closes the file: tells the node, which may update its private data
    /// for this opening, and returns the node's answer.
    pub fn close(&mut self) -> (r: Result<(), SystemError>)
        ensures
            final(self).same_state_as(old(self)),
    {
        self.inode.close(&mut self.private_data)
    }

    /// The node's metadata.
    pub fn metadata(&self) -> (r: Result<Metadata, SystemError>) {
        self.inode.metadata()
    }

    /// The name of the directory entry with number `ino`.
    pub fn get_entry_name(&self, ino: InodeId) -> (r: Result<String, SystemError>) {
        self.inode.get_entry_name(ino)
    }

    /// Lists the directory the file is open on into `ctx`, from the file's
    /// position on.
    ///
    /// The node lists its entry names, and `read_dir_names` walks them from
    /// the position on; a failed listing is returned and nothing moves.
    pub fn read_dir(&mut self, ctx: &mut FilldirContext) -> (r: Result<(), SystemError>)
        ensures
            final(self).spec_inode() == old(self).spec_inode(),
            final(self).spec_mode() == old(self).spec_mode(),
            final(self).spec_file_type() == old(self).spec_file_type(),
            final(self).spec_cred() == old(self).spec_cred(),
            final(self).spec_private_data() == old(self).spec_private_data(),
            final(self).spec_subdirs_name() == old(self).spec_subdirs_name(),
            old(self).spec_offset() <= final(self).spec_offset(),
            final(ctx).spec_entries().len() == old(ctx).spec_entries().len() + (final(self).spec_offset()
                - old(self).spec_offset()),
            final(ctx).spec_entries().subrange(0, old(ctx).spec_entries().len() as int)
                == old(ctx).spec_entries(),
            forall|k: int|
                #![trigger final(ctx).spec_entries()[k]]
                old(ctx).spec_entries().len() <= k < final(ctx).spec_entries().len()
                    ==> final(ctx).spec_entries()[k].off
                    == (old(self).spec_offset() + (k - old(ctx).spec_entries().len())) as i64,
            final(ctx).spec_remain() <= old(ctx).spec_remain(),
            final(ctx).spec_error() == old(ctx).spec_error(),
    {
        let names = match self.inode.list() {
            Ok(v) => v,
            Err(e) => {
                return Err(e);
            },
        };
        self.read_dir_names(ctx, &names)
    }

    /// Lists the entries `names` of the directory the file is open on into
    /// `ctx`, from the file's position on.
    ///
    /// For each name from the position on, in order, the entry is looked up
    /// in the node and its metadata read, and a record of it (its name, its
    /// position, and the entry's inode number and type) is appended to
    /// `ctx`; the position moves past each record written. The walk ends
    /// without error when the names run out or when the next record does
    /// not fit in `ctx`, that entry staying unread; it ends with the node's
    /// error when a lookup or a metadata read fails, at that entry.
    pub fn read_dir_names(&mut self, ctx: &mut FilldirContext, names: &Vec<String>) -> (r: Result<(), SystemError>)
        ensures
            final(self).spec_inode() == old(self).spec_inode(),
            final(self).spec_mode() == old(self).spec_mode(),
            final(self).spec_file_type() == old(self).spec_file_type(),
            final(self).spec_cred() == old(self).spec_cred(),
            final(self).spec_private_data() == old(self).spec_private_data(),
            final(self).spec_subdirs_name() == old(self).spec_subdirs_name(),
            old(self).spec_offset() <= final(self).spec_offset(),
            final(self).spec_offset() <= old(self).spec_offset() || final(self).spec_offset() <= names@.len(),
            final(ctx).spec_entries().len() == old(ctx).spec_entries().len() + (final(self).spec_offset()
                - old(self).spec_offset()),
            final(ctx).spec_entries().subrange(0, old(ctx).spec_entries().len() as int)
                == old(ctx).spec_entries(),
            forall|k: int|
                #![trigger final(ctx).spec_entries()[k]]
                old(ctx).spec_entries().len() <= k < final(ctx).spec_entries().len() ==> {
                    &&& final(ctx).spec_entries()[k].off == (old(self).spec_offset() + (k - old(
                        ctx,
                    ).spec_entries().len())) as i64
                    &&& final(ctx).spec_entries()[k].name@ == names@[old(self).spec_offset() + (k
                        - old(ctx).spec_entries().len())]@
                },
            r is Ok ==> final(self).spec_offset() >= names@.len() || spec_reclen(
                str_len_of(names@[final(self).spec_offset() as int]@) as nat,
            ) > final(ctx).spec_remain(),
            r is Err ==> final(self).spec_offset() < names@.len(),
            final(ctx).spec_remain() <= old(ctx).spec_remain(),
            final(ctx).spec_error() == old(ctx).spec_error(),
    {
        let mut current_pos = self.offset;
        let subdirs_name_len = names.len();
        let ghost n0 = ctx.spec_entries().len();
        let ghost p0 = self.offset;
        while current_pos < subdirs_name_len
            invariant
                self.offset == current_pos,
                p0 == old(self).spec_offset(),
                p0 <= current_pos,
                current_pos <= p0 || current_pos <= subdirs_name_len,
                subdirs_name_len == names@.len(),
                self.inode == old(self).inode,
                self.mode == old(self).mode,
                self.file_type == old(self).file_type,
                self.cred == old(self).cred,
                self.private_data == old(self).private_data,
                self.readdir_subdirs_name@ == old(self).readdir_subdirs_name@,
                n0 == old(ctx).spec_entries().len(),
                ctx.spec_entries().len() == n0 + (current_pos - p0),
                ctx.spec_entries().subrange(0, n0 as int) == old(ctx).spec_entries(),
                forall|k: int|
                    #![trigger ctx.spec_entries()[k]]
                    n0 <= k < ctx.spec_entries().len() ==> {
                        &&& ctx.spec_entries()[k].off == (p0 + (k - n0)) as i64
                        &&& ctx.spec_entries()[k].name@ == names@[p0 + (k - n0)]@
                    },
                ctx.spec_remain() <= old(ctx).spec_remain(),
                ctx.spec_error() == old(ctx).spec_error(),
            decreases subdirs_name_len - current_pos,
        {
            let name: &str = names[current_pos].as_str();
            assert(name@ == names@[current_pos as int]@);
            assert(name.len() == str_len_of(names@[current_pos as int]@));
            let lookup = match self.inode.find(name) {
                Ok(sub_inode) => sub_inode.metadata(),
                Err(e) => Err(e),
            };
            let ghost before = ctx.spec_entries();
            match fill_entry(ctx, name, current_pos, lookup) {
                None => {
                    proof {
                        assert forall|k: int|
                            #![trigger ctx.spec_entries()[k]]
                            n0 <= k < ctx.spec_entries().len() implies {
                                &&& ctx.spec_entries()[k].off == (p0 + (k - n0)) as i64
                                &&& ctx.spec_entries()[k].name@ == names@[p0 + (k - n0)]@
                            } by {
                            if k < before.len() {
                                assert(ctx.spec_entries()[k] == ctx.spec_entries().subrange(
                                    0,
                                    before.len() as int,
                                )[k]);
                            }
                        }
                        assert(ctx.spec_entries().subrange(0, n0 as int) =~= before.subrange(0, n0 as int));
                    }
                    self.offset = self.offset + 1;
                    current_pos += 1;
                },
                Some(result) => {
                    return result;
                },
            }
        }
        Ok(())
    }

    /// Fails with `EPERM` when the file's access mode is write-only.
    pub fn readable(&self) -> (r: Result<(), SystemError>)
        ensures
            r == if self.spec_mode().spec_accmode() == 1 {
                Err::<(), SystemError>(SystemError::EPERM)
            } else {
                Ok(())
            },
    {
        if self.mode.accmode() == FileMode::O_WRONLY().bits() {
            return Err(SystemError::EPERM);
        }
        Ok(())
    }

    /// Fails with `EPERM` when the file's access mode is read-only.
    pub fn writeable(&self) -> (r: Result<(), SystemError>)
        ensures
            r == if self.spec_mode().spec_accmode() == 0 {
                Err::<(), SystemError>(SystemError::EPERM)
            } else {
                Ok(())
            },
    {
        if self.mode.accmode() == FileMode::O_RDONLY().bits() {
            return Err(SystemError::EPERM);
        }
        Ok(())
    }

    /// Sets or clears the file's close-on-exec flag; no other bit of the
    /// mode changes.
    pub fn set_close_on_exec(&mut self, close_on_exec: bool)
        ensures
            final(self).spec_close_on_exec() == close_on_exec,
            final(self).spec_mode()@ == if close_on_exec {
                old(self).spec_mode()@ | 0o2000000
            } else {
                old(self).spec_mode()@ & !0o2000000u32
            },
            final(self).spec_inode() == old(self).spec_inode(),
            final(self).spec_offset() == old(self).spec_offset(),
            final(self).spec_file_type() == old(self).spec_file_type(),
            final(self).spec_private_data() == old(self).spec_private_data(),
    {
        let ghost m = self.mode@;
        if close_on_exec {
            self.mode.insert(FileMode::O_CLOEXEC());
            assert((m | 0o2000000u32) & 0o2000000u32 == 0o2000000u32) by (bit_vector);
        } else {
            self.mode.remove(FileMode::O_CLOEXEC());
            assert((m & !0o2000000u32) & 0o2000000u32 != 0o2000000u32) by (bit_vector);
        }
    }

    /// Cuts or grows the node's content to `len` bytes; fails with `EPERM`
    /// when the file was opened read-only.
    pub fn ftruncate(&self, len: usize) -> (r: Result<(), SystemError>)
        ensures
            self.spec_mode().spec_accmode() == 0 ==> r == Err::<(), SystemError>(SystemError::EPERM),
    {
        match self.writeable() {
            Ok(()) => {},
            Err(e) => {
                return Err(e);
            },
        }
        self.inode.resize(len)
    }

    /// The type of the node the file was opened on.
    pub fn file_type(&self) -> (r: FileType)
        ensures
            r == self.spec_file_type(),
    {
        self.file_type
    }

    /// The mode the file is open with.
    pub fn mode(&self) -> (r: FileMode)
        ensures
            r == self.spec_mode(),
    {
        self.mode
    }

    /// Changes the mode, and tells the private data (a pipe end keeps it).
    pub fn set_mode(&mut self, mode: FileMode) -> (r: Result<(), SystemError>)
        ensures
            r is Ok,
            final(self).spec_mode() == mode,
            final(self).spec_inode() == old(self).spec_inode(),
            final(self).spec_offset() == old(self).spec_offset(),
            final(self).spec_file_type() == old(self).spec_file_type(),
            match old(self).spec_private_data() {
                FilePrivateData::Pipefs(_) => final(self).spec_private_data() == FilePrivateData::Pipefs(
                    crate::vfs::PipeFsPrivateData { mode },
                ),
                _ => final(self).spec_private_data() == old(self).spec_private_data(),
            },
    {
        self.mode = mode;
        self.private_data.update_mode(mode);
        Ok(())
    }

    /// The node the file was opened on.
    pub fn inode(&self) -> (r: Arc<I>)
        ensures
            r == self.spec_inode(),
    {
        self.inode.clone()
    }

    /// The file's position.
    pub fn offset(&self) -> (r: usize)
        ensures
            r == self.spec_offset(),
    {
        self.offset
    }

    /// Moves the file's position to `offset`.
    pub fn set_offset(&mut self, offset: usize)
        ensures
            final(self).spec_offset() == offset,
            final(self).spec_inode() == old(self).spec_inode(),
            final(self).spec_mode() == old(self).spec_mode(),
            final(self).spec_file_type() == old(self).spec_file_type(),
            final(self).spec_private_data() == old(self).spec_private_data(),
    {
        self.offset = offset;
    }
}

impl<I: IndexNode> FileOperations for File<I> {
    open spec fn spec_close_on_exec(&self) -> bool {
        self.spec_mode()@ & 0o2000000u32 == 0o2000000u32
    }

    open spec fn is_clone_of(&self, orig: &Self) -> bool {
        self.same_state_as(orig)
    }

    /// A duplicate is refused only where the node may refuse to be opened.
    open spec fn may_refuse_clone(&self) -> bool {
        self.spec_inode().may_refuse_open()
    }

    fn close_on_exec(&self) -> (r: bool) {
        self.mode.contains(FileMode::O_CLOEXEC())
    }

    fn try_clone(&self) -> (r: Option<Arc<Self>>) {
        let names = self.readdir_subdirs_name.clone();
        proof {
            assert forall|i: int| 0 <= i < names@.len() implies names@[i] == self.readdir_subdirs_name@[i] by {
                assert(vstd::pervasive::cloned::<String>(self.readdir_subdirs_name@[i], names@[i]));
            }
            assert(names@ =~= self.readdir_subdirs_name@);
        }
        let mut cloned_file = File {
            inode: self.inode.clone(),
            offset: self.offset,
            mode: self.mode,
            file_type: self.file_type,
            readdir_subdirs_name: names,
            private_data: self.private_data,
            cred: self.cred,
        };
        let mode = cloned_file.mode;
        match self.inode.open(&mut cloned_file.private_data, &mode) {
            Ok(()) => {},
            Err(_) => {
                return None;
            },
        }
        Some(Arc::new(cloned_file))
    }
}

/// Opening a named pipe opens the pipe behind it, whichever it is; opening
/// a node of any other type opens that node, whatever node it names.
pub proof fn law_named_pipe_opens_its_pipe<I: IndexNode>(
    inode: Arc<I>,
    t: FileType,
    special: Option<SpecialNodeData<I>>,
)
    ensures
        special matches Some(SpecialNodeData::Pipe(p)) ==> (t == FileType::Pipe ==> spec_open_target(
            inode,
            t,
            special,
        ) == p),
        t != FileType::Pipe ==> spec_open_target(inode, t, special) == inode,
        special is None ==> spec_open_target(inode, t, special) == inode,
{
}

/// A positioned read does not depend on where the file is: two files open
/// on the same node with the same mode and private data, at whatever
/// positions, may get exactly the same answers to a read of `len` bytes at
/// `offset`.
pub proof fn law_pread_ignores_position<I: IndexNode>(
    f: File<I>,
    g: File<I>,
    offset: usize,
    len: usize,
    before: Seq<u8>,
    after: Seq<u8>,
    data_after: FilePrivateData,
    r: Result<usize, SystemError>,
)
    requires
        f.spec_inode() == g.spec_inode(),
        f.spec_mode() == g.spec_mode(),
        f.spec_private_data() == g.spec_private_data(),
    ensures
        f.pread_answer(offset, len, before, after, data_after, r) == g.pread_answer(
            offset,
            len,
            before,
            after,
            data_after,
            r,
        ),
{
}

/// A read reads at the file's position: a read through `f` may get exactly
/// the answers that a positioned read at `f`'s position may get, through
/// `f` or through any file open on the same node with the same mode and
/// private data.
pub proof fn law_read_is_pread_at_position<I: IndexNode>(
    f: File<I>,
    g: File<I>,
    len: usize,
    before: Seq<u8>,
    after: Seq<u8>,
    data_after: FilePrivateData,
    r: Result<usize, SystemError>,
)
    requires
        f.spec_inode() == g.spec_inode(),
        f.spec_mode() == g.spec_mode(),
        f.spec_private_data() == g.spec_private_data(),
    ensures
        f.read_answer(len, before, after, data_after, r) == g.pread_answer(
            f.spec_offset(),
            len,
            before,
            after,
            data_after,
            r,
        ),
{
}

/// A positioned write does not depend on where the file is: two files
/// open on the same node with the same mode and private data, at whatever
/// positions, may get exactly the same answers to a write of `len` bytes
/// of `buf` at `offset`.
pub proof fn law_pwrite_ignores_position<I: IndexNode>(
    f: File<I>,
    g: File<I>,
    offset: usize,
    len: usize,
    buf: Seq<u8>,
    data_after: FilePrivateData,
    r: Result<usize, SystemError>,
)
    requires
        f.spec_inode() == g.spec_inode(),
        f.spec_mode() == g.spec_mode(),
        f.spec_private_data() == g.spec_private_data(),
    ensures
        f.pwrite_answer(offset, len, buf, data_after, r) == g.pwrite_answer(offset, len, buf, data_after, r),
{
}

/// A write writes at the file's position: a write through `f` may get
/// exactly the answers that a positioned write at `f`'s position may get,
/// through `f` or through any file open on the same node with the same
/// mode and private data.
pub proof fn law_write_is_pwrite_at_position<I: IndexNode>(
    f: File<I>,
    g: File<I>,
    len: usize,
    buf: Seq<u8>,
    data_after: FilePrivateData,
    r: Result<usize, SystemError>,
)
    requires
        f.spec_inode() == g.spec_inode(),
        f.spec_mode() == g.spec_mode(),
        f.spec_private_data() == g.spec_private_data(),
    ensures
        f.write_answer(len, buf, data_after, r) == g.pwrite_answer(f.spec_offset(), len, buf, data_after, r),
{
}

/// Setting the close-on-exec flag to `b` and then asking for it gives `b`,
/// whatever the mode was before.
pub proof fn law_close_on_exec_after_set(mode: u32, b: bool)
    ensures
        ((if b {
            mode | 0o2000000u32
        } else {
            mode & !0o2000000u32
        }) & 0o2000000u32 == 0o2000000u32) == b,
{
    assert((mode | 0o2000000u32) & 0o2000000u32 == 0o2000000u32) by (bit_vector);
    assert((mode & !0o2000000u32) & 0o2000000u32 != 0o2000000u32) by (bit_vector);
}

/// A seek to a position from the start lands there when the position is
/// not negative (and fits the machine's word), and fails with `EOVERFLOW`
/// when it is negative.
pub proof fn law_seek_set_lands(o: i64, current: usize, size: i64)
    ensures
        0 <= o <= usize::MAX ==> spec_seek_position(SeekFrom::SeekSet(o), current, size) == Ok::<
            usize,
            SystemError,
        >(o as usize),
        o < 0 ==> spec_seek_position(SeekFrom::SeekSet(o), current, size) == Err::<usize, SystemError>(
            SystemError::EOVERFLOW,
        ),
{
}

/// A seek by zero from the current position stays where the file is.
pub proof fn law_seek_current_zero_stays(current: usize, size: i64)
    requires
        current <= i64::MAX,
    ensures
        spec_seek_position(SeekFrom::SeekCurrent(0), current, size) == Ok::<usize, SystemError>(current),
{
}

/// A seek to a position from the start does not depend on where the file
/// was: seeking there twice gives what seeking once gives.
pub proof fn law_seek_set_twice(t: FileType, o: i64, current: usize, size: i64)
    ensures
        spec_lseek_position(t, SeekFrom::SeekSet(o), current, size) matches Ok(p) ==> spec_lseek_position(
            t,
            SeekFrom::SeekSet(o),
            p,
            size,
        ) == Ok::<usize, SystemError>(p),
{
}

} // verus!
