use vstd::prelude::*;
use vstd::rwlock::{RwLock, RwLockPredicate};
use std::sync::Arc;

use crate::errno::SystemError;
use crate::file::File;
use crate::file_mode::FileMode;
use crate::vfs::{
    DeviceNumber, FilePrivateData, FileType, IndexNode, InodeId, Metadata, ModeType, PosixTimeSpec,
};

verus! {

/// The state of the `/dev/urandom` node.
pub struct UrandomInode {
    /// The node's metadata.
    metadata: Metadata,
}

/// What always holds of the urandom node's metadata: only its times, mode
/// and owners ever change.
pub struct UrandomInv {
    pub inode_id: InodeId,
}

/// The metadata fields of the urandom node that never change.
pub open spec fn urandom_fixed(m: Metadata, inode_id: InodeId) -> bool {
    &&& m.dev_id == 1
    &&& m.inode_id == inode_id
    &&& m.size == 0
    &&& m.blk_size == 0
    &&& m.blocks == 0
    &&& m.file_type == FileType::CharDevice
    &&& m.nlinks == 1
    &&& m.raw_dev == DeviceNumber { data: 0 }
}

impl RwLockPredicate<UrandomInode> for UrandomInv {
    closed spec fn inv(self, v: UrandomInode) -> bool {
        urandom_fixed(v.metadata, self.inode_id)
    }
}

/// The metadata of a new urandom node with number `inode_id`: a character
/// device of device 1, empty, with one link, owned by root, readable and
/// writable by all (mode `0o666`), all of its times at the epoch.
pub fn urandom_initial_metadata(inode_id: InodeId) -> (m: Metadata)
    ensures
        urandom_fixed(m, inode_id),
        m.mode@ == 0o666,
        m.uid == 0 && m.gid == 0,
        m.atime.tv_sec == 0 && m.atime.tv_nsec == 0,
        m.mtime.tv_sec == 0 && m.mtime.tv_nsec == 0,
        m.ctime.tv_sec == 0 && m.ctime.tv_nsec == 0,
        m.btime.tv_sec == 0 && m.btime.tv_nsec == 0,
{
    let mode = ModeType::from_bits_truncate(0o666);
    assert(0o666u32 & 0o177777u32 == 0o666u32) by (bit_vector);
    Metadata {
        dev_id: 1,
        inode_id,
        size: 0,
        blk_size: 0,
        blocks: 0,
        atime: PosixTimeSpec::zero(),
        mtime: PosixTimeSpec::zero(),
        ctime: PosixTimeSpec::zero(),
        btime: PosixTimeSpec::zero(),
        file_type: FileType::CharDevice,
        mode,
        nlinks: 1,
        uid: 0,
        gid: 0,
        raw_dev: DeviceNumber { data: 0 },
    }
}

/// The urandom node's metadata after `set_metadata` with `new`: the four
/// times, the mode and the owners come from `new`; every other field stays
/// as in `current`.
pub fn urandom_updated_metadata(current: Metadata, new: &Metadata) -> (m: Metadata)
    ensures
        m == (Metadata {
            atime: new.atime,
            mtime: new.mtime,
            ctime: new.ctime,
            btime: new.btime,
            mode: new.mode,
            uid: new.uid,
            gid: new.gid,
            ..current
        }),
{
    let mut m = current;
    m.atime = new.atime;
    m.mtime = new.mtime;
    m.ctime = new.ctime;
    m.btime = new.btime;
    m.mode = new.mode;
    m.uid = new.uid;
    m.gid = new.gid;
    m
}

/// The `/dev/urandom` character device, behind a lock.
pub struct LockedUrandomInode {
    inner: RwLock<UrandomInode, UrandomInv>,
}

impl LockedUrandomInode {
    /// The node's number.
    pub closed spec fn spec_inode_id(&self) -> InodeId {
        self.inner.pred().inode_id
    }

    /// A new urandom node with number `inode_id`: a character device of
    /// device 1, empty, with one link, owned by root and readable and
    /// writable by all (mode `0o666`).
    pub fn new(inode_id: InodeId) -> (r: Arc<Self>)
        ensures
            r.spec_inode_id() == inode_id,
    {
        let metadata = urandom_initial_metadata(inode_id);
        let inode = UrandomInode { metadata };
        let inner = RwLock::new(inode, Ghost(UrandomInv { inode_id }));
        Arc::new(LockedUrandomInode { inner })
    }

    /// Fills `buf` with random data: byte `i` becomes byte `i` of `random`,
    /// the output of the random source.
    pub fn fill_random(&self, buf: &mut [u8], random: &[u8])
        requires
            random@.len() >= old(buf)@.len(),
        ensures
            final(buf)@.len() == old(buf)@.len(),
            forall|i: int| 0 <= i < final(buf)@.len() ==> final(buf)@[i] == random@[i],
    {
        let mut i: usize = 0;
        while i < buf.len()
            invariant
                i <= buf@.len(),
                buf@.len() == old(buf)@.len(),
                random@.len() >= buf@.len(),
                forall|j: int| 0 <= j < i ==> buf@[j] == random@[j],
            decreases buf@.len() - i,
        {
            buf[i] = random[i];
            i += 1;
        }
    }

    /// The bytes this device's random source gives for a read of `len`
    /// bytes. The device has no generator yet: they are all zero.
    pub fn random_source(&self, len: usize) -> (r: Vec<u8>)
        ensures
            r@.len() == len,
            forall|i: int| 0 <= i < len ==> r@[i] == 0,
    {
        let mut v: Vec<u8> = Vec::new();
        while v.len() < len
            invariant
                v@.len() <= len,
                forall|i: int| 0 <= i < v@.len() ==> v@[i] == 0,
            decreases len - v@.len(),
        {
            v.push(0);
        }
        v
    }
}

impl IndexNode for LockedUrandomInode {
    /// Opening is never refused.
    open spec fn may_refuse_open(&self) -> bool {
        false
    }

    /// Only reads at offset 0 into a buffer of at least `len` bytes are
    /// served: they give `len` zero bytes at the front of the buffer.
    /// Otherwise the buffer is left as it was, with `ESPIPE` at another
    /// offset and `EINVAL` for a short buffer. The private data never
    /// changes.
    open spec fn read_at_answer(
        &self,
        offset: usize,
        len: usize,
        before: Seq<u8>,
        after: Seq<u8>,
        data_before: FilePrivateData,
        data_after: FilePrivateData,
        r: Result<usize, SystemError>,
    ) -> bool {
        &&& data_after == data_before
        &&& after.len() == before.len()
        &&& offset != 0 ==> r == Err::<usize, SystemError>(SystemError::ESPIPE) && after == before
        &&& offset == 0 && before.len() < len ==> r == Err::<usize, SystemError>(SystemError::EINVAL)
            && after == before
        &&& offset == 0 && before.len() >= len ==> {
            &&& r == Ok::<usize, SystemError>(len)
            &&& forall|i: int| 0 <= i < len ==> after[i] == 0
            &&& forall|i: int| len <= i < before.len() ==> after[i] == before[i]
        }
    }

    /// Every write of `len` bytes from a buffer that holds them is accepted
    /// whole, whatever the offset; a short buffer gives `EINVAL`. The
    /// private data never changes.
    open spec fn write_at_answer(
        &self,
        offset: usize,
        len: usize,
        buf: Seq<u8>,
        data_before: FilePrivateData,
        data_after: FilePrivateData,
        r: Result<usize, SystemError>,
    ) -> bool {
        &&& data_after == data_before
        &&& r == if buf.len() < len {
            Err::<usize, SystemError>(SystemError::EINVAL)
        } else {
            Ok::<usize, SystemError>(len)
        }
    }

    /// Opening always succeeds.
    fn open(&self, _data: &mut FilePrivateData, _mode: &FileMode) -> (r: Result<(), SystemError>)
        ensures
            r is Ok,
            *final(_data) == *old(_data),
    {
        Ok(())
    }

    /// Closing always succeeds.
    fn close(&self, _data: &mut FilePrivateData) -> (r: Result<(), SystemError>)
        ensures
            r is Ok,
            *final(_data) == *old(_data),
    {
        Ok(())
    }

    /// The node's metadata: it always succeeds, and the fields that never
    /// change are those the node was made with.
    fn metadata(&self) -> (r: Result<Metadata, SystemError>)
        ensures
            r matches Ok(m) && urandom_fixed(m, self.spec_inode_id()),
    {
        let handle = self.inner.acquire_read();
        let m = handle.borrow().metadata;
        handle.release_read();
        Ok(m)
    }

    /// A device has no entries to list.
    fn list(&self) -> (r: Result<Vec<String>, SystemError>)
        ensures
            r == Err::<Vec<String>, SystemError>(SystemError::ENOSYS),
    {
        Err(SystemError::ENOSYS)
    }

    /// Takes the times, mode and owners of `metadata`; the other fields
    /// stay as they are.
    fn set_metadata(&self, metadata: &Metadata) -> (r: Result<(), SystemError>)
        ensures
            r is Ok,
    {
        let (mut inode, handle) = self.inner.acquire_write();
        inode.metadata = urandom_updated_metadata(inode.metadata, metadata);
        handle.release_write(inode);
        Ok(())
    }

    /// Reads `len` bytes of the random source (all zero) into the front of
    /// `buf`.
    ///
    /// Only reads from offset 0 are served (`ESPIPE` otherwise), and `buf`
    /// must hold `len` bytes (`EINVAL` otherwise).
    fn read_at(&self, offset: usize, len: usize, buf: &mut [u8], _data: &mut FilePrivateData) -> (r: Result<usize, SystemError>)
        ensures
            *final(_data) == *old(_data),
            final(buf)@.len() == old(buf)@.len(),
            offset != 0 ==> r == Err::<usize, SystemError>(SystemError::ESPIPE) && final(buf)@ == old(buf)@,
            offset == 0 && old(buf)@.len() < len ==> r == Err::<usize, SystemError>(SystemError::EINVAL)
                && final(buf)@ == old(buf)@,
            offset == 0 && old(buf)@.len() >= len ==> {
                &&& r == Ok::<usize, SystemError>(len)
                &&& forall|i: int| 0 <= i < len ==> final(buf)@[i] == 0
                &&& forall|i: int| len <= i < old(buf)@.len() ==> final(buf)@[i] == old(buf)@[i]
            },
    {
        if offset != 0 {
            return Err(SystemError::ESPIPE);
        }
        if buf.len() < len {
            return Err(SystemError::EINVAL);
        }
        let random = self.random_source(len);
        let (head, tail) = buf.split_at_mut(len);
        let source = random.as_slice();
        self.fill_random(head, source);
        assert(head@.len() == len);
        assert(forall|i: int| 0 <= i < head@.len() ==> head@[i] == source@[i]);
        assert forall|i: int| 0 <= i < len implies head@[i] == 0 by {
            assert(head@[i] == source@[i]);
            assert(source@[i] == random@[i]);
        }
        Ok(len)
    }

    /// Accepts `len` bytes and discards them; `buf` must hold `len` bytes
    /// (`EINVAL` otherwise).
    fn write_at(&self, _offset: usize, len: usize, buf: &[u8], _data: &mut FilePrivateData) -> (r: Result<usize, SystemError>)
        ensures
            *final(_data) == *old(_data),
            r == if buf@.len() < len {
                Err::<usize, SystemError>(SystemError::EINVAL)
            } else {
                Ok::<usize, SystemError>(len)
            },
    {
        if buf.len() < len {
            return Err(SystemError::EINVAL);
        }
        Ok(len)
    }
}


/// A positioned read through a file on `/dev/urandom`, open for reading
/// and not with `O_DIRECT`, into a buffer that holds `len` bytes: at offset
/// 0 it gives `len` zero bytes at the front of the buffer; at any other
/// offset it fails with `ESPIPE` and leaves the buffer as it was. Where the
/// file's position is plays no part.
pub proof fn law_urandom_pread(
    f: File<LockedUrandomInode>,
    offset: usize,
    len: usize,
    before: Seq<u8>,
    after: Seq<u8>,
    data_after: FilePrivateData,
    r: Result<usize, SystemError>,
)
    requires
        f.spec_mode().spec_accmode() != 1,
        f.spec_mode()@ & 0o40000u32 != 0o40000u32,
        before.len() >= len,
        f.pread_answer(offset, len, before, after, data_after, r),
    ensures
        offset != 0 ==> r == Err::<usize, SystemError>(SystemError::ESPIPE) && after == before,
        offset == 0 ==> r == Ok::<usize, SystemError>(len) && forall|i: int| 0 <= i < len ==> after[i] == 0,
        data_after == f.spec_private_data(),
{
}

/// A successful positioned write through a file on `/dev/urandom` that is
/// open for writing takes every byte it was given, at any offset.
pub proof fn law_urandom_pwrite_takes_all(
    f: File<LockedUrandomInode>,
    offset: usize,
    len: usize,
    buf: Seq<u8>,
    data_after: FilePrivateData,
    r: Result<usize, SystemError>,
)
    requires
        f.spec_mode().spec_accmode() != 0,
        buf.len() >= len,
        r is Ok,
        f.pwrite_answer(offset, len, buf, data_after, r),
    ensures
        r == Ok::<usize, SystemError>(len),
        data_after == f.spec_private_data(),
{
}

} // verus!
