use vstd::prelude::*;

use crate::errno::SystemError;
use crate::vfs::{spec_file_type_num, Metadata};

verus! {

/// The bytes a directory record takes before its name: inode number (8),
/// offset (8), record length (2) and type (1).
pub const DIRENT_HEADER_SIZE: usize = 19;

/// The bytes a record for a name of `name_len` bytes takes: the header, the
/// name and its terminating zero, rounded up to a multiple of eight.
pub open spec fn spec_reclen(name_len: nat) -> nat {
    let raw = DIRENT_HEADER_SIZE + name_len + 1;
    ((raw + 7) / 8 * 8) as nat
}

/// The length in bytes of the UTF-8 text of `chars`, as a `str` of those
/// characters reports it.
pub open spec fn str_len_of(chars: Seq<char>) -> usize {
    vstd::utf8::encode_utf8(chars).len() as usize
}

/// One directory record.
pub struct DirEntry {
    pub ino: u64,
    pub off: i64,
    pub reclen: u16,
    pub d_type: u8,
    pub name: String,
}

/// The buffer that a directory listing fills, record by record, until it
/// has no room for the next one.
pub struct FilldirContext {
    entries: Vec<DirEntry>,
    remain_size: usize,
    error: Option<SystemError>,
}

impl FilldirContext {
    /// The records written so far.
    pub closed spec fn spec_entries(&self) -> Seq<DirEntry> {
        self.entries@
    }

    /// The error a listing stopped on, if any.
    pub closed spec fn spec_error(&self) -> Option<SystemError> {
        self.error
    }

    /// The bytes still free.
    pub closed spec fn spec_remain(&self) -> usize {
        self.remain_size
    }

    /// An empty buffer of `size` bytes.
    pub fn new(size: usize) -> (r: Self)
        ensures
            r.spec_entries().len() == 0,
            r.spec_remain() == size,
            r.spec_error() is None,
    {
        FilldirContext { entries: Vec::new(), remain_size: size, error: None }
    }

    /// Records the error a listing stopped on.
    pub fn set_error(&mut self, e: SystemError)
        ensures
            final(self).spec_error() == Some(e),
            final(self).spec_entries() == old(self).spec_entries(),
            final(self).spec_remain() == old(self).spec_remain(),
    {
        self.error = Some(e);
    }

    /// The error a listing stopped on, if any.
    pub fn error(&self) -> (r: Option<SystemError>)
        ensures
            r == self.spec_error(),
    {
        self.error
    }

    /// How many records were written.
    pub fn len(&self) -> (r: usize)
        ensures
            r == self.spec_entries().len(),
    {
        self.entries.len()
    }

    /// The bytes still free.
    pub fn remain_size(&self) -> (r: usize)
        ensures
            r == self.spec_remain(),
    {
        self.remain_size
    }

    /// The name of record `i`.
    pub fn name_at(&self, i: usize) -> (r: &String)
        requires
            i < self.spec_entries().len(),
        ensures
            *r == self.spec_entries()[i as int].name,
    {
        &self.entries[i].name
    }

    /// The inode number, offset, record length and type of record `i`.
    pub fn header_at(&self, i: usize) -> (r: (u64, i64, u16, u8))
        requires
            i < self.spec_entries().len(),
        ensures
            r.0 == self.spec_entries()[i as int].ino,
            r.1 == self.spec_entries()[i as int].off,
            r.2 == self.spec_entries()[i as int].reclen,
            r.3 == self.spec_entries()[i as int].d_type,
    {
        let e = &self.entries[i];
        (e.ino, e.off, e.reclen, e.d_type)
    }

    /// Appends the record of `name` when it fits, and fails with `EINVAL`,
    /// changing nothing, when it does not.
    pub fn fill_dir(&mut self, name: &str, offset: usize, ino: u64, d_type: u8) -> (r: Result<(), SystemError>)
        ensures
            final(self).spec_error() == old(self).spec_error(),
            spec_reclen(name.len() as nat) <= old(self).spec_remain() ==> {
                &&& r is Ok
                &&& final(self).spec_remain() == old(self).spec_remain() - spec_reclen(name.len() as nat)
                &&& final(self).spec_entries().len() == old(self).spec_entries().len() + 1
                &&& final(self).spec_entries().subrange(0, old(self).spec_entries().len() as int)
                    == old(self).spec_entries()
                &&& final(self).spec_entries().last().ino == ino
                &&& final(self).spec_entries().last().off == offset as i64
                &&& final(self).spec_entries().last().reclen == spec_reclen(name.len() as nat) as u16
                &&& final(self).spec_entries().last().d_type == d_type
                &&& final(self).spec_entries().last().name@ == name@
            },
            spec_reclen(name.len() as nat) > old(self).spec_remain() ==> {
                &&& r == Err::<(), SystemError>(SystemError::EINVAL)
                &&& final(self).spec_entries() == old(self).spec_entries()
                &&& final(self).spec_remain() == old(self).spec_remain()
            },
    {
        let name_len = name.len();
        if self.remain_size < DIRENT_HEADER_SIZE + 1 || name_len > self.remain_size - (DIRENT_HEADER_SIZE + 1) {
            return Err(SystemError::EINVAL);
        }
        let raw = DIRENT_HEADER_SIZE + name_len + 1;
        let pad = (8 - raw % 8) % 8;
        assert(raw + pad == (raw + 7) / 8 * 8) by (nonlinear_arith)
            requires
                pad == (8 - raw % 8) % 8,
        ;
        if pad > self.remain_size - raw {
            return Err(SystemError::EINVAL);
        }
        let reclen = raw + pad;
        assert(reclen == spec_reclen(name_len as nat));
        self.entries.push(
            DirEntry {
                ino,
                off: #[verifier::truncate] (offset as i64),
                reclen: #[verifier::truncate] (reclen as u16),
                d_type,
                name: name.to_owned(),
            },
        );
        self.remain_size = self.remain_size - reclen;
        Ok(())
    }
}

/// Lists one directory entry, the one at position `pos` called `name`,
/// given what looking it up gave.
///
/// A failed lookup ends the listing with its error and writes nothing. A
/// found entry gets a record with the entry's inode number and type, and
/// the listing goes on (`None`); when the record does not fit, the listing
/// ends without error and nothing is written.
pub fn fill_entry(ctx: &mut FilldirContext, name: &str, pos: usize, lookup: Result<Metadata, SystemError>) -> (r: Option<Result<(), SystemError>>)
    ensures
        final(ctx).spec_error() == old(ctx).spec_error(),
        match lookup {
            Err(e) => {
                &&& r == Some(Err::<(), SystemError>(e))
                &&& final(ctx).spec_entries() == old(ctx).spec_entries()
                &&& final(ctx).spec_remain() == old(ctx).spec_remain()
            },
            Ok(m) => if spec_reclen(name.len() as nat) <= old(ctx).spec_remain() {
                &&& r is None
                &&& final(ctx).spec_remain() == old(ctx).spec_remain() - spec_reclen(name.len() as nat)
                &&& final(ctx).spec_entries().len() == old(ctx).spec_entries().len() + 1
                &&& final(ctx).spec_entries().subrange(0, old(ctx).spec_entries().len() as int)
                    == old(ctx).spec_entries()
                &&& final(ctx).spec_entries().last().ino == m.inode_id.id as u64
                &&& final(ctx).spec_entries().last().off == pos as i64
                &&& final(ctx).spec_entries().last().reclen == spec_reclen(name.len() as nat) as u16
                &&& final(ctx).spec_entries().last().d_type == spec_file_type_num(m.file_type) as u8
                &&& final(ctx).spec_entries().last().name@ == name@
            } else {
                &&& r == Some(Ok::<(), SystemError>(()))
                &&& final(ctx).spec_entries() == old(ctx).spec_entries()
                &&& final(ctx).spec_remain() == old(ctx).spec_remain()
            },
        },
{
    let m = match lookup {
        Ok(m) => m,
        Err(e) => {
            return Some(Err(e));
        },
    };
    let entry_ino = m.inode_id.id as u64;
    let entry_d_type = m.file_type.get_file_type_num() as u8;
    match ctx.fill_dir(name, pos, entry_ino, entry_d_type) {
        Ok(()) => None,
        Err(_) => Some(Ok(())),
    }
}

} // verus!
