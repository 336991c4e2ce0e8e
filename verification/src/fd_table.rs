use vstd::prelude::*;
use std::sync::Arc;

use crate::errno::SystemError;
use crate::file_operations::FileOperations;

verus! {

/// How many descriptors a process may hold.
pub const PROCESS_MAX_FD: usize = 1024;

/// The index of the first empty slot of `s` at or after `i`, or `s.len()`.
pub open spec fn first_free_from<A>(s: Seq<Option<A>>, i: int) -> int
    decreases s.len() - i,
{
    if i < 0 || i >= s.len() {
        s.len() as int
    } else if s[i] is None {
        i
    } else {
        first_free_from(s, i + 1)
    }
}

/// The index of the first empty slot of `s`, or `s.len()` when all are taken.
pub open spec fn first_free<A>(s: Seq<Option<A>>) -> int {
    first_free_from(s, 0)
}

/// How many slots of `s` hold a file.
pub open spec fn open_count<A>(s: Seq<Option<A>>) -> nat
    decreases s.len(),
{
    if s.len() == 0 {
        0
    } else {
        open_count(s.drop_last()) + if s.last() is Some {
            1nat
        } else {
            0nat
        }
    }
}

/// Whether `fd` is a descriptor number: one of the table's slots.
pub open spec fn spec_validate_fd(fd: i32) -> bool {
    0 <= fd < PROCESS_MAX_FD
}

/// The file under descriptor `fd` of table `s`.
pub open spec fn spec_get<A>(s: Seq<Option<A>>, fd: i32) -> Option<A> {
    if 0 <= fd < s.len() {
        s[fd as int]
    } else {
        None
    }
}

/// The table and the result after storing `file`, under `fd` when it is
/// given and otherwise under the lowest free descriptor.
pub open spec fn spec_alloc<A>(s: Seq<Option<A>>, file: A, fd: Option<i32>) -> (Seq<Option<A>>, Result<i32, SystemError>) {
    match fd {
        Some(n) => if s[n as int] is None {
            (s.update(n as int, Some(file)), Ok(n))
        } else {
            (s, Err(SystemError::EBADF))
        },
        None => {
            let k = first_free(s);
            if k < s.len() {
                (s.update(k, Some(file)), Ok(k as i32))
            } else {
                (s, Err(SystemError::EMFILE))
            }
        },
    }
}

/// The table and the result after releasing descriptor `fd`.
pub open spec fn spec_drop<A>(s: Seq<Option<A>>, fd: i32) -> (Seq<Option<A>>, Result<A, SystemError>) {
    match spec_get(s, fd) {
        Some(f) => (s.update(fd as int, None), Ok(f)),
        None => (s, Err(SystemError::EBADF)),
    }
}

/// The table of the descriptors a process holds: slot `i` holds the file
/// open under descriptor `i`, if any.
pub struct FileDescriptorVec<F: FileOperations> {
    fds: Vec<Option<Arc<F>>>,
}

impl<F: FileOperations> View for FileDescriptorVec<F> {
    type V = Seq<Option<Arc<F>>>;

    closed spec fn view(&self) -> Seq<Option<Arc<F>>> {
        self.fds@
    }
}

impl<F: FileOperations> FileDescriptorVec<F> {
    /// The table has exactly one slot per descriptor.
    pub open spec fn wf(&self) -> bool {
        self@.len() == PROCESS_MAX_FD
    }

    /// A table with every descriptor free.
    pub fn new() -> (r: Self)
        ensures
            r.wf(),
            r@.len() == PROCESS_MAX_FD,
            forall|i: int| 0 <= i < PROCESS_MAX_FD ==> r@[i] is None,
    {
        let mut data: Vec<Option<Arc<F>>> = Vec::with_capacity(PROCESS_MAX_FD);
        let mut i: usize = 0;
        while i < PROCESS_MAX_FD
            invariant
                i <= PROCESS_MAX_FD,
                data@.len() == i,
                forall|j: int| 0 <= j < i ==> data@[j] is None,
            decreases PROCESS_MAX_FD - i,
        {
            data.push(None);
            i += 1;
        }
        FileDescriptorVec { fds: data }
    }

    /// A table where each file of `self` is replaced by its duplicate; a
    /// descriptor whose file refuses to be duplicated is free in the copy.
    /// Every open descriptor is duplicated, close-on-exec or not.
    pub fn clone(&self) -> (r: Self)
        requires
            self.wf(),
        ensures
            r.wf(),
            forall|i: int|
                0 <= i < PROCESS_MAX_FD ==> match #[trigger] r@[i] {
                    None => true,
                    Some(c) => self@[i] matches Some(f) && (*c).is_clone_of(&*f),
                },
            forall|i: int| 0 <= i < PROCESS_MAX_FD && self@[i] is None ==> #[trigger] r@[i] is None,
            forall|i: int|
                0 <= i < PROCESS_MAX_FD && self@[i] is Some && !(*self@[i]->0).may_refuse_clone()
                    ==> #[trigger] r@[i] is Some,
    {
        let mut res = FileDescriptorVec::<F>::new();
        let mut i: usize = 0;
        while i < PROCESS_MAX_FD
            invariant
                self.wf(),
                res.wf(),
                i <= PROCESS_MAX_FD,
                forall|j: int|
                    0 <= j < PROCESS_MAX_FD ==> match #[trigger] res@[j] {
                        None => true,
                        Some(c) => j < i && (self@[j] matches Some(f) && (*c).is_clone_of(&*f)),
                    },
                forall|j: int|
                    0 <= j < i && self@[j] is Some && !(*self@[j]->0).may_refuse_clone()
                        ==> #[trigger] res@[j] is Some,
            decreases PROCESS_MAX_FD - i,
        {
            if let Some(file) = &self.fds[i] {
                let copy_opt = file.try_clone();
                if let Some(copy) = copy_opt {
                    proof {
                        assert(self@[i as int] == Some(*file));
                        assert((*copy).is_clone_of(&**file));
                    }
                    let ghost before = res@;
                    res.install_clone(i, Some(copy));
                    proof {
                        assert forall|j: int| 0 <= j < PROCESS_MAX_FD implies match #[trigger] res@[j] {
                            None => true,
                            Some(c) => j < i + 1 && (self@[j] matches Some(f) && (*c).is_clone_of(&*f)),
                        } by {
                            if j == i {
                                assert(res@[j] == Some(copy));
                            } else {
                                assert(res@[j] == before[j]);
                            }
                        }
                    }
                }
            }
            i += 1;
        }
        res
    }

    /// Stores the duplicate made for descriptor `fd`, when one was made;
    /// with `None` the slot stays as it is.
    pub fn install_clone(&mut self, fd: usize, copy: Option<Arc<F>>)
        requires
            old(self).wf(),
            fd < PROCESS_MAX_FD,
        ensures
            final(self).wf(),
            final(self)@ == match copy {
                Some(c) => old(self)@.update(fd as int, Some(c)),
                None => old(self)@,
            },
    {
        if let Some(c) = copy {
            self.fds.set(fd, Some(c));
        }
    }

    /// How many descriptors are open.
    pub fn fd_open_count(&self) -> (r: usize)
        requires
            self.wf(),
        ensures
            r == open_count(self@),
    {
        let mut size: usize = 0;
        let mut i: usize = 0;
        while i < self.fds.len()
            invariant
                self.wf(),
                i <= self.fds@.len(),
                size == open_count(self.fds@.subrange(0, i as int)),
                size <= i,
            decreases self.fds@.len() - i,
        {
            proof {
                let s = self.fds@.subrange(0, i as int + 1);
                assert(s.drop_last() =~= self.fds@.subrange(0, i as int));
            }
            if self.fds[i].is_some() {
                size += 1;
            }
            i += 1;
        }
        proof {
            assert(self.fds@.subrange(0, self.fds@.len() as int) =~= self.fds@);
        }
        size
    }

    /// Whether `fd` is a descriptor number: not negative and below the
    /// table's size.
    pub fn validate_fd(fd: i32) -> (r: bool)
        ensures
            r == spec_validate_fd(fd),
    {
        !(fd < 0 || fd as usize >= PROCESS_MAX_FD)
    }

    /// Stores `file` in the table and returns its descriptor.
    ///
    /// With `Some(fd)` the file goes under `fd` when that descriptor is
    /// free, and the call fails with `EBADF` when it is taken. With `None`
    /// the file goes under the lowest free descriptor, and the call fails
    /// with `EMFILE` when none is free. On failure the table is unchanged.
    pub fn alloc_fd(&mut self, file: Arc<F>, fd: Option<i32>) -> (r: Result<i32, SystemError>)
        requires
            old(self).wf(),
            fd matches Some(n) ==> 0 <= n < PROCESS_MAX_FD,
        ensures
            final(self).wf(),
            (final(self)@, r) == spec_alloc(old(self)@, file, fd),
    {
        if let Some(new_fd) = fd {
            let idx = new_fd as usize;
            if self.fds[idx].is_none() {
                self.fds.set(idx, Some(file));
                return Ok(new_fd);
            } else {
                return Err(SystemError::EBADF);
            }
        } else {
            let mut i: usize = 0;
            while i < PROCESS_MAX_FD
                invariant
                    self.wf(),
                    self@ == old(self)@,
                    fd is None,
                    i <= PROCESS_MAX_FD,
                    first_free_from(self@, 0) == first_free_from(self@, i as int),
                decreases PROCESS_MAX_FD - i,
            {
                if self.fds[i].is_none() {
                    proof {
                        assert(first_free_from(self@, i as int) == i);
                    }
                    self.fds.set(i, Some(file));
                    proof {
                        let k = first_free(old(self)@);
                        assert(k == i);
                        assert(k < old(self)@.len());
                        assert(self@ == old(self)@.update(k, Some(file)));
                    }
                    return Ok(i as i32);
                }
                proof {
                    assert(first_free_from(self@, i as int) == first_free_from(self@, i as int + 1));
                }
                i += 1;
            }
            proof {
                assert(first_free_from(self@, PROCESS_MAX_FD as int) == PROCESS_MAX_FD);
            }
            return Err(SystemError::EMFILE);
        }
    }

    /// The file under descriptor `fd`, or `None` when `fd` is not a
    /// descriptor number or is free.
    pub fn get_file_by_fd(&self, fd: i32) -> (r: Option<Arc<F>>)
        requires
            self.wf(),
        ensures
            r == spec_get(self@, fd),
    {
        if !Self::validate_fd(fd) {
            return None;
        }
        match &self.fds[fd as usize] {
            Some(f) => Some(f.clone()),
            None => None,
        }
    }

    /// Frees descriptor `fd` and hands back the file that it held; fails
    /// with `EBADF`, leaving the table unchanged, when `fd` holds no file.
    pub fn drop_fd(&mut self, fd: i32) -> (r: Result<Arc<F>, SystemError>)
        requires
            old(self).wf(),
        ensures
            final(self).wf(),
            (final(self)@, r) == spec_drop(old(self)@, fd),
    {
        if self.get_file_by_fd(fd).is_none() {
            return Err(SystemError::EBADF);
        }
        let idx = fd as usize;
        let file = match &self.fds[idx] {
            Some(f) => f.clone(),
            None => {
                return Err(SystemError::EBADF);
            },
        };
        self.fds.set(idx, None);
        Ok(file)
    }

    /// An iterator over the open descriptors, in increasing order.
    pub fn iter(&self) -> (r: FileDescriptorIterator<'_, F>)
        requires
            self.wf(),
        ensures
            r.index() == 0,
            r.table() == self,
    {
        FileDescriptorIterator::new(self)
    }

    /// Closes every descriptor whose file is to be closed when a new
    /// program is executed; the others keep their files.
    pub fn close_on_exec(&mut self)
        requires
            old(self).wf(),
        ensures
            final(self).wf(),
            final(self)@ == spec_close_on_exec_table(old(self)@),
    {
        let mut i: usize = 0;
        while i < PROCESS_MAX_FD
            invariant
                self.wf(),
                i <= PROCESS_MAX_FD,
                forall|j: int|
                    0 <= j < PROCESS_MAX_FD ==> #[trigger] self@[j] == if j < i {
                        match old(self)@[j] {
                            Some(f) => if (*f).spec_close_on_exec() {
                                None
                            } else {
                                Some(f)
                            },
                            None => None,
                        }
                    } else {
                        old(self)@[j]
                    },
            decreases PROCESS_MAX_FD - i,
        {
            let to_drop = match &self.fds[i] {
                Some(file) => file.close_on_exec(),
                None => false,
            };
            if to_drop {
                let _ = self.drop_fd(i as i32);
            }
            i += 1;
        }
        assert(self@ =~= spec_close_on_exec_table(old(self)@));
    }
}

impl<F: FileOperations> Default for FileDescriptorVec<F> {
    /// A table with every descriptor free.
    fn default() -> (r: Self)
        ensures
            r.wf(),
            forall|i: int| 0 <= i < PROCESS_MAX_FD ==> r@[i] is None,
    {
        Self::new()
    }
}

/// The table that `close_on_exec` leaves: every file that is to be closed
/// on exec is gone, every other slot is as it was.
pub open spec fn spec_close_on_exec_table<F: FileOperations>(s: Seq<Option<Arc<F>>>) -> Seq<Option<Arc<F>>> {
    Seq::new(
        s.len(),
        |i: int|
            match s[i] {
                Some(f) => if (*f).spec_close_on_exec() {
                    None
                } else {
                    Some(f)
                },
                None => None,
            },
    )
}

/// Closing the files marked close-on-exec twice is the same as once, and
/// it never opens a descriptor.
pub proof fn law_close_on_exec_idempotent<F: FileOperations>(s: Seq<Option<Arc<F>>>)
    ensures
        spec_close_on_exec_table(spec_close_on_exec_table(s)) == spec_close_on_exec_table(s),
        forall|i: int| 0 <= i < s.len() && s[i] is None ==> spec_close_on_exec_table(s)[i] is None,
{
    assert(spec_close_on_exec_table(spec_close_on_exec_table(s)) =~= spec_close_on_exec_table(s));
}

/// Walks the open descriptors of a table in increasing order.
pub struct FileDescriptorIterator<'a, F: FileOperations> {
    fds: &'a FileDescriptorVec<F>,
    index: usize,
}

impl<'a, F: FileOperations> FileDescriptorIterator<'a, F> {
    /// The walk is over a well-formed table, and its position never passes
    /// the table's end.
    #[verifier::type_invariant]
    closed spec fn inv(&self) -> bool {
        &&& self.fds.wf()
        &&& self.index <= PROCESS_MAX_FD
    }

    /// The next descriptor the walk looks at.
    pub closed spec fn index(&self) -> usize {
        self.index
    }

    /// The table being walked.
    pub closed spec fn table(&self) -> &'a FileDescriptorVec<F> {
        self.fds
    }

    pub fn new(fds: &'a FileDescriptorVec<F>) -> (r: Self)
        requires
            fds.wf(),
        ensures
            r.index() == 0,
            r.table() == fds,
    {
        FileDescriptorIterator { fds, index: 0 }
    }

    /// The next open descriptor at or after the walk's position, with its
    /// file; `None` once every descriptor has been passed.
    pub fn next(&mut self) -> (r: Option<(i32, Arc<F>)>)
        ensures
            final(self).table() == old(self).table(),
            final(self).index() <= PROCESS_MAX_FD,
            match r {
                Some((fd, f)) => {
                    &&& old(self).index() <= fd < PROCESS_MAX_FD
                    &&& final(self).index() == fd + 1
                    &&& old(self).table()@[fd as int] == Some(f)
                    &&& forall|j: int| old(self).index() <= j < fd ==> old(self).table()@[j] is None
                },
                None => {
                    &&& final(self).index() == PROCESS_MAX_FD
                    &&& forall|j: int| old(self).index() <= j < PROCESS_MAX_FD ==> old(self).table()@[j] is None
                },
            },
    {
        proof {
            use_type_invariant(&*self);
        }
        while self.index < PROCESS_MAX_FD
            invariant
                self.fds == old(self).fds,
                self.fds.wf(),
                old(self).index <= self.index <= PROCESS_MAX_FD,
                forall|j: int| old(self).index <= j < self.index ==> self.fds@[j] is None,
            decreases PROCESS_MAX_FD - self.index,
        {
            let fd = self.index as i32;
            self.index += 1;
            if let Some(file) = self.fds.get_file_by_fd(fd) {
                return Some((fd, file));
            }
        }
        None
    }
}


/// `first_free_from` finds the first empty slot at or after `i`.
pub proof fn lemma_first_free_from<A>(s: Seq<Option<A>>, i: int)
    requires
        0 <= i <= s.len(),
    ensures
        i <= first_free_from(s, i) <= s.len(),
        forall|j: int| i <= j < first_free_from(s, i) ==> s[j] is Some,
        first_free_from(s, i) < s.len() ==> s[first_free_from(s, i)] is None,
    decreases s.len() - i,
{
    if i < s.len() && s[i] is Some {
        lemma_first_free_from(s, i + 1);
    }
}

/// Changing one slot changes the count by what left and what came in.
pub proof fn lemma_open_count_update<A>(s: Seq<Option<A>>, k: int, v: Option<A>)
    requires
        0 <= k < s.len(),
    ensures
        open_count(s.update(k, v)) + (if s[k] is Some { 1int } else { 0int }) == open_count(s)
            + (if v is Some { 1int } else { 0int }),
    decreases s.len(),
{
    let t = s.update(k, v);
    if k == s.len() - 1 {
        assert(t.drop_last() =~= s.drop_last());
    } else {
        assert(t.drop_last() =~= s.drop_last().update(k, v));
        lemma_open_count_update(s.drop_last(), k, v);
    }
}

/// Two tables that hold a file in the same slots count the same.
pub proof fn lemma_open_count_same_slots<A>(s: Seq<Option<A>>, t: Seq<Option<A>>)
    requires
        s.len() == t.len(),
        forall|j: int| 0 <= j < s.len() ==> (s[j] is Some <==> t[j] is Some),
    ensures
        open_count(s) == open_count(t),
    decreases s.len(),
{
    if s.len() > 0 {
        assert forall|j: int| 0 <= j < s.drop_last().len() implies (s.drop_last()[j] is Some
            <==> t.drop_last()[j] is Some) by {
            assert(s.drop_last()[j] == s[j]);
            assert(t.drop_last()[j] == t[j]);
        }
        lemma_open_count_same_slots(s.drop_last(), t.drop_last());
    }
}

/// A fork loses no descriptor: when no open file of a table may refuse to
/// be duplicated, the copy that `clone` makes of it (free where the
/// original is free, and holding a duplicate wherever duplicating was not
/// refused) has as many open descriptors as the original, in the same
/// slots, close-on-exec ones included.
pub proof fn law_fork_keeps_open_count<F: FileOperations>(orig: Seq<Option<Arc<F>>>, copy: Seq<Option<Arc<F>>>)
    requires
        orig.len() == PROCESS_MAX_FD,
        copy.len() == PROCESS_MAX_FD,
        forall|i: int| 0 <= i < PROCESS_MAX_FD && orig[i] is None ==> copy[i] is None,
        forall|i: int|
            0 <= i < PROCESS_MAX_FD && orig[i] is Some && !(*orig[i]->0).may_refuse_clone() ==> copy[i] is Some,
        forall|i: int| 0 <= i < PROCESS_MAX_FD && orig[i] is Some ==> !(*orig[i]->0).may_refuse_clone(),
    ensures
        open_count(copy) == open_count(orig),
        forall|i: int| 0 <= i < PROCESS_MAX_FD ==> (copy[i] is Some <==> orig[i] is Some),
{
    lemma_open_count_same_slots(orig, copy);
}

/// The count is at most the number of slots, and reaches it exactly when
/// every slot is taken.
pub proof fn lemma_open_count_bound<A>(s: Seq<Option<A>>)
    ensures
        open_count(s) <= s.len(),
        open_count(s) == s.len() <==> forall|j: int| 0 <= j < s.len() ==> s[j] is Some,
    decreases s.len(),
{
    if s.len() > 0 {
        lemma_open_count_bound(s.drop_last());
        if open_count(s) == s.len() {
            assert forall|j: int| 0 <= j < s.len() implies s[j] is Some by {
                if j < s.len() - 1 {
                    assert(s.drop_last()[j] == s[j]);
                }
            }
        }
        if forall|j: int| 0 <= j < s.len() ==> s[j] is Some {
            assert forall|j: int| 0 <= j < s.drop_last().len() implies s.drop_last()[j] is Some by {
                assert(s.drop_last()[j] == s[j]);
            }
        }
    }
}

/// Read after write: once `alloc_fd` hands out descriptor `n`, looking up
/// `n` gives back the file that was stored.
pub proof fn law_get_after_alloc<A>(s: Seq<Option<A>>, file: A, fd: Option<i32>)
    requires
        s.len() == PROCESS_MAX_FD,
        fd matches Some(n) ==> 0 <= n < PROCESS_MAX_FD,
    ensures
        spec_alloc(s, file, fd).1 matches Ok(n) ==> 0 <= n < PROCESS_MAX_FD && spec_get(
            spec_alloc(s, file, fd).0,
            n,
        ) == Some(file),
{
    lemma_first_free_from(s, 0);
}

/// Without a requested descriptor, `alloc_fd` takes the lowest free one:
/// the slot was empty and every lower slot holds a file.
pub proof fn law_alloc_takes_lowest_free<A>(s: Seq<Option<A>>, file: A)
    requires
        s.len() == PROCESS_MAX_FD,
    ensures
        spec_alloc(s, file, None).1 matches Ok(n) ==> {
            &&& s[n as int] is None
            &&& forall|j: int| 0 <= j < n ==> s[j] is Some
        },
{
    lemma_first_free_from(s, 0);
}

/// Without a requested descriptor, `alloc_fd` fails with `EMFILE` exactly
/// when every descriptor is open, and otherwise succeeds.
pub proof fn law_alloc_fails_iff_full<A>(s: Seq<Option<A>>, file: A)
    requires
        s.len() == PROCESS_MAX_FD,
    ensures
        (spec_alloc(s, file, None).1 == Err::<i32, SystemError>(SystemError::EMFILE)) <==> open_count(s)
            == PROCESS_MAX_FD,
        spec_alloc(s, file, None).1 is Ok <==> open_count(s) < PROCESS_MAX_FD,
{
    lemma_first_free_from(s, 0);
    lemma_open_count_bound(s);
    let k = first_free(s);
    if k < s.len() {
        assert(s[k] is None);
    }
}

/// A successful `alloc_fd` opens one more descriptor; a failed one leaves
/// the table as it was.
pub proof fn law_alloc_count<A>(s: Seq<Option<A>>, file: A, fd: Option<i32>)
    requires
        s.len() == PROCESS_MAX_FD,
        fd matches Some(n) ==> 0 <= n < PROCESS_MAX_FD,
    ensures
        spec_alloc(s, file, fd).1 is Ok ==> open_count(spec_alloc(s, file, fd).0) == open_count(s) + 1,
        spec_alloc(s, file, fd).1 is Err ==> spec_alloc(s, file, fd).0 == s,
{
    lemma_first_free_from(s, 0);
    match spec_alloc(s, file, fd).1 {
        Ok(n) => {
            lemma_open_count_update(s, n as int, Some(file));
        },
        Err(_) => {},
    }
}

/// After `drop_fd` succeeds, the descriptor is free, the file it held is
/// handed back, and one descriptor fewer is open; when it fails the table
/// is unchanged and the descriptor held nothing.
pub proof fn law_drop_fd<A>(s: Seq<Option<A>>, fd: i32)
    requires
        s.len() == PROCESS_MAX_FD,
    ensures
        spec_drop(s, fd).1 matches Ok(f) ==> {
            &&& spec_get(s, fd) == Some(f)
            &&& spec_get(spec_drop(s, fd).0, fd) is None
            &&& open_count(spec_drop(s, fd).0) + 1 == open_count(s)
        },
        spec_drop(s, fd).1 is Err ==> spec_drop(s, fd).0 == s && spec_get(s, fd) is None,
{
    if spec_get(s, fd) is Some {
        lemma_open_count_update(s, fd as int, None);
    }
}

/// Storing a file and then releasing the descriptor it got gives back the
/// file and the table as it was before.
pub proof fn law_alloc_then_drop_restores<A>(s: Seq<Option<A>>, file: A, fd: Option<i32>)
    requires
        s.len() == PROCESS_MAX_FD,
        fd matches Some(n) ==> 0 <= n < PROCESS_MAX_FD,
    ensures
        spec_alloc(s, file, fd).1 matches Ok(n) ==> {
            &&& spec_drop(spec_alloc(s, file, fd).0, n).0 == s
            &&& spec_drop(spec_alloc(s, file, fd).0, n).1 == Ok::<A, SystemError>(file)
        },
{
    lemma_first_free_from(s, 0);
    match spec_alloc(s, file, fd).1 {
        Ok(n) => {
            assert(spec_alloc(s, file, fd).0.update(n as int, None) =~= s);
        },
        Err(_) => {},
    }
}

/// A table never holds more open descriptors than it has slots.
pub proof fn law_open_count_bounded<A>(s: Seq<Option<A>>)
    requires
        s.len() == PROCESS_MAX_FD,
    ensures
        open_count(s) <= PROCESS_MAX_FD,
{
    lemma_open_count_bound(s);
}

/// A table with no file in any slot has no open descriptor: a new table
/// counts zero.
pub proof fn law_empty_table_counts_zero<A>(s: Seq<Option<A>>)
    requires
        forall|i: int| 0 <= i < s.len() ==> s[i] is None,
    ensures
        open_count(s) == 0,
    decreases s.len(),
{
    if s.len() > 0 {
        assert forall|i: int| 0 <= i < s.drop_last().len() implies s.drop_last()[i] is None by {
            assert(s.drop_last()[i] == s[i]);
        }
        law_empty_table_counts_zero(s.drop_last());
    }
}

/// Looking up descriptors never changes the table, and a descriptor that
/// fails the number check is never found.
pub proof fn law_invalid_fd_not_found<A>(s: Seq<Option<A>>, fd: i32)
    requires
        s.len() == PROCESS_MAX_FD,
        !spec_validate_fd(fd),
    ensures
        spec_get(s, fd) is None,
        spec_drop(s, fd).1 == Err::<A, SystemError>(SystemError::EBADF),
        spec_drop(s, fd).0 == s,
{
}

/// Every open slot of `s` holds a file of `allowed`.
pub open spec fn holds_only<A>(s: Seq<Option<A>>, allowed: Set<A>) -> bool {
    forall|i: int| 0 <= i < s.len() ==> (#[trigger] s[i] matches Some(f) ==> allowed.contains(f))
}

/// A table only ever holds files that were stored in it: a new table holds
/// none; storing a file adds only that file; releasing a descriptor,
/// closing on exec and a failed store add nothing; and a stored duplicate
/// adds only that duplicate. So along any run of these operations from a
/// new table, every open slot holds a file that was allocated (or
/// duplicated into it) and not released since.
pub proof fn law_table_holds_only_stored_files<A>(s: Seq<Option<A>>, allowed: Set<A>, file: A, fd: Option<i32>, d: i32, k: int, copy: A)
    requires
        s.len() == PROCESS_MAX_FD,
        fd matches Some(n) ==> 0 <= n < PROCESS_MAX_FD,
        holds_only(s, allowed),
    ensures
        holds_only(Seq::new(PROCESS_MAX_FD as nat, |i: int| None::<A>), Set::empty()),
        holds_only(spec_alloc(s, file, fd).0, allowed.insert(file)),
        holds_only(spec_drop(s, d).0, allowed),
        0 <= k < s.len() ==> holds_only(s.update(k, Some(copy)), allowed.insert(copy)),
{
    lemma_first_free_from(s, 0);
    let s2 = spec_alloc(s, file, fd).0;
    assert forall|i: int| 0 <= i < s2.len() implies (#[trigger] s2[i] matches Some(f) ==> allowed.insert(file).contains(f)) by {
        if s2[i] != s[i] {
            assert(s2[i] == Some(file));
        }
    }
    let s3 = spec_drop(s, d).0;
    assert forall|i: int| 0 <= i < s3.len() implies (#[trigger] s3[i] matches Some(f) ==> allowed.contains(f)) by {
        if s3[i] != s[i] {
            assert(s3[i] is None);
        }
    }
    if 0 <= k < s.len() {
        let s4 = s.update(k, Some(copy));
        assert forall|i: int| 0 <= i < s4.len() implies (#[trigger] s4[i] matches Some(f) ==> allowed.insert(copy).contains(f)) by {
            if i != k {
                assert(s4[i] == s[i]);
            }
        }
    }
}

/// Closing the files marked close-on-exec adds no file to a table.
pub proof fn law_close_on_exec_holds_only<F: FileOperations>(s: Seq<Option<Arc<F>>>, allowed: Set<Arc<F>>)
    requires
        holds_only(s, allowed),
    ensures
        holds_only(spec_close_on_exec_table(s), allowed),
{
    let t = spec_close_on_exec_table(s);
    assert forall|i: int| 0 <= i < t.len() implies (#[trigger] t[i] matches Some(f) ==> allowed.contains(f)) by {
        assert(s[i] matches Some(g) ==> allowed.contains(g));
    }
}

} // verus!
