use vstd::prelude::*;

verus! {

/// Every bit that some open flag uses.
pub const FILE_MODE_ALL_BITS: u32 = 0o17777703;

/// The flags a file is opened with.
///
/// The two low bits together hold the access mode (read-only, write-only or
/// read-write); every other bit is an independent flag.
#[derive(Clone, Copy, PartialEq, Eq, Structural, Debug)]
pub struct FileMode {
    bits: u32,
}

impl View for FileMode {
    type V = u32;

    open spec fn view(&self) -> u32 {
        self.spec_bits()
    }
}

impl FileMode {
    pub closed spec fn spec_bits(&self) -> u32 {
        self.bits
    }

    /// Whether every bit of `other` is set in `self`.
    pub open spec fn spec_contains(&self, other: FileMode) -> bool {
        self@ & other@ == other@
    }

    /// The access-mode value: the two low bits.
    pub open spec fn spec_accmode(&self) -> u32 {
        self@ & 0o3
    }

    /// The raw bits.
    #[verifier::when_used_as_spec(spec_bits)]
    pub fn bits(&self) -> (r: u32)
        ensures
            r == self.spec_bits(),
    {
        self.bits
    }

    /// The mode with no bit set.
    pub fn empty() -> (r: FileMode)
        ensures
            r@ == 0,
    {
        FileMode { bits: 0 }
    }

    /// The mode with every known bit set.
    pub fn all() -> (r: FileMode)
        ensures
            r@ == FILE_MODE_ALL_BITS,
    {
        FileMode { bits: FILE_MODE_ALL_BITS }
    }

    /// The mode made of the known bits of `bits`; the others are dropped.
    pub fn from_bits_truncate(bits: u32) -> (r: FileMode)
        ensures
            r@ == bits & FILE_MODE_ALL_BITS,
    {
        FileMode { bits: bits & FILE_MODE_ALL_BITS }
    }

    /// The mode of exactly `bits`, when every bit of it is known.
    pub fn from_bits(bits: u32) -> (r: Option<FileMode>)
        ensures
            r is Some <==> (bits & FILE_MODE_ALL_BITS == bits),
            r matches Some(m) ==> m@ == bits,
    {
        if bits & FILE_MODE_ALL_BITS == bits {
            Some(FileMode { bits })
        } else {
            None
        }
    }

    /// Whether every bit of `other` is set in `self`.
    #[verifier::when_used_as_spec(spec_contains)]
    pub fn contains(&self, other: FileMode) -> (r: bool)
        ensures
            r == self.spec_contains(other),
    {
        self.bits & other.bits == other.bits
    }

    /// Whether `self` and `other` share a bit.
    pub fn intersects(&self, other: FileMode) -> (r: bool)
        ensures
            r == (self@ & other@ != 0),
    {
        self.bits & other.bits != 0
    }

    /// Sets the bits of `other`.
    pub fn insert(&mut self, other: FileMode)
        ensures
            final(self)@ == old(self)@ | other@,
    {
        self.bits = self.bits | other.bits;
    }

    /// Clears the bits of `other`.
    pub fn remove(&mut self, other: FileMode)
        ensures
            final(self)@ == old(self)@ & !other@,
    {
        self.bits = self.bits & !other.bits;
    }

    /// The bits of both modes together.
    pub fn union(&self, other: FileMode) -> (r: FileMode)
        ensures
            r@ == self@ | other@,
    {
        FileMode { bits: self.bits | other.bits }
    }

    /// The access-mode value of the mode.
    #[verifier::when_used_as_spec(spec_accmode)]
    pub fn accmode(&self) -> (r: u32)
        ensures
            r == self.spec_accmode(),
            r < 4,
    {
        let b = self.bits;
        let r = b & FileMode::O_ACCMODE().bits;
        assert(b & 0o3u32 < 4) by (bit_vector);
        r
    }

    /// Open read-only.
    #[allow(non_snake_case)]
    pub fn O_RDONLY() -> (r: FileMode)
        ensures
            r@ == 0o0,
    {
        FileMode { bits: 0o0 }
    }

    /// Open write-only.
    #[allow(non_snake_case)]
    pub fn O_WRONLY() -> (r: FileMode)
        ensures
            r@ == 0o1,
    {
        FileMode { bits: 0o1 }
    }

    /// Open for reading and writing.
    #[allow(non_snake_case)]
    pub fn O_RDWR() -> (r: FileMode)
        ensures
            r@ == 0o2,
    {
        FileMode { bits: 0o2 }
    }

    /// The bits of the access mode.
    #[allow(non_snake_case)]
    pub fn O_ACCMODE() -> (r: FileMode)
        ensures
            r@ == 0o3,
    {
        FileMode { bits: 0o3 }
    }

    /// Create the file if it does not exist.
    #[allow(non_snake_case)]
    pub fn O_CREAT() -> (r: FileMode)
        ensures
            r@ == 0o100,
    {
        FileMode { bits: 0o100 }
    }

    /// Fail if the file already exists.
    #[allow(non_snake_case)]
    pub fn O_EXCL() -> (r: FileMode)
        ensures
            r@ == 0o200,
    {
        FileMode { bits: 0o200 }
    }

    /// Do not make the file the controlling terminal.
    #[allow(non_snake_case)]
    pub fn O_NOCTTY() -> (r: FileMode)
        ensures
            r@ == 0o400,
    {
        FileMode { bits: 0o400 }
    }

    /// Truncate a regular file opened for writing.
    #[allow(non_snake_case)]
    pub fn O_TRUNC() -> (r: FileMode)
        ensures
            r@ == 0o1000,
    {
        FileMode { bits: 0o1000 }
    }

    /// Every write goes to the end of the file.
    #[allow(non_snake_case)]
    pub fn O_APPEND() -> (r: FileMode)
        ensures
            r@ == 0o2000,
    {
        FileMode { bits: 0o2000 }
    }

    /// Non-blocking input and output.
    #[allow(non_snake_case)]
    pub fn O_NONBLOCK() -> (r: FileMode)
        ensures
            r@ == 0o4000,
    {
        FileMode { bits: 0o4000 }
    }

    /// Writes wait for the data to reach the device.
    #[allow(non_snake_case)]
    pub fn O_DSYNC() -> (r: FileMode)
        ensures
            r@ == 0o10000,
    {
        FileMode { bits: 0o10000 }
    }

    /// Signal-driven input and output.
    #[allow(non_snake_case)]
    pub fn FASYNC() -> (r: FileMode)
        ensures
            r@ == 0o20000,
    {
        FileMode { bits: 0o20000 }
    }

    /// Direct disk access.
    #[allow(non_snake_case)]
    pub fn O_DIRECT() -> (r: FileMode)
        ensures
            r@ == 0o40000,
    {
        FileMode { bits: 0o40000 }
    }

    #[allow(non_snake_case)]
    pub fn O_LARGEFILE() -> (r: FileMode)
        ensures
            r@ == 0o100000,
    {
        FileMode { bits: 0o100000 }
    }

    /// The file must be a directory.
    #[allow(non_snake_case)]
    pub fn O_DIRECTORY() -> (r: FileMode)
        ensures
            r@ == 0o200000,
    {
        FileMode { bits: 0o200000 }
    }

    /// Do not follow symbolic links.
    #[allow(non_snake_case)]
    pub fn O_NOFOLLOW() -> (r: FileMode)
        ensures
            r@ == 0o400000,
    {
        FileMode { bits: 0o400000 }
    }

    #[allow(non_snake_case)]
    pub fn O_NOATIME() -> (r: FileMode)
        ensures
            r@ == 0o1000000,
    {
        FileMode { bits: 0o1000000 }
    }

    /// Close the file when a new program is executed.
    #[allow(non_snake_case)]
    pub fn O_CLOEXEC() -> (r: FileMode)
        ensures
            r@ == 0o2000000,
    {
        FileMode { bits: 0o2000000 }
    }

    /// Writes wait for the data and the file's attributes.
    #[allow(non_snake_case)]
    pub fn O_SYNC() -> (r: FileMode)
        ensures
            r@ == 0o4000000,
    {
        FileMode { bits: 0o4000000 }
    }

    #[allow(non_snake_case)]
    pub fn O_PATH() -> (r: FileMode)
        ensures
            r@ == 0o10000000,
    {
        FileMode { bits: 0o10000000 }
    }

    /// The flags that an `O_PATH` open keeps.
    #[allow(non_snake_case)]
    pub fn O_PATH_FLAGS() -> (r: FileMode)
        ensures
            r@ == 0o12600000u32,
    {
        let bits = 0o200000u32 | 0o400000u32 | 0o2000000u32 | 0o10000000u32;
        assert(0o200000u32 | 0o400000u32 | 0o2000000u32 | 0o10000000u32 == 0o12600000u32)
            by (bit_vector);
        FileMode { bits }
    }
}

/// After `insert`, the mode contains what was inserted.
pub proof fn law_insert_then_contains(m: FileMode, f: FileMode)
    ensures
        (m@ | f@) & f@ == f@,
{
    let a = m@;
    let b = f@;
    assert((a | b) & b == b) by (bit_vector);
}

/// After `remove` of a flag with a bit set, the mode no longer contains it,
/// and every bit outside the flag is kept.
pub proof fn law_remove_then_not_contains(m: FileMode, f: FileMode)
    requires
        f@ != 0,
    ensures
        (m@ & !f@) & f@ != f@,
        forall|i: u32| i < 32 && (f@ >> i) & 1 == 0 ==> ((m@ & !f@) >> i) & 1 == (m@ >> i) & 1,
{
    let a = m@;
    let b = f@;
    assert((a & !b) & b == 0) by (bit_vector);
    assert(forall|i: u32| i < 32 && (b >> i) & 1 == 0 ==> ((a & !b) >> i) & 1 == (a >> i) & 1)
        by (bit_vector);
}

/// The access mode is always one of the four values of two bits.
pub proof fn law_accmode_below_four(m: FileMode)
    ensures
        m.spec_accmode() < 4,
{
    let a = m@;
    assert(a & 0o3u32 < 4) by (bit_vector);
}

} // verus!
