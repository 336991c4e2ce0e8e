use vstd::prelude::*;

verus! {

/// The kinds of process identifiers.
#[derive(Debug, Clone, Copy)]
pub enum PidType {
    /// A process id.
    PID,
    TGID,
    PGID,
    SID,
    MAX,
}

impl PidType {
    /// The number that stands for this kind.
    pub open spec fn spec_code(&self) -> u8 {
        match self {
            PidType::PID => 1,
            PidType::TGID => 2,
            PidType::PGID => 3,
            PidType::SID => 4,
            PidType::MAX => 5,
        }
    }

    /// The number that stands for this kind.
    #[verifier::when_used_as_spec(spec_code)]
    pub fn code(&self) -> (r: u8)
        ensures
            r == self.spec_code(),
    {
        match self {
            PidType::PID => 1,
            PidType::TGID => 2,
            PidType::PGID => 3,
            PidType::SID => 4,
            PidType::MAX => 5,
        }
    }
}

/// Two kinds are equal when their numbers are.
impl PartialEq for PidType {
    fn eq(&self, other: &PidType) -> (r: bool) {
        self.code() == other.code()
    }
}

impl vstd::std_specs::cmp::PartialEqSpecImpl for PidType {
    open spec fn obeys_eq_spec() -> bool {
        true
    }

    open spec fn eq_spec(&self, other: &PidType) -> bool {
        self.spec_code() == other.spec_code()
    }
}

/// The pid information that a pidfd carries.
#[derive(Clone, Copy, PartialEq, Eq, Structural, Debug)]
pub struct PidPrivateData {
    pid: i32,
    ref_count: usize,
}

impl PidPrivateData {
    pub closed spec fn spec_pid(&self) -> i32 {
        self.pid
    }

    pub closed spec fn spec_ref_count(&self) -> usize {
        self.ref_count
    }

    pub fn new(pid: i32) -> (r: Self)
        ensures
            r.spec_pid() == pid,
            r.spec_ref_count() == 0,
    {
        Self { pid: pid, ref_count: 0 }
    }

    #[verifier::when_used_as_spec(spec_pid)]
    pub fn pid(&self) -> (r: i32)
        ensures
            r == self.spec_pid(),
    {
        self.pid
    }
}

/// Equal kinds have equal numbers, and different kinds different numbers.
pub proof fn law_pid_type_eq_iff_same(a: PidType, b: PidType)
    ensures
        (a.spec_code() == b.spec_code()) <==> (a == b),
{
}

} // verus!
