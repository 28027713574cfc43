use vstd::prelude::*;
use crate::config::SandboxBuilder;

verus! {

/// One of the three accounting domains that every sandbox gets.
#[derive(Clone, Copy, Debug, PartialEq, Eq, Structural)]
pub enum Subsystem {
    Memory,
    Cpuacct,
    Pids,
}

/// A control file that a limit is written to.
#[derive(Clone, Copy, Debug, PartialEq, Eq, Structural)]
pub enum LimitKey {
    /// The plain memory ceiling.
    MemoryLimit,
    /// The ceiling on memory and swap together.
    MemswLimit,
    /// The ceiling on the number of tasks.
    PidsMax,
}

/// One limit to write: a value into a control file.
#[derive(Clone, Copy, Debug, PartialEq, Eq, Structural)]
pub struct LimitWrite {
    pub key: LimitKey,
    pub value: i64,
}

pub open spec fn subsystem_name(s: Subsystem) -> Seq<char> {
    match s {
        Subsystem::Memory => "memory"@,
        Subsystem::Cpuacct => "cpuacct"@,
        Subsystem::Pids => "pids"@,
    }
}

pub open spec fn key_file(k: LimitKey) -> Seq<char> {
    match k {
        LimitKey::MemoryLimit => "memory.limit_in_bytes"@,
        LimitKey::MemswLimit => "memory.memsw.limit_in_bytes"@,
        LimitKey::PidsMax => "pids.max"@,
    }
}

pub open spec fn key_subsystem(k: LimitKey) -> Subsystem {
    match k {
        LimitKey::MemoryLimit | LimitKey::MemswLimit => Subsystem::Memory,
        LimitKey::PidsMax => Subsystem::Pids,
    }
}

/// The domains of a sandbox, in the order they are created and joined.
pub open spec fn all_subsystems() -> Seq<Subsystem> {
    seq![Subsystem::Memory, Subsystem::Cpuacct, Subsystem::Pids]
}

/// The writes that apply the limits: a memory limit bounds both memory and
/// memory with swap; a pids limit bounds the task count; processor time is
/// only accounted, never limited.
pub open spec fn limit_plan(memory: Option<i64>, pids: Option<i64>) -> Seq<LimitWrite> {
    let m = match memory {
        Some(v) => seq![
            LimitWrite { key: LimitKey::MemoryLimit, value: v },
            LimitWrite { key: LimitKey::MemswLimit, value: v },
        ],
        None => Seq::<LimitWrite>::empty(),
    };
    let p = match pids {
        Some(v) => seq![LimitWrite { key: LimitKey::PidsMax, value: v }],
        None => Seq::<LimitWrite>::empty(),
    };
    m + p
}

pub open spec fn is_hex_lower(c: char) -> bool {
    ('0' <= c && c <= '9') || ('a' <= c && c <= 'f')
}

/// A group name: a random (version 4) identifier in the 8-4-4-4-12 form of
/// lower-case hex digits separated by hyphens, whose version digit is '4'
/// and whose variant digit is one of '8', '9', 'a', 'b'.
pub open spec fn is_group_name(s: Seq<char>) -> bool {
    &&& s.len() == 36
    &&& forall|i: int|
        0 <= i < 36 ==> if i == 8 || i == 13 || i == 18 || i == 23 {
            s[i] == '-'
        } else {
            is_hex_lower(#[trigger] s[i])
        }
    &&& s[14] == '4'
    &&& (s[19] == '8' || s[19] == '9' || s[19] == 'a' || s[19] == 'b')
}

impl Subsystem {
    /// The controller's name in the resource-group hierarchy.
    pub fn name(&self) -> (r: &'static str)
        ensures
            r@ == subsystem_name(*self),
    {
        proof {
            reveal_strlit("memory");
            reveal_strlit("cpuacct");
            reveal_strlit("pids");
        }
        match self {
            Subsystem::Memory => "memory",
            Subsystem::Cpuacct => "cpuacct",
            Subsystem::Pids => "pids",
        }
    }
}

impl LimitKey {
    /// The control file the limit is written to.
    pub fn file(&self) -> (r: &'static str)
        ensures
            r@ == key_file(*self),
    {
        proof {
            reveal_strlit("memory.limit_in_bytes");
            reveal_strlit("memory.memsw.limit_in_bytes");
            reveal_strlit("pids.max");
        }
        match self {
            LimitKey::MemoryLimit => "memory.limit_in_bytes",
            LimitKey::MemswLimit => "memory.memsw.limit_in_bytes",
            LimitKey::PidsMax => "pids.max",
        }
    }

    /// The domain whose control file this is.
    pub fn subsystem(&self) -> (r: Subsystem)
        ensures
            r == key_subsystem(*self),
    {
        match self {
            LimitKey::MemoryLimit | LimitKey::MemswLimit => Subsystem::Memory,
            LimitKey::PidsMax => Subsystem::Pids,
        }
    }
}

/// The domains a sandbox creates and its child joins, in order.
pub fn group_subsystems() -> (r: Vec<Subsystem>)
    ensures
        r@ == all_subsystems(),
{
    let r = vec![Subsystem::Memory, Subsystem::Cpuacct, Subsystem::Pids];
    assert(r@ == all_subsystems());
    r
}

/// Relies on getrandom::fill: sixteen bytes from the operating system's
/// random source, or `None` where that source fails.
#[verifier::external_body]
fn random_bytes() -> (r: Option<[u8; 16]>) {
    let mut bytes = [0u8; 16];
    match getrandom::fill(&mut bytes) {
        Ok(()) => Some(bytes),
        Err(_) => None,
    }
}

/// Relies on uuid::Builder::from_random_bytes, which sets the version (4)
/// and variant (RFC 4122) bits, and on the `Display` of `Uuid`: hyphenated
/// lower-case hex, 36 characters.
#[verifier::external_body]
fn v4_text(bytes: [u8; 16]) -> (r: String)
    ensures
        is_group_name(r@),
{
    uuid::Builder::from_random_bytes(bytes).into_uuid().to_string()
}

/// A fresh name for the resource groups of one sandbox, from random bytes,
/// with no state shared between sandboxes; `None` when no random bytes
/// could be had.
pub fn new_group_name() -> (r: Option<String>)
    ensures
        r matches Some(s) ==> is_group_name(s@),
{
    match random_bytes() {
        Some(bytes) => Some(v4_text(bytes)),
        None => None,
    }
}

impl SandboxBuilder {
    /// The limit writes that this configuration asks for, in order.
    pub fn limit_writes(&self) -> (r: Vec<LimitWrite>)
        ensures
            r@ == limit_plan(self.memory_limit, self.pids_limit),
    {
        let mut r: Vec<LimitWrite> = Vec::new();
        match self.memory_limit {
            Some(v) => {
                r.push(LimitWrite { key: LimitKey::MemoryLimit, value: v });
                r.push(LimitWrite { key: LimitKey::MemswLimit, value: v });
            },
            None => {},
        }
        match self.pids_limit {
            Some(v) => {
                r.push(LimitWrite { key: LimitKey::PidsMax, value: v });
            },
            None => {},
        }
        assert(r@ == limit_plan(self.memory_limit, self.pids_limit));
        r
    }
}

} // verus!
