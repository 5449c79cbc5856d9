//! Decoding of IOS syscalls for diagnostics. Presentation (formatting and
//! printing a trace line) is a pure observer outside this core; what stands
//! here is the decode logic: classifying the executing context from the
//! program counter, the syscall table, the index extracted from an opcode,
//! and the scan for a NUL terminator in a buffer read from memory.

use vstd::prelude::*;

verus! {

/// Which part of the system software the processor is executing, judged
/// from the upper half of the program counter.
#[derive(Debug, PartialEq, Eq, Structural)]
pub enum ExecutionCtx {
    UNK,
    CRY,
    ES,
    FS,
    KRN,
}

/// The context assigned to a program-counter value.
pub open spec fn spec_execution_ctx(pc: u32) -> ExecutionCtx {
    let hi = (pc & 0xffff_0000) >> 16;
    if hi == 0x1386 {
        ExecutionCtx::CRY
    } else if hi == 0x2000 {
        ExecutionCtx::FS
    } else if hi == 0x2010 {
        ExecutionCtx::ES
    } else if hi == 0xffff {
        ExecutionCtx::KRN
    } else {
        ExecutionCtx::UNK
    }
}

impl From<u32> for ExecutionCtx {
    fn from(pc: u32) -> (r: Self) {
        let hi = (pc & 0xffff_0000) >> 16;
        if hi == 0x1386 {
            ExecutionCtx::CRY
        } else if hi == 0x2000 {
            ExecutionCtx::FS
        } else if hi == 0x2010 {
            ExecutionCtx::ES
        } else if hi == 0xffff {
            ExecutionCtx::KRN
        } else {
            ExecutionCtx::UNK
        }
    }
}

impl vstd::std_specs::convert::FromSpecImpl<u32> for ExecutionCtx {
    open spec fn obeys_from_spec() -> bool {
        true
    }

    open spec fn from_spec(pc: u32) -> Self {
        spec_execution_ctx(pc)
    }
}

/// Typed arguments to a syscall.
#[derive(Clone, Copy, Debug, PartialEq, Eq, Structural)]
pub enum ArgType {
    Ptr,
    StrPtr,
    Int,
    Uint,
}

/// Format arguments for some IOS syscall.
pub struct SyscallDef {
    pub name: &'static str,
    pub arg: Vec<ArgType>,
}

/// The syscall indices the table resolves; any other index is an
/// unrecoverable decoding error for the tracer.
pub open spec fn syscall_known(idx: u32) -> bool {
    ||| idx == 0x02
    ||| idx == 0x04
    ||| idx == 0x09
    ||| idx == 0x0a
    ||| idx == 0x0b
    ||| idx == 0x0f
    ||| idx == 0x11
    ||| idx == 0x18
    ||| idx == 0x1b
    ||| idx == 0x1c
    ||| idx == 0x2a
    ||| idx == 0x2b
    ||| idx == 0x2d
    ||| idx == 0x2f
    ||| idx == 0x30
    ||| idx == 0x3f
    ||| idx == 0x4f
    ||| idx == 0x63
    ||| idx == 0x6d
}

/// The argument shapes of each known syscall.
pub open spec fn spec_syscall_args(idx: u32) -> Seq<ArgType> {
    if idx == 0x09 {
        seq![ArgType::Int, ArgType::Int]
    } else if idx == 0x0a {
        seq![ArgType::Ptr, ArgType::Int]
    } else if idx == 0x0b {
        seq![ArgType::Ptr]
    } else if idx == 0x0f {
        seq![ArgType::Int, ArgType::Int, ArgType::Uint]
    } else if idx == 0x11 {
        seq![ArgType::Int, ArgType::Int, ArgType::Int, ArgType::Uint]
    } else if idx == 0x18 {
        seq![ArgType::Int, ArgType::Uint]
    } else if idx == 0x1b {
        seq![ArgType::StrPtr, ArgType::Int]
    } else if idx == 0x1c {
        seq![ArgType::StrPtr, ArgType::Int]
    } else if idx == 0x2a {
        seq![ArgType::Ptr, ArgType::Uint]
    } else if idx == 0x2b {
        seq![ArgType::Int]
    } else if idx == 0x2d {
        seq![ArgType::Int]
    } else if idx == 0x2f {
        seq![ArgType::Int]
    } else if idx == 0x30 {
        seq![ArgType::Int]
    } else if idx == 0x3f {
        seq![ArgType::Ptr]
    } else if idx == 0x4f {
        seq![ArgType::Ptr]
    } else if idx == 0x63 {
        seq![ArgType::Uint, ArgType::Uint, ArgType::Uint]
    } else if idx == 0x6d {
        seq![ArgType::Uint, ArgType::Uint, ArgType::Uint]
    } else {
        Seq::empty()
    }
}

/// Resolve the definition of a known syscall: its name and the shapes of
/// its arguments.
pub fn get_syscall_desc(idx: u32) -> (r: SyscallDef)
    requires
        syscall_known(idx),
    ensures
        r.arg@ == spec_syscall_args(idx),
{
    let mut arg: Vec<ArgType> = Vec::new();
    let name: &'static str = match idx {
        0x02 => "ThreadCancel",
        0x04 => "ThreadGetPid",
        0x09 => {
            arg.push(ArgType::Int);
            arg.push(ArgType::Int);
            "ThreadSetPrio"
        },
        0x0a => {
            arg.push(ArgType::Ptr);
            arg.push(ArgType::Int);
            "MqueueCreate"
        },
        0x0b => {
            arg.push(ArgType::Ptr);
            "MqueueDestroy"
        },
        0x0f => {
            arg.push(ArgType::Int);
            arg.push(ArgType::Int);
            arg.push(ArgType::Uint);
            "MqueueRegisterHandler"
        },
        0x11 => {
            arg.push(ArgType::Int);
            arg.push(ArgType::Int);
            arg.push(ArgType::Int);
            arg.push(ArgType::Uint);
            "TimerCreate"
        },
        0x18 => {
            arg.push(ArgType::Int);
            arg.push(ArgType::Uint);
            "HeapAlloc"
        },
        0x1c => {
            arg.push(ArgType::StrPtr);
            arg.push(ArgType::Int);
            "Open"
        },
        0x1b => {
            arg.push(ArgType::StrPtr);
            arg.push(ArgType::Int);
            "RegisterDevice"
        },
        0x2a => {
            arg.push(ArgType::Ptr);
            arg.push(ArgType::Uint);
            "ResourceReply"
        },
        0x2b => {
            arg.push(ArgType::Int);
            "SetUid"
        },
        0x2d => {
            arg.push(ArgType::Int);
            "SetGid"
        },
        0x2f => {
            arg.push(ArgType::Int);
            "AhbMemFlush"
        },
        0x30 => {
            arg.push(ArgType::Int);
            "CcAhbMemFlush"
        },
        0x3f => {
            arg.push(ArgType::Ptr);
            "SyncBeforeRead"
        },
        0x4f => {
            arg.push(ArgType::Ptr);
            "VirtToPhys"
        },
        0x63 => {
            arg.push(ArgType::Uint);
            arg.push(ArgType::Uint);
            arg.push(ArgType::Uint);
            "IoscGetData"
        },
        0x6d => {
            arg.push(ArgType::Uint);
            arg.push(ArgType::Uint);
            arg.push(ArgType::Uint);
            "IoscGenBlockMac"
        },
        _ => unreached(),
    };
    proof {
        assert(arg@ =~= spec_syscall_args(idx));
    }
    SyscallDef { name, arg }
}

/// The syscall index held in an undefined-instruction opcode.
pub open spec fn spec_syscall_index(opcd: u32) -> u32 {
    (opcd & 0x00ff_ffe0) >> 5
}

/// Extract the syscall index from an opcode.
pub fn syscall_index(opcd: u32) -> (idx: u32)
    ensures
        idx == spec_syscall_index(opcd),
{
    (opcd & 0x00ff_ffe0) >> 5
}

/// The syscall indices the tracer deliberately passes over without logging.
pub open spec fn spec_syscall_ignored(idx: u32) -> bool {
    ||| idx == 0x0e
    ||| idx == 0x2f
    ||| idx == 0x30
    ||| idx == 0x3f
    ||| idx == 0x4f
}

/// Whether the tracer passes this syscall index over without logging.
pub fn syscall_ignored(idx: u32) -> (b: bool)
    ensures
        b == spec_syscall_ignored(idx),
{
    match idx {
        0x0e | 0x2f | 0x30 | 0x3f | 0x4f => true,
        _ => false,
    }
}

/// Length of the NUL-terminated prefix of a buffer read from memory: the
/// bytes up to and including the first NUL, or the whole buffer when no
/// NUL occurs.
pub open spec fn spec_nul_prefix_len(buf: Seq<u8>) -> int {
    if exists|i: int| 0 <= i < buf.len() && buf[i] == 0 {
        (choose|i: int|
            0 <= i < buf.len() && buf[i] == 0 && forall|j: int|
                0 <= j < i ==> buf[j] != 0) + 1
    } else {
        buf.len() as int
    }
}

/// Scan a buffer for its NUL terminator, returning how many bytes belong
/// to the string: everything up to and including the first NUL, or the
/// whole buffer when no NUL occurs.
pub fn nul_prefix_len(buf: &[u8]) -> (n: usize)
    ensures
        n <= buf@.len(),
        n == spec_nul_prefix_len(buf@),
{
    let mut i: usize = 0;
    while i < buf.len()
        invariant
            i <= buf@.len(),
            forall|j: int| 0 <= j < i ==> buf@[j] != 0,
        decreases buf@.len() - i,
    {
        if buf[i] == 0 {
            proof {
                assert(buf@[i as int] == 0);
                assert(spec_nul_prefix_len(buf@) == i + 1);
            }
            return i + 1;
        }
        i = i + 1;
    }
    proof {
        assert(forall|j: int| 0 <= j < buf@.len() ==> buf@[j] != 0);
    }
    buf.len()
}

} // verus!
