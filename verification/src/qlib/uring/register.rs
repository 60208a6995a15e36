//! What can be registered with a submission ring: the probe of the
//! operations it supports, and restrictions on its use.

use vstd::prelude::*;

verus! {

/// The flag of a probed operation that the ring supports.
pub const IO_URING_OP_SUPPORTED: u16 = 1;

/// What the probe says of one operation.
#[derive(Clone, Copy, Debug, PartialEq, Eq, Structural)]
pub struct ProbeOp {
    pub op: u8,
    pub flags: u16,
}

/// The answer of a ring to a probe: the operations it knows, by their
/// number.
pub struct Probe {
    /// The last operation that the ring knows.
    pub last_op: u8,
    pub ops: Vec<ProbeOp>,
}

impl Probe {
    /// How many operations a probe has room for.
    pub const COUNT: usize = 256;

    /// The probe has room for all its operations.
    pub open spec fn wf(&self) -> bool {
        self.ops@.len() == Probe::COUNT
    }

    /// Whether the ring supports the operation `opcode`: the ring knows
    /// it, and its flags say so.
    pub fn is_supported(&self, opcode: u8) -> (r: bool)
        requires
            self.wf(),
        ensures
            r == (opcode <= self.last_op && self.ops@[opcode as int].flags & IO_URING_OP_SUPPORTED != 0),
    {
        if opcode <= self.last_op {
            self.ops[opcode as usize].flags & IO_URING_OP_SUPPORTED != 0
        } else {
            false
        }
    }
}

/// Allows an operation of `register`.
pub const IORING_RESTRICTION_REGISTER_OP: u16 = 0;

/// Allows an operation of a submission.
pub const IORING_RESTRICTION_SQE_OP: u16 = 1;

/// Allows flags of a submission.
pub const IORING_RESTRICTION_SQE_FLAGS_ALLOWED: u16 = 2;

/// Demands flags of a submission.
pub const IORING_RESTRICTION_SQE_FLAGS_REQUIRED: u16 = 3;

/// One restriction on the use of a ring: its kind, and the operation or
/// the flags that it speaks of.
#[derive(Clone, Copy, Debug, PartialEq, Eq, Structural)]
pub struct Restriction {
    pub opcode: u16,
    pub arg: u8,
}

impl Restriction {
    /// Allows the operation `op` of `register`.
    pub fn register_op(op: u8) -> (r: Restriction)
        ensures
            r == (Restriction { opcode: IORING_RESTRICTION_REGISTER_OP, arg: op }),
    {
        Restriction { opcode: IORING_RESTRICTION_REGISTER_OP, arg: op }
    }

    /// Allows the operation `op` of a submission.
    pub fn sqe_op(op: u8) -> (r: Restriction)
        ensures
            r == (Restriction { opcode: IORING_RESTRICTION_SQE_OP, arg: op }),
    {
        Restriction { opcode: IORING_RESTRICTION_SQE_OP, arg: op }
    }

    /// Allows the flags `flags` of a submission.
    pub fn sqe_flags_allowed(flags: u8) -> (r: Restriction)
        ensures
            r == (Restriction { opcode: IORING_RESTRICTION_SQE_FLAGS_ALLOWED, arg: flags }),
    {
        Restriction { opcode: IORING_RESTRICTION_SQE_FLAGS_ALLOWED, arg: flags }
    }

    /// Demands the flags `flags` of every submission.
    pub fn sqe_flags_required(flags: u8) -> (r: Restriction)
        ensures
            r == (Restriction { opcode: IORING_RESTRICTION_SQE_FLAGS_REQUIRED, arg: flags }),
    {
        Restriction { opcode: IORING_RESTRICTION_SQE_FLAGS_REQUIRED, arg: flags }
    }
}

} // verus!
