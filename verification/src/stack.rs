//! The conventions of stack slots, and the checks that guard every access.
//!
//! The runtime keeps one value stack, of which a host function sees the
//! slots of the active frame. A slot is named by a signed index: a
//! non-negative index counts from the base of the frame, a negative one from
//! its top, `-1` being the topmost slot. An index is valid when it names a
//! populated slot of the active frame. Using an invalid one is a fault of the
//! host and is never passed on to the runtime.
use vstd::prelude::*;

verus! {

/// An offset into the stack of the runtime. If it is non-negative it counts
/// from the start of the active frame, if it is negative from its end.
pub type Index = i32;

/// The index of the topmost slot.
pub const TOP: Index = -1;

/// `slot` names a populated slot of a frame that holds `depth` values.
pub open spec fn slot_valid(depth: nat, slot: int) -> bool {
    if slot < 0 {
        -slot <= depth
    } else {
        slot < depth
    }
}

/// The distance from the base of a frame that holds `depth` values to the
/// slot that `slot` names.
pub open spec fn slot_offset(depth: nat, slot: int) -> int {
    if slot < 0 {
        depth + slot
    } else {
        slot
    }
}

/// A valid index names a slot inside the frame, and the two ways of naming
/// one slot agree: the index from the top that corresponds to an offset from
/// the base is that offset less the depth.
pub proof fn lemma_slot_offset_in_frame(depth: nat, slot: int)
    requires
        slot_valid(depth, slot),
    ensures
        0 <= slot_offset(depth, slot) < depth,
        slot_valid(depth, slot_offset(depth, slot)),
        slot_valid(depth, slot_offset(depth, slot) - depth),
        slot_offset(depth, slot_offset(depth, slot) - depth) == slot_offset(depth, slot),
{
}

/// Popping is guarded by the validity of the lowest popped slot, and that
/// slot is valid exactly when the frame holds as many values as are popped:
/// popping more values than the frame holds is never let through.
pub proof fn lemma_pop_needs_values(depth: nat, n: int)
    requires
        n > 0,
    ensures
        slot_valid(depth, -n) <==> n <= depth,
{
}

/// The slot that must be valid before `argc` arguments are called: the one
/// that holds the callee, below the arguments.
///
/// It is valid exactly in a frame that holds the callee and all arguments.
pub fn call_slot(argc: u8) -> (slot: Index)
    ensures
        slot == -(argc + 1),
        forall|depth: nat| #[trigger] slot_valid(depth, slot as int) <==> depth >= argc + 1,
{
    let below: i32 = argc as i32 + 1;
    -below
}

/// The slot that must be valid before `n` values are popped: the lowest of
/// them.
///
/// It is valid exactly in a frame that holds at least `n` values, so popping
/// more values than the frame holds is always refused.
pub fn pop_slot(n: i32) -> (slot: Index)
    requires
        n > 0,
    ensures
        slot == -n,
        forall|depth: nat| #[trigger] slot_valid(depth, slot as int) <==> depth >= n,
{
    -n
}

/// What the host knows of the active frame: the index of its topmost slot,
/// which is `-1` in an empty frame.
#[derive(Clone, Copy, Debug)]
pub struct Frame {
    top: Index,
}

impl Frame {
    #[verifier::type_invariant]
    spec fn top_in_range(self) -> bool {
        self.top >= -1
    }

    /// The number of values in the frame.
    pub closed spec fn depth(self) -> nat {
        (self.top + 1) as nat
    }

    /// The frame whose topmost slot has the index `top`. There is no frame
    /// for an index below `-1`.
    pub fn new(top: Index) -> (frame: Option<Frame>)
        ensures
            frame is Some <==> top >= -1,
            frame matches Some(f) ==> f.depth() == top + 1,
    {
        if top >= -1 {
            Some(Frame { top })
        } else {
            None
        }
    }

    /// The index of the topmost slot, counted from the base of the frame.
    pub fn top(&self) -> (top: Index)
        ensures
            top == self.depth() - 1,
    {
        proof {
            use_type_invariant(self);
        }
        self.top
    }

    /// Tells whether `slot` is valid, that is, whether it neither overflows
    /// nor underflows the frame.
    pub fn validate_slot(&self, slot: Index) -> (ok: bool)
        ensures
            ok == slot_valid(self.depth(), slot as int),
    {
        proof {
            use_type_invariant(self);
        }
        if slot < 0 {
            slot >= -self.top - 1
        } else {
            slot <= self.top
        }
    }

    /// Resolves `slot` to an offset from the base of the frame. An invalid
    /// slot resolves to nothing.
    pub fn resolve(&self, slot: Index) -> (offset: Option<Index>)
        ensures
            offset is Some <==> slot_valid(self.depth(), slot as int),
            offset matches Some(o) ==> o == slot_offset(self.depth(), slot as int),
    {
        proof {
            use_type_invariant(self);
        }
        if !self.validate_slot(slot) {
            None
        } else if slot < 0 {
            Some(self.top + (slot + 1))
        } else {
            Some(slot)
        }
    }

    /// The index of the slot that lies `slot` places below the topmost one.
    /// The result is an index like any other and has to be validated before
    /// it is used.
    pub fn peek(&self, slot: Index) -> (index: Index)
        requires
            slot > 0,
        ensures
            index == self.depth() - 1 - slot,
    {
        proof {
            use_type_invariant(self);
        }
        self.top - slot
    }
}

} // verus!
