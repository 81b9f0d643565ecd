//! The rule under which a value that arrives from a background observer may
//! be shown: while the user holds a control, the user wins.

use vstd::prelude::*;

verus! {

/// The control is pressed or being dragged.
pub const ACTIVE: u32 = 1;

/// The pointer rests on the control.
pub const PRELIGHT: u32 = 2;

/// A control's state flags, one bit per state, as the toolkit reports them.
#[derive(Clone, Copy, Debug, PartialEq, Eq, Structural)]
pub struct InteractionFlags {
    pub bits: u32,
}

impl InteractionFlags {
    /// Whether every bit of `mask` is set.
    pub open spec fn has(self, mask: u32) -> bool {
        self.bits & mask == mask
    }

    /// The user is interacting with the control: it is pressed or being
    /// dragged, under the pointer or not. The pointer resting on a control
    /// that is not pressed is no interaction.
    pub open spec fn engaged(self) -> bool {
        self.has(ACTIVE)
    }

    /// Flags with no state set.
    pub fn none() -> (f: Self)
        ensures
            f.bits == 0,
            !f.engaged(),
    {
        assert(0u32 & 1u32 != 1u32) by (bit_vector);
        InteractionFlags { bits: 0 }
    }

    /// The flags that the toolkit reports as `bits`.
    pub fn from_bits(bits: u32) -> (f: Self)
        ensures
            f.bits == bits,
    {
        InteractionFlags { bits }
    }

    /// Whether every state of `mask` is set.
    pub fn contains(&self, mask: u32) -> (b: bool)
        ensures
            b == self.has(mask),
    {
        self.bits & mask == mask
    }

    /// Whether the user is interacting with the control.
    pub fn is_engaged(&self) -> (b: bool)
        ensures
            b == self.engaged(),
    {
        self.contains(ACTIVE)
    }
}

/// Being pressed is interaction whatever other states are set, and nothing
/// else is: not the pointer resting on the control, nor any state of a
/// control that is not pressed.
pub proof fn pressed_decides(bits: u32)
    ensures
        (InteractionFlags { bits: bits | ACTIVE }).engaged(),
        !(InteractionFlags { bits: bits & !ACTIVE }).engaged(),
        !(InteractionFlags { bits: PRELIGHT }).engaged(),
{
    assert((bits | 1u32) & 1u32 == 1u32) by (bit_vector);
    assert((bits & !1u32) & 1u32 != 1u32) by (bit_vector);
    assert(2u32 & 1u32 != 1u32) by (bit_vector);
}

/// What the displayed value is after `incoming` has arrived under `flags`.
pub open spec fn delivered<T>(shown: T, flags: InteractionFlags, incoming: T) -> T {
    if flags.engaged() {
        shown
    } else {
        incoming
    }
}

/// Hands one value from a background observer to a control. The value is
/// shown unless the user is interacting with the control; then it is
/// dropped, not kept for later. Returns whether it was shown.
pub fn deliver<T>(shown: &mut T, flags: InteractionFlags, incoming: T) -> (applied: bool)
    ensures
        applied == !flags.engaged(),
        *final(shown) == delivered(*old(shown), flags, incoming),
{
    if flags.is_engaged() {
        false
    } else {
        *shown = incoming;
        true
    }
}

/// Interaction priority over a whole burst: after any run of arrivals, the
/// displayed value is the last one that arrived while the user was not
/// interacting, or the value shown before if there was none.
pub open spec fn delivered_all<T>(shown: T, arrivals: Seq<(InteractionFlags, T)>) -> T
    decreases arrivals.len(),
{
    if arrivals.len() == 0 {
        shown
    } else {
        delivered(
            delivered_all(shown, arrivals.drop_last()),
            arrivals.last().0,
            arrivals.last().1,
        )
    }
}

/// While every arrival finds the user interacting, the displayed value does
/// not change.
pub proof fn held_while_engaged<T>(shown: T, arrivals: Seq<(InteractionFlags, T)>)
    requires
        forall|i: int| 0 <= i < arrivals.len() ==> (#[trigger] arrivals[i]).0.engaged(),
    ensures
        delivered_all(shown, arrivals) == shown,
    decreases arrivals.len(),
{
    if arrivals.len() > 0 {
        held_while_engaged(shown, arrivals.drop_last());
    }
}

/// Once the interaction has ended, the next arrival is shown, whatever was
/// dropped before it.
pub proof fn shown_once_released<T>(
    shown: T,
    arrivals: Seq<(InteractionFlags, T)>,
    flags: InteractionFlags,
    incoming: T,
)
    requires
        !flags.engaged(),
    ensures
        delivered_all(shown, arrivals.push((flags, incoming))) == incoming,
{
    assert(arrivals.push((flags, incoming)).last() == (flags, incoming));
}

} // verus!
