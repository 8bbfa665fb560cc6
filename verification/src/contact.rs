//! How a swept box that hits a resting one is stopped: along which axis the
//! contact normal points and which entry time the motion is cut to.
use vstd::prelude::*;

verus! {

/// A coordinate axis.
#[derive(Clone, Copy, Debug, PartialEq, Eq, Structural)]
pub enum Axis {
    X,
    Y,
}

/// Which entry time the motion is cut to.
#[derive(Clone, Copy, Debug, PartialEq, Eq, Structural)]
pub enum EntryTime {
    /// The time to close the horizontal gap.
    AlongX,
    /// The time to close the vertical gap.
    AlongY,
    /// The greater of the two.
    Later,
}

/// The resolution of a contact: the axis of its normal and the time of impact.
#[derive(Clone, Copy, Debug, PartialEq, Eq, Structural)]
pub struct Contact {
    pub normal_axis: Axis,
    pub time: EntryTime,
}

/// The resolution of a contact, given whether the horizontal and the vertical
/// velocity are zero and whether the horizontal entry time is less than the
/// vertical one.
pub open spec fn contact_spec(vx_is_zero: bool, vy_is_zero: bool, x_enters_first: bool) -> Contact {
    if vx_is_zero {
        Contact { normal_axis: Axis::Y, time: EntryTime::AlongY }
    } else if vy_is_zero {
        Contact { normal_axis: Axis::X, time: EntryTime::AlongX }
    } else if x_enters_first {
        Contact { normal_axis: Axis::Y, time: EntryTime::Later }
    } else {
        Contact { normal_axis: Axis::X, time: EntryTime::Later }
    }
}

/// Resolves a contact. A box with no horizontal velocity is stopped by the
/// vertical gap, one with no vertical velocity by the horizontal gap;
/// otherwise the motion is cut to the later entry time and the normal lies
/// along the axis that is entered last.
pub fn contact_rule(vx_is_zero: bool, vy_is_zero: bool, x_enters_first: bool) -> (c: Contact)
    ensures
        c == contact_spec(vx_is_zero, vy_is_zero, x_enters_first),
        vx_is_zero ==> c.time == EntryTime::AlongY,
        !vx_is_zero && vy_is_zero ==> c.time == EntryTime::AlongX,
        !vx_is_zero && !vy_is_zero ==> c.time == EntryTime::Later,
        c.time == EntryTime::AlongX ==> c.normal_axis == Axis::X,
        c.time == EntryTime::AlongY ==> c.normal_axis == Axis::Y,
        c.time == EntryTime::Later ==> (c.normal_axis == Axis::Y <==> x_enters_first),
{
    if vx_is_zero {
        Contact { normal_axis: Axis::Y, time: EntryTime::AlongY }
    } else if vy_is_zero {
        Contact { normal_axis: Axis::X, time: EntryTime::AlongX }
    } else if x_enters_first {
        Contact { normal_axis: Axis::Y, time: EntryTime::Later }
    } else {
        Contact { normal_axis: Axis::X, time: EntryTime::Later }
    }
}

} // verus!
