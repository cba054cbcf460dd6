//! Button snapshots and the rising edges between two of them.

use vstd::prelude::*;

verus! {

/// The six buttons as the host polled them in one tick: `true` is "held".
#[derive(Clone, Copy, Debug, PartialEq, Eq, Structural)]
pub struct Keys {
    pub up: bool,
    pub down: bool,
    pub left: bool,
    pub right: bool,
    /// The primary (select) button.
    pub a: bool,
    /// The secondary button.
    pub b: bool,
}

impl Keys {
    /// The snapshot in which no button is held.
    pub open spec fn released() -> Keys {
        Keys { up: false, down: false, left: false, right: false, a: false, b: false }
    }

    /// Whether any of the six buttons is set.
    pub open spec fn any(self) -> bool {
        self.up || self.down || self.left || self.right || self.a || self.b
    }
}

impl Default for Keys {
    fn default() -> (keys: Keys)
        ensures
            keys == Keys::released(),
    {
        Keys { up: false, down: false, left: false, right: false, a: false, b: false }
    }
}

/// The buttons that went from released to held between two snapshots.
pub open spec fn spec_edges(previous: Keys, current: Keys) -> Keys {
    Keys {
        up: current.up && !previous.up,
        down: current.down && !previous.down,
        left: current.left && !previous.left,
        right: current.right && !previous.right,
        a: current.a && !previous.a,
        b: current.b && !previous.b,
    }
}

/// Rising edges: a button fires in the tick in which it is held and was not
/// held in the tick before, so a button that stays down fires once.
pub fn edges(previous: &Keys, current: &Keys) -> (fired: Keys)
    ensures
        fired == spec_edges(*previous, *current),
{
    Keys {
        up: current.up && !previous.up,
        down: current.down && !previous.down,
        left: current.left && !previous.left,
        right: current.right && !previous.right,
        a: current.a && !previous.a,
        b: current.b && !previous.b,
    }
}

} // verus!
