use vstd::prelude::*;

verus! {

/// The four analog thumb-stick axes.
#[derive(Debug, Copy, Clone, PartialEq, Eq, Structural, Hash)]
pub enum Axis {
    /// Left thumb stick, left/right
    LX,
    /// Left thumb stick, up/down
    LY,
    /// Right thumb stick, left/right
    RX,
    /// Right thumb stick, up/down
    RY,
}

/// The analog shoulder triggers, reading 0 ..= 65535.
#[derive(Debug, Copy, Clone, PartialEq, Eq, Structural, Hash)]
pub enum Shoulder {
    /// Upper left shoulder
    L1,
    /// Lower left shoulder
    L2,
    /// Upper right shoulder
    R1,
    /// Lower right shoulder
    R2,
}

/// The digital buttons. L1, L2, R1 and R2 are reported here too, apart
/// from their analog readings.
#[derive(Debug, Copy, Clone, PartialEq, Eq, Structural, Hash)]
pub enum Button {
    Square,
    Circle,
    Triangle,
    Cross,
    PS,
    Start,
    Select,
    LeftStick,
    RightStick,
    Up,
    Down,
    Left,
    Right,
    L1,
    L2,
    R1,
    R2,
}

pub const AXIS_COUNT: usize = 4;
pub const SHOULDER_COUNT: usize = 4;
pub const BUTTON_COUNT: usize = 17;

impl Axis {
    /// Position of this axis in a table of all axes.
    pub open spec fn spec_slot(self) -> nat {
        match self {
            Axis::LX => 0,
            Axis::LY => 1,
            Axis::RX => 2,
            Axis::RY => 3,
        }
    }

    pub fn slot(self) -> (r: usize)
        ensures
            r == self.spec_slot(),
            r < AXIS_COUNT,
    {
        match self {
            Axis::LX => 0,
            Axis::LY => 1,
            Axis::RX => 2,
            Axis::RY => 3,
        }
    }
}

impl Shoulder {
    /// Position of this shoulder in a table of all shoulders.
    pub open spec fn spec_slot(self) -> nat {
        match self {
            Shoulder::L1 => 0,
            Shoulder::L2 => 1,
            Shoulder::R1 => 2,
            Shoulder::R2 => 3,
        }
    }

    pub fn slot(self) -> (r: usize)
        ensures
            r == self.spec_slot(),
            r < SHOULDER_COUNT,
    {
        match self {
            Shoulder::L1 => 0,
            Shoulder::L2 => 1,
            Shoulder::R1 => 2,
            Shoulder::R2 => 3,
        }
    }
}

impl Button {
    /// Position of this button in a table of all buttons.
    pub open spec fn spec_slot(self) -> nat {
        match self {
            Button::Square => 0,
            Button::Circle => 1,
            Button::Triangle => 2,
            Button::Cross => 3,
            Button::PS => 4,
            Button::Start => 5,
            Button::Select => 6,
            Button::LeftStick => 7,
            Button::RightStick => 8,
            Button::Up => 9,
            Button::Down => 10,
            Button::Left => 11,
            Button::Right => 12,
            Button::L1 => 13,
            Button::L2 => 14,
            Button::R1 => 15,
            Button::R2 => 16,
        }
    }

    pub fn slot(self) -> (r: usize)
        ensures
            r == self.spec_slot(),
            r < BUTTON_COUNT,
    {
        match self {
            Button::Square => 0,
            Button::Circle => 1,
            Button::Triangle => 2,
            Button::Cross => 3,
            Button::PS => 4,
            Button::Start => 5,
            Button::Select => 6,
            Button::LeftStick => 7,
            Button::RightStick => 8,
            Button::Up => 9,
            Button::Down => 10,
            Button::Left => 11,
            Button::Right => 12,
            Button::L1 => 13,
            Button::L2 => 14,
            Button::R1 => 15,
            Button::R2 => 16,
        }
    }
}

} // verus!
