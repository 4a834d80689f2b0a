use vstd::prelude::*;
use vstd::math::{max, min};

verus! {

/// The X window id of a client.
pub type ClientId = u32;

/// A message passed to a layout.
///
/// The kinds are kept apart so that a layout takes only those it has a use for (one
/// that keeps no master windows ignores the master messages).
#[derive(Clone, Copy, Debug, PartialEq, Eq, Structural)]
pub enum LayoutMessage {
    GenericMessage(GenericMessage),
    MasterFactorMessage(MasterFactorMessage),
    MasterNumberMessage(MasterNumberMessage),
}

/// A message every kind of layout may receive.
#[derive(Clone, Copy, Debug, PartialEq, Eq, Structural)]
pub enum GenericMessage {
    AddClient(ClientId),
}

/// A message manipulating the master factor of a layout.
///
/// A master factor, if supported by a layout, is a percentage which the layout uses to assign
/// one or more master windows a specific amount of screen space.
#[derive(Clone, Copy, Debug, PartialEq, Eq, Structural)]
pub enum MasterFactorMessage {
    /// Set the absolute value of the master factor, saturated to 100.
    Absolute(u8),
    /// Increase the value of the master factor by the given amount, capped to 100.
    Increase(u8),
    /// Decrease the value of the master factor by the given amount, saturated to 0.
    Decrease(u8),
}

/// A message manipulating the master number of a layout.
#[derive(Clone, Copy, Debug, PartialEq, Eq, Structural)]
pub enum MasterNumberMessage {
    /// Set the absolute value of the master number, at least 1.
    Absolute(u8),
    /// Increase the value of the master number by the given amount.
    Increase(u8),
    /// Decrease the value of the master number by the given amount, saturated to 1.
    Decrease(u8),
}

/// The largest master factor: the master area takes the whole screen.
pub const MAX_MASTER_FACTOR: u8 = 100;

impl MasterFactorMessage {
    /// The master factor that follows from `factor` under this message.
    pub open spec fn result_for(self, factor: int) -> int {
        match self {
            MasterFactorMessage::Absolute(v) => min(100, v as int),
            MasterFactorMessage::Increase(d) => min(100, factor + d),
            MasterFactorMessage::Decrease(d) => max(0, factor - d),
        }
    }

    /// Apply the message to a master factor, saturating at 0 and 100.
    pub fn apply(&self, factor: u8) -> (r: u8)
        ensures
            r as int == self.result_for(factor as int),
    {
        match *self {
            MasterFactorMessage::Absolute(v) => {
                if v > MAX_MASTER_FACTOR {
                    MAX_MASTER_FACTOR
                } else {
                    v
                }
            },
            MasterFactorMessage::Increase(d) => {
                let sum: u16 = factor as u16 + d as u16;
                if sum > MAX_MASTER_FACTOR as u16 {
                    MAX_MASTER_FACTOR
                } else {
                    sum as u8
                }
            },
            MasterFactorMessage::Decrease(d) => {
                if d > factor {
                    0
                } else {
                    factor - d
                }
            },
        }
    }
}

impl MasterNumberMessage {
    /// The master number that follows from `number` under this message; `usize::MAX`
    /// bounds it only because the count is held in a `usize`.
    pub open spec fn result_for(self, number: int) -> int {
        match self {
            MasterNumberMessage::Absolute(v) => max(1, v as int),
            MasterNumberMessage::Increase(d) => min(usize::MAX as int, number + d),
            MasterNumberMessage::Decrease(d) => max(1, number - d),
        }
    }

    /// Apply the message to a master number, never going below 1.
    pub fn apply(&self, number: usize) -> (r: usize)
        ensures
            r as int == self.result_for(number as int),
    {
        match *self {
            MasterNumberMessage::Absolute(v) => {
                if v == 0 {
                    1
                } else {
                    v as usize
                }
            },
            MasterNumberMessage::Increase(d) => {
                if number > usize::MAX - d as usize {
                    usize::MAX
                } else {
                    number + d as usize
                }
            },
            MasterNumberMessage::Decrease(d) => {
                if number <= d as usize + 1 {
                    1
                } else {
                    number - d as usize
                }
            },
        }
    }
}

} // verus!
