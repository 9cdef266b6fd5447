use vstd::prelude::*;

verus! {

/// The five logical signal roles of the register interface.
///
/// Each role corresponds to one physical output line: `SER` carries the
/// serial data bit, `SRCLK` is the shift clock, `RCLK` latches the shifted
/// bits onto the parallel outputs, `SRCLR` is the active-low clear line and
/// `OE` the active-low output enable.  The mapping of a role to a concrete
/// pin is fixed at startup by the platform layer and never changes.
#[derive(Clone, Copy, Debug, PartialEq, Eq, Structural)]
pub enum PinMapping {
    SER,
    OE,
    RCLK,
    SRCLK,
    SRCLR,
}

} // verus!
