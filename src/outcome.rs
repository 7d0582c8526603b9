use vstd::prelude::*;

verus! {

/// The motion queue has drained.
pub const MOV_QUEUE_EMPTY: u32 = 1;
/// The motion queue is full.
pub const MOV_QUEUE_FULL: u32 = 2;
/// The axes have been homed.
pub const HOMING: u32 = 4;
/// The power supply is on.
pub const ATX_ON: u32 = 8;
/// The hot end has reached its target temperature.
pub const HOT_END_TEMP_OK: u32 = 16;
/// The hot bed has reached its target temperature.
pub const HOT_BED_TEMP_OK: u32 = 32;

/// A condition over the event flags: the flags of `mask` must equal those
/// of `flags`.
#[derive(Clone, Copy, Debug, PartialEq, Eq, Structural)]
pub struct EventStatus {
    pub flags: u32,
    pub mask: u32,
}

impl EventStatus {
    /// The condition that every flag of `flags` is raised.
    pub fn containing(flags: u32) -> (r: EventStatus)
        ensures
            r == (EventStatus { flags, mask: flags }),
    {
        EventStatus { flags, mask: flags }
    }

    /// The condition that no flag of `flags` is raised.
    pub fn not_containing(flags: u32) -> (r: EventStatus)
        ensures
            r == (EventStatus { flags: 0, mask: flags }),
    {
        EventStatus { flags: 0, mask: flags }
    }
}

/// Whether the flags `current` meet the condition `st`.
pub open spec fn satisfied(current: u32, st: EventStatus) -> bool {
    current & st.mask == st.flags & st.mask
}

/// Whether the flags `current` meet the condition `st`.
pub fn is_satisfied(current: u32, st: EventStatus) -> (r: bool)
    ensures
        r == satisfied(current, st),
{
    current & st.mask == st.flags & st.mask
}

/// How a command that was carried out went.
#[derive(Clone, Copy, Debug, PartialEq, Eq, Structural)]
pub enum CodeExecutionSuccess {
    /// Immediately executed
    OK,
    /// Immediately executed and reported
    CONSUMED,
    /// Queued but assumed it will be executed not too long, so practically same as OK
    QUEUED,
    /// Executed but it will take time to get a final response. EventStatus contains the needed flags to wait for
    DEFERRED(EventStatus),
}

/// Why a command was not carried out.
#[derive(Clone, Copy, Debug, PartialEq, Eq, Structural)]
pub enum CodeExecutionFailure {
    /// Cannot perform because there is the same or something else running
    BUSY,
    /// Generic internal error
    ERR,
    /// Cannot perform because requires homing before
    HomingRequired,
    /// Cannot perform because requires power before
    PowerRequired,
    /// Specific internal error: Numerical computation issue (division by 0, sqrt(x<0) or any other kind of ambiguity)
    NumericalError,
    /// The GCode is considered, but not yet implemented
    NotYetImplemented,
}

pub type CodeExecutionResult = Result<CodeExecutionSuccess, CodeExecutionFailure>;

} // verus!
