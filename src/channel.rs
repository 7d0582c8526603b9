use vstd::prelude::*;

verus! {

/// The transport a command arrived on, used to route the response.
#[derive(Clone, Copy, Debug, PartialEq, Eq, Structural)]
pub enum CommChannel {
    SerialUsb,
    SerialPort1,
    SerialPort2,
    /// Commands that the firmware issues itself.
    Internal,
}

} // verus!
