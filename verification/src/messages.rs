//! Domain values shared by the simulators: the control types a session can
//! negotiate, instruction status reports, and the commodity quantities the
//! devices distinguish. These mirror the protocol's vocabulary as plain
//! values; the surrounding process translates them to wire messages.

use vstd::prelude::*;

verus! {

/// The control types a counterparty can negotiate. Each simulator accepts
/// exactly the types it was built for; `Other` stands for every type none
/// of the simulators here supports.
#[derive(Clone, Copy, PartialEq, Eq, Structural, Debug)]
pub enum ControlType {
    FillRateBasedControl,
    PowerEnvelopeBasedControl,
    NotControlable,
    NoSelection,
    Other,
}

/// The outcome reported for a received instruction.
#[derive(Clone, Copy, PartialEq, Eq, Structural, Debug)]
pub enum InstructionStatus {
    Succeeded,
    Rejected,
}

/// A status report answering one instruction, echoing the instruction's
/// identifier as it arrived.
pub struct InstructionStatusUpdate {
    pub instruction_id: String,
    pub status_type: InstructionStatus,
    pub timestamp_ms: i64,
}

/// The commodity quantities the photovoltaic simulators distinguish: the
/// one they track, and everything else.
#[derive(Clone, Copy, PartialEq, Eq, Structural, Debug)]
pub enum CommodityQuantity {
    ElectricPowerL1,
    Other,
}

} // verus!
