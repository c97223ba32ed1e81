//! Scheduling a change of the version of the consensus protocol.

use vstd::prelude::*;

use crate::client::transaction::{Call, Extrinsic, Transaction};
use crate::rpc::client::XtStatus;

verus! {

/// Schedules the change to a version in a session.
pub fn schedule_upgrade(version: u32, session: u32) -> (xt: Transaction)
    ensures
        xt.extrinsic == Extrinsic::Sudo(Call::ScheduleVersionChange { version, session }),
        xt.label@ == "schedule_aleph_bft_version_change"@,
        xt.status == XtStatus::Finalized,
{
    Transaction {
        extrinsic: Extrinsic::Sudo(Call::ScheduleVersionChange { version, session }),
        label: "schedule_aleph_bft_version_change",
        status: XtStatus::Finalized,
    }
}

} // verus!
