//! The notifications that subscribers get.

use vstd::prelude::*;

verus! {

/// What a notification carries.
#[derive(Clone, Copy, Debug, PartialEq, Eq)]
pub enum MessageData {
    /// The speed estimate in revolutions per minute.
    Rpm { rpm: u128 },
    /// Whether a shot is armed.
    Value { value: bool },
}

/// A notification: a tag that names its kind, and its payload. It leaves the
/// crate as a value; putting it on the wire is the transport's part.
#[derive(Clone, Copy, Debug, PartialEq, Eq)]
pub struct Message {
    pub kind: &'static str,
    pub data: MessageData,
}

/// The notification of a new speed estimate.
pub open spec fn rpm_update(rpm: u128) -> Message {
    Message { kind: "RPM_UPDATE", data: MessageData::Rpm { rpm } }
}

/// The notification that a shot was armed or disarmed.
pub open spec fn initiate_update(shot_initiated: bool) -> Message {
    Message { kind: "INITIATE_UPDATE", data: MessageData::Value { value: shot_initiated } }
}

impl Message {
    /// The notification of the speed estimate `rpm`.
    pub fn rpm(rpm: u128) -> (msg: Message)
        ensures
            msg == rpm_update(rpm),
    {
        Message { kind: "RPM_UPDATE", data: MessageData::Rpm { rpm } }
    }

    /// The notification that a shot is now armed (`true`) or disarmed.
    pub fn update_inidiated(shot_initiated: bool) -> (msg: Message)
        ensures
            msg == initiate_update(shot_initiated),
    {
        Message { kind: "INITIATE_UPDATE", data: MessageData::Value { value: shot_initiated } }
    }
}

} // verus!
