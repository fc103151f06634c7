use vstd::prelude::*;

verus! {

/// Kinds of message the backend pushes to the user-interface window.
#[derive(Debug)]
pub enum MessageTypeEnum {
    ChangeClipboardBackend,
    UpdateClipboardRecordBackend,
    DeleteClipboardRecordBackend,
}

impl MessageTypeEnum {
    /// The event topic a message of this type is emitted under.
    pub open spec fn spec_topic(self) -> Seq<char> {
        match self {
            MessageTypeEnum::ChangeClipboardBackend => "cbs://change-clipboard-backend"@,
            MessageTypeEnum::UpdateClipboardRecordBackend => "cbs://update-clipboard-record-backend"@,
            MessageTypeEnum::DeleteClipboardRecordBackend => "cbs://delete-clipboard-record-backend"@,
        }
    }

    /// Topic string of this message type.
    pub fn topic(&self) -> (r: &'static str)
        ensures
            r@ == self.spec_topic(),
    {
        match self {
            MessageTypeEnum::ChangeClipboardBackend => "cbs://change-clipboard-backend",
            MessageTypeEnum::UpdateClipboardRecordBackend => "cbs://update-clipboard-record-backend",
            MessageTypeEnum::DeleteClipboardRecordBackend => "cbs://delete-clipboard-record-backend",
        }
    }
}

} // verus!
