use vstd::prelude::*;

verus! {

/// Kinds of event the backend listens for from the user-interface side.
#[derive(Debug)]
pub enum EventListenTypeEnum {
    TapChangeClipboardFrontend,
    DeleteClipboardRecordFrontend,
}

impl EventListenTypeEnum {
    /// The event topic this listener subscribes to.
    pub open spec fn spec_event_name(self) -> Seq<char> {
        match self {
            EventListenTypeEnum::TapChangeClipboardFrontend => "cbs://tap-change-clipboard-frontend"@,
            EventListenTypeEnum::DeleteClipboardRecordFrontend => "cbs://delete-clipboard-record-frontend"@,
        }
    }

    /// Topic string of this event type.
    pub fn event_name(&self) -> (r: String)
        ensures
            r@ == self.spec_event_name(),
    {
        match self {
            EventListenTypeEnum::TapChangeClipboardFrontend => "cbs://tap-change-clipboard-frontend"
                .to_owned(),
            EventListenTypeEnum::DeleteClipboardRecordFrontend => "cbs://delete-clipboard-record-frontend"
                .to_owned(),
        }
    }
}

} // verus!
