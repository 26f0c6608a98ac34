use vstd::prelude::*;

verus! {

/// The closed set of milestone tags. `Unset` is the default/uninitialized tag
/// of the wire representation and is never emitted deliberately; every emitted
/// event carries exactly one of the other five tags.
#[derive(Clone, Copy, PartialEq, Eq, Structural, Debug)]
pub enum EventType {
    Unset,
    Progress,
    ServerWelcome,
    FileMetadata,
    ConnectedToRelay,
    Code,
}

impl Default for EventType {
    fn default() -> (t: EventType)
        ensures
            t == EventType::Unset,
    {
        EventType::Unset
    }
}

/// The numeric tag each `EventType` carries in the serialized wire form.
pub open spec fn spec_event_type_index(t: EventType) -> u64 {
    match t {
        EventType::Unset => 0,
        EventType::Progress => 1,
        EventType::ServerWelcome => 2,
        EventType::FileMetadata => 3,
        EventType::ConnectedToRelay => 4,
        EventType::Code => 5,
    }
}

/// Numeric wire tag of an event type (`event_type` field of the serialized form).
pub fn event_type_index(t: EventType) -> (n: u64)
    ensures
        n == spec_event_type_index(t),
{
    match t {
        EventType::Unset => 0,
        EventType::Progress => 1,
        EventType::ServerWelcome => 2,
        EventType::FileMetadata => 3,
        EventType::ConnectedToRelay => 4,
        EventType::Code => 5,
    }
}

/// A milestone event: one tag together with exactly the payload fields that
/// are meaningful for that tag. A consumer switches on the variant; payloads
/// of other variants are statically inaccessible.
pub enum Event {
    /// Informational text returned by the rendezvous service (receiver side).
    ServerWelcome { message: String },
    /// Name and size of the offered file (receiver side).
    FileMetadata { file_name: String, file_size: u64 },
    /// The bulk-data channel has been negotiated.
    ConnectedToRelay,
    /// Bytes transferred so far, out of the total byte count.
    Progress { current: u64, total: u64 },
    /// The pairing code issued by the rendezvous service (sender side).
    Code { code: String },
}

/// Mathematical model of an `Event`: the same tagged value over sequences.
pub enum EventV {
    ServerWelcome { message: Seq<char> },
    FileMetadata { file_name: Seq<char>, file_size: u64 },
    ConnectedToRelay,
    Progress { current: u64, total: u64 },
    Code { code: Seq<char> },
}

impl View for Event {
    type V = EventV;

    open spec fn view(&self) -> EventV {
        match self {
            Event::ServerWelcome { message } => EventV::ServerWelcome { message: message@ },
            Event::FileMetadata { file_name, file_size } => EventV::FileMetadata {
                file_name: file_name@,
                file_size: *file_size,
            },
            Event::ConnectedToRelay => EventV::ConnectedToRelay,
            Event::Progress { current, total } => EventV::Progress {
                current: *current,
                total: *total,
            },
            Event::Code { code } => EventV::Code { code: code@ },
        }
    }
}

impl Event {
    /// The tag of this event.
    pub open spec fn spec_event_type(&self) -> EventType {
        match self {
            Event::ServerWelcome { .. } => EventType::ServerWelcome,
            Event::FileMetadata { .. } => EventType::FileMetadata,
            Event::ConnectedToRelay => EventType::ConnectedToRelay,
            Event::Progress { .. } => EventType::Progress,
            Event::Code { .. } => EventType::Code,
        }
    }

    /// The tag of this event.
    pub fn event_type(&self) -> (t: EventType)
        ensures
            t == self.spec_event_type(),
    {
        match self {
            Event::ServerWelcome { .. } => EventType::ServerWelcome,
            Event::FileMetadata { .. } => EventType::FileMetadata,
            Event::ConnectedToRelay => EventType::ConnectedToRelay,
            Event::Progress { .. } => EventType::Progress,
            Event::Code { .. } => EventType::Code,
        }
    }
}

/// Builds the `ServerWelcome` milestone event.
pub fn server_welcome(server_welcome_message: String) -> (e: Event)
    ensures
        e@ == (EventV::ServerWelcome { message: server_welcome_message@ }),
{
    Event::ServerWelcome { message: server_welcome_message }
}

/// Builds the `FileMetadata` milestone event.
pub fn file_metadata(file_name: String, file_size: u64) -> (e: Event)
    ensures
        e@ == (EventV::FileMetadata { file_name: file_name@, file_size: file_size }),
{
    Event::FileMetadata { file_name, file_size }
}

/// Builds the `ConnectedToRelay` milestone event.
pub fn connected() -> (e: Event)
    ensures
        e@ == EventV::ConnectedToRelay,
{
    Event::ConnectedToRelay
}

/// Builds a `Progress` event carrying the bytes transferred so far and the
/// total byte count.
pub fn progress(progress_current: u64, progress_total: u64) -> (e: Event)
    ensures
        e@ == (EventV::Progress { current: progress_current, total: progress_total }),
{
    Event::Progress { current: progress_current, total: progress_total }
}

/// Builds the `Code` milestone event carrying the pairing code.
pub fn code(pairing_code: String) -> (e: Event)
    ensures
        e@ == (EventV::Code { code: pairing_code@ }),
{
    Event::Code { code: pairing_code }
}

} // verus!
