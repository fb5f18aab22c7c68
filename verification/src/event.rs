use vstd::prelude::*;
use vstd::string::StringExecFns;

use crate::queue::PostHog;

verus! {

/// One analytics record, as the runtime carries it: a name, an identity
/// (empty means anonymous), and an optional caller-supplied payload.
///
/// The payload is the caller's properties already rendered as a JSON object
/// text (as a JSON encoder emits it, braces first and last, no surrounding
/// whitespace); the runtime treats it as opaque and only splices it into the
/// batch body.
pub struct Event {
    pub name: String,
    pub distinct_id: String,
    pub properties: Option<String>,
}

/// An event under construction: named, but with no decision yet on its
/// identity. It must pass through `identify` or `anonymous` before it can be
/// enqueued.
#[must_use]
pub struct NewEvent<'a> {
    pub event: Event,
    pub hog: &'a PostHog,
}

impl<'a> NewEvent<'a> {
    /// Ties the event to a person: sets the identity.
    pub fn identify(self, distinct_id: &str) -> (n: NewEventWithIdentity<'a>)
        ensures
            n.0.event.name == self.event.name,
            n.0.event.distinct_id@ == distinct_id@,
            n.0.event.properties == self.event.properties,
            n.0.hog == self.hog,
    {
        NewEventWithIdentity(
            NewEvent {
                event: Event {
                    distinct_id: String::from_str(distinct_id),
                    ..self.event
                },
                hog: self.hog,
            },
        )
    }

    /// Leaves the event anonymous: the identity stays empty.
    pub fn anonymous(self) -> (n: NewEventWithIdentity<'a>)
        ensures
            n.0.event == self.event,
            n.0.hog == self.hog,
    {
        NewEventWithIdentity(self)
    }
}

/// An event whose identity is settled; it can take a payload and be enqueued.
#[must_use]
pub struct NewEventWithIdentity<'a>(pub NewEvent<'a>);

impl<'a> NewEventWithIdentity<'a> {
    /// Attaches the caller's payload: a JSON object text, opaque to the
    /// runtime until it is spliced into the batch body.
    pub fn properties(self, properties: String) -> (n: Self)
        ensures
            n.0.event.name == self.0.event.name,
            n.0.event.distinct_id == self.0.event.distinct_id,
            n.0.event.properties == Option::Some(properties),
            n.0.hog == self.0.hog,
    {
        NewEventWithIdentity(
            NewEvent {
                event: Event { properties: Option::Some(properties), ..self.0.event },
                hog: self.0.hog,
            },
        )
    }

    /// Hands the finished record to the ingress channel; fire-and-forget. The
    /// producer never blocks and never observes a failure.
    pub fn enqueue(self) {
        let NewEvent { hog, event } = self.0;
        hog.send(event);
    }
}

} // verus!
