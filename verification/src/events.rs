//! The event vocabulary of the aggregate: immutable facts, each carrying a
//! stable type name and a schema version tag.

use vstd::prelude::*;
use vstd::string::StringExecFns;

verus! {

/// An immutable domain event. A value of this type records a change that has
/// already been decided; it is never rejected, only applied.
#[derive(Debug, Clone)]
pub enum MyEvent {
    CommandAFiredEvent { value: String },
}

impl MyEvent {
    /// The payload carried by this event, as a sequence of characters.
    pub open spec fn spec_value(self) -> Seq<char> {
        match self {
            MyEvent::CommandAFiredEvent { value } => value@,
        }
    }

    /// The stable name of this event's variant, used as a discriminant for
    /// storage and replay dispatch.
    pub open spec fn spec_event_type(self) -> Seq<char> {
        match self {
            MyEvent::CommandAFiredEvent { .. } => "CommandAFiredEvent"@,
        }
    }

    /// Returns the stable, per-variant name of the event.
    pub fn event_type(&self) -> (r: String)
        ensures
            r@ == self.spec_event_type(),
    {
        let event_type: &str = match self {
            MyEvent::CommandAFiredEvent { .. } => "CommandAFiredEvent",
        };
        String::from_str(event_type)
    }

    /// Returns the schema version tag of the event payload.
    pub fn event_version(&self) -> (r: String)
        ensures
            r@ == "1.0"@,
    {
        String::from_str("1.0")
    }
}

impl PartialEq for MyEvent {
    fn eq(&self, other: &MyEvent) -> (r: bool) {
        match (self, other) {
            (
                MyEvent::CommandAFiredEvent { value: a },
                MyEvent::CommandAFiredEvent { value: b },
            ) => a.eq(b),
        }
    }
}

impl vstd::std_specs::cmp::PartialEqSpecImpl for MyEvent {
    open spec fn obeys_eq_spec() -> bool {
        true
    }

    open spec fn eq_spec(&self, other: &MyEvent) -> bool {
        self.spec_value() == other.spec_value()
    }
}

} // verus!
