//! The aggregate: a state machine that validates commands against its current
//! state and folds accepted events back into that state. The state is always
//! a pure, deterministic function of the event history.

use vstd::prelude::*;
use vstd::string::StrSliceExecFns;
use vstd::string::StringExecFns;
use crate::events::MyEvent;

verus! {

/// An intent to change the aggregate's state. Commands are not persisted and
/// may be rejected; they carry no version.
#[derive(Debug)]
pub enum Command {
    CommandA { value: String },
}

/// The failure channel of command validation: an opaque, message-carrying
/// value.
#[derive(Debug)]
pub struct MyError(String);

impl MyError {
    /// The message this error carries, as a sequence of characters.
    pub closed spec fn spec_message(self) -> Seq<char> {
        self.0@
    }

    /// Builds a validation error from a descriptive message.
    pub fn new(message: &str) -> (r: MyError)
        ensures
            r.spec_message() == message@,
    {
        MyError(String::from_str(message))
    }

    /// The human-readable description this error was built from.
    pub fn message(&self) -> (r: &String)
        ensures
            r@ == self.spec_message(),
    {
        &self.0
    }
}

impl<'a> From<&'a str> for MyError {
    fn from(message: &'a str) -> (r: MyError)
        ensures
            r.spec_message() == message@,
    {
        MyError::new(message)
    }
}

impl<'a> vstd::std_specs::convert::FromSpecImpl<&'a str> for MyError {
    open spec fn obeys_from_spec() -> bool {
        false
    }

    open spec fn from_spec(v: &'a str) -> MyError {
        vstd::pervasive::arbitrary()
    }
}

/// An opaque capability bundle handed to command validation; the aggregate
/// never inspects or stores it.
pub struct MyServices;

/// The aggregate's state record: a plain value derived purely from the
/// events folded into it.
#[allow(non_snake_case)]
#[derive(Debug, PartialEq, Eq, Structural)]
pub struct MyAggregate {
    pub fieldAggregate: u16,
}

/// The state with no events applied yet: the type-level default every
/// replay starts from.
pub open spec fn spec_default() -> MyAggregate {
    MyAggregate { fieldAggregate: 0 }
}

/// The state-record value an event leaves behind: the character length of
/// the event's payload, saturated to the field's range.
pub open spec fn post_event_field(payload: Seq<char>) -> u16 {
    if payload.len() > u16::MAX { u16::MAX } else { payload.len() as u16 }
}

/// What folding one event into a state yields. Total over every event
/// variant, and independent of the state it starts from: the last event
/// folded decides the record.
pub open spec fn spec_apply(state: MyAggregate, event: MyEvent) -> MyAggregate {
    match event {
        MyEvent::CommandAFiredEvent { value } => MyAggregate {
            fieldAggregate: post_event_field(value@),
        },
    }
}

/// The events a command gives rise to, given the current state. Every
/// variant of `Command` currently has a matching business rule; a variant
/// without one would map to the empty sequence.
pub open spec fn spec_handle(state: MyAggregate, command: Command) -> Seq<MyEvent> {
    match command {
        Command::CommandA { value } => seq![MyEvent::CommandAFiredEvent { value }],
    }
}

/// The state reached by folding a sequence of events, in order, into a
/// starting state.
pub open spec fn spec_replay(state: MyAggregate, events: Seq<MyEvent>) -> MyAggregate
    decreases events.len(),
{
    if events.len() == 0 {
        state
    } else {
        spec_replay(spec_apply(state, events[0]), events.drop_first())
    }
}

impl Default for MyAggregate {
    /// The state with no events applied yet.
    fn default() -> (r: MyAggregate)
        ensures
            r == spec_default(),
    {
        MyAggregate { fieldAggregate: 0 }
    }
}

impl MyAggregate {
    /// The stable identifier of this aggregate kind, constant over all
    /// instances; used to namespace event streams.
    pub fn aggregate_type() -> (r: String)
        ensures
            r@ == "MyAggregate"@,
    {
        String::from_str("MyAggregate")
    }

    /// Validates `command` against the current state and returns, without
    /// mutating anything, the ordered events that would result. Validation
    /// is deterministic in the state and the command; the services handle is
    /// an inert capability token.
    pub fn handle(&self, command: Command, services: &MyServices) -> (r: Result<
        Vec<MyEvent>,
        MyError,
    >)
        ensures
            r matches Ok(events) && events@ == spec_handle(*self, command),
    {
        match command {
            Command::CommandA { value } => Ok(vec![MyEvent::CommandAFiredEvent { value }]),
        }
    }

    /// Folds one event into the state. Infallible and total over the event
    /// vocabulary; the new state is a pure function of the old state and the
    /// event.
    pub fn apply(&mut self, event: MyEvent)
        ensures
            *final(self) == spec_apply(*old(self), event),
    {
        match event {
            MyEvent::CommandAFiredEvent { value } => {
                let len: usize = value.as_str().unicode_len();
                self.fieldAggregate = if len > u16::MAX as usize {
                    u16::MAX
                } else {
                    len as u16
                };
            },
        }
    }

    /// Reconstructs a state from a stored event history: repeated `apply`
    /// from the default state, in storage order.
    pub fn from_history(events: Vec<MyEvent>) -> (r: MyAggregate)
        ensures
            r == spec_replay(spec_default(), events@),
    {
        let mut state = MyAggregate::default();
        let mut rest = events;
        let ghost all = rest@;
        while rest.len() > 0
            invariant
                spec_replay(spec_default(), all) == spec_replay(state, rest@),
            decreases rest.len(),
        {
            let event = rest.remove(0);
            state.apply(event);
        }
        state
    }
}

/// Determinism of command handling: two calls on equal states and equal
/// commands give rise to equal event sequences.
pub proof fn lemma_handle_deterministic(s1: MyAggregate, s2: MyAggregate, c1: Command, c2: Command)
    requires
        s1 == s2,
        c1 == c2,
    ensures
        spec_handle(s1, c1) == spec_handle(s2, c2),
{
}

/// Determinism of replay: folding equal event sequences from equal starting
/// states reaches equal states.
pub proof fn lemma_replay_deterministic(
    s1: MyAggregate,
    s2: MyAggregate,
    e1: Seq<MyEvent>,
    e2: Seq<MyEvent>,
)
    requires
        s1 == s2,
        e1 == e2,
    ensures
        spec_replay(s1, e1) == spec_replay(s2, e2),
{
}

/// Folding is order-sensitive: two histories that hold the same two events
/// in different orders reach different states, whenever the two events leave
/// different record values behind (two events with payloads of equal
/// character length are indistinguishable to the record).
pub proof fn lemma_replay_order_sensitive(s: MyAggregate, e1: MyEvent, e2: MyEvent)
    requires
        post_event_field(e1.spec_value()) != post_event_field(e2.spec_value()),
    ensures
        spec_replay(s, seq![e1, e2]) != spec_replay(s, seq![e2, e1]),
{
    assert(seq![e1, e2].drop_first() =~= seq![e2]);
    assert(seq![e2, e1].drop_first() =~= seq![e1]);
    assert(seq![e2].drop_first() =~= Seq::<MyEvent>::empty());
    assert(seq![e1].drop_first() =~= Seq::<MyEvent>::empty());
    assert(spec_replay(spec_apply(spec_apply(s, e1), e2), Seq::<MyEvent>::empty())
        == spec_apply(spec_apply(s, e1), e2));
    assert(spec_replay(spec_apply(spec_apply(s, e2), e1), Seq::<MyEvent>::empty())
        == spec_apply(spec_apply(s, e2), e1));
    assert(spec_replay(s, seq![e1, e2]) == spec_replay(spec_apply(s, e1), seq![e2]));
    assert(spec_replay(spec_apply(s, e1), seq![e2]) == spec_apply(spec_apply(s, e1), e2));
    assert(spec_replay(s, seq![e2, e1]) == spec_replay(spec_apply(s, e2), seq![e1]));
    assert(spec_replay(spec_apply(s, e2), seq![e1]) == spec_apply(spec_apply(s, e2), e1));
}

/// No-op safety: a command with no matching business rule gives rise to no
/// events, and folding that empty batch leaves the state exactly where it
/// was.
pub proof fn lemma_no_op_command_leaves_state(s: MyAggregate, c: Command)
    requires
        spec_handle(s, c).len() == 0,
    ensures
        spec_replay(s, spec_handle(s, c)) == s,
{
}

/// Applying the same event twice in sequence reaches the same state as
/// applying it once: the record an event leaves behind depends on the event
/// alone.
pub proof fn lemma_apply_idempotent(s: MyAggregate, e: MyEvent)
    ensures
        spec_apply(spec_apply(s, e), e) == spec_apply(s, e),
{
}

} // verus!
