//! Provider lifecycle manager: exactly-once, process-wide initialization of
//! the socket provider, with its teardown deferred to a process-exit hook.
//!
//! The manager is an explicit state machine. The hosting application owns
//! the first-caller-wins guard and the actual start call; it drives a
//! [`Provider`] value with the events it observes and performs the
//! [`ProviderAction`] it is handed back. The transition relation itself is
//! the pair of spec functions [`next_state`] and [`action_for`], and the
//! lemmas at the end of this module prove the lifecycle guarantees over
//! every possible event sequence: the start sequence is issued at most
//! once, the exit hook is registered at most once, and the initialized
//! state is stable.

use vstd::prelude::*;

use crate::consts::{WINSOCK_VERSION_2_2, WSADESCRIPTION_LEN, WSASYS_STATUS_LEN};
use crate::errors::ProviderStartFailure;

verus! {

/// Phase of the process-wide provider lifecycle.
#[derive(Clone, Copy, Debug, PartialEq, Eq, Structural)]
pub enum ProviderState {
    /// No caller has entered the manager yet; the provider is not started.
    Uninitialized,
    /// One caller has been told to run the start sequence and has not yet
    /// reported its outcome; every other caller waits.
    Starting,
    /// The start sequence succeeded. Terminal for the process lifetime.
    Initialized,
    /// The start sequence failed. Terminal: no socket operation is valid.
    Fatal,
}

/// An event the hosting application feeds into the state machine.
#[derive(Clone, Copy, Debug, PartialEq, Eq, Structural)]
pub enum ProviderEvent {
    /// A caller asks for the provider to be initialized.
    Enter,
    /// The start sequence finished with the given status (zero is success).
    StartResult { status: i32 },
}

/// What the hosting application must do next.
#[derive(Clone, Copy, Debug, PartialEq, Eq, Structural)]
pub enum ProviderAction {
    /// Run the provider start sequence, requesting this provider version,
    /// with a zero-filled negotiation record for it to populate.
    StartProvider { requested_version: u16 },
    /// Another caller is running the start sequence; wait for its outcome.
    Wait,
    /// The provider is initialized; the caller may proceed to create
    /// sockets and completion ports.
    Proceed,
    /// The provider failed to start earlier; the caller must not proceed.
    Refuse,
    /// The start sequence succeeded: register the process-exit cleanup
    /// hook, exactly now and exactly once.
    RegisterExitHook,
    /// The start sequence failed with this status: abort or propagate, do
    /// not retry.
    ReportFatal { status: i32 },
    /// The event does not apply in the current state; nothing to do.
    Ignore,
}

/// The transition relation of the lifecycle: the state after `event` is
/// observed in state `state`.
pub open spec fn next_state(state: ProviderState, event: ProviderEvent) -> ProviderState {
    match (state, event) {
        (ProviderState::Uninitialized, ProviderEvent::Enter) => ProviderState::Starting,
        (ProviderState::Starting, ProviderEvent::StartResult { status }) => if status == 0 {
            ProviderState::Initialized
        } else {
            ProviderState::Fatal
        },
        (s, _) => s,
    }
}

/// The action the machine hands back when `event` is observed in state
/// `state`.
pub open spec fn action_for(state: ProviderState, event: ProviderEvent) -> ProviderAction {
    match (state, event) {
        (ProviderState::Uninitialized, ProviderEvent::Enter) => (ProviderAction::StartProvider {
            requested_version: WINSOCK_VERSION_2_2,
        }),
        (ProviderState::Starting, ProviderEvent::Enter) => ProviderAction::Wait,
        (ProviderState::Initialized, ProviderEvent::Enter) => ProviderAction::Proceed,
        (ProviderState::Fatal, ProviderEvent::Enter) => ProviderAction::Refuse,
        (ProviderState::Starting, ProviderEvent::StartResult { status }) => if status == 0 {
            ProviderAction::RegisterExitHook
        } else {
            (ProviderAction::ReportFatal { status })
        },
        (_, ProviderEvent::StartResult { .. }) => ProviderAction::Ignore,
    }
}

/// The state after a whole sequence of events, observed in order.
pub open spec fn run(state: ProviderState, events: Seq<ProviderEvent>) -> ProviderState
    decreases events.len(),
{
    if events.len() == 0 {
        state
    } else {
        run(next_state(state, events.first()), events.drop_first())
    }
}

/// How many of the actions handed out along `events` ask for the provider
/// start sequence to run.
pub open spec fn start_count(state: ProviderState, events: Seq<ProviderEvent>) -> nat
    decreases events.len(),
{
    if events.len() == 0 {
        0
    } else {
        (if action_for(state, events.first()) is StartProvider {
            1nat
        } else {
            0nat
        }) + start_count(next_state(state, events.first()), events.drop_first())
    }
}

/// How many of the actions handed out along `events` ask for the exit hook
/// to be registered.
pub open spec fn hook_count(state: ProviderState, events: Seq<ProviderEvent>) -> nat
    decreases events.len(),
{
    if events.len() == 0 {
        0
    } else {
        (if action_for(state, events.first()) is RegisterExitHook {
            1nat
        } else {
            0nat
        }) + hook_count(next_state(state, events.first()), events.drop_first())
    }
}

proof fn lemma_no_start_after_leaving(state: ProviderState, events: Seq<ProviderEvent>)
    requires
        !(state is Uninitialized),
    ensures
        start_count(state, events) == 0,
    decreases events.len(),
{
    if events.len() > 0 {
        lemma_no_start_after_leaving(next_state(state, events.first()), events.drop_first());
    }
}

proof fn lemma_no_hook_when_settled(state: ProviderState, events: Seq<ProviderEvent>)
    requires
        state is Initialized || state is Fatal,
    ensures
        hook_count(state, events) == 0,
    decreases events.len(),
{
    if events.len() > 0 {
        lemma_no_hook_when_settled(next_state(state, events.first()), events.drop_first());
    }
}

proof fn lemma_at_most_one_hook_from_starting(events: Seq<ProviderEvent>)
    ensures
        hook_count(ProviderState::Starting, events) <= 1,
    decreases events.len(),
{
    if events.len() > 0 {
        let rest = events.drop_first();
        match events.first() {
            ProviderEvent::Enter => lemma_at_most_one_hook_from_starting(rest),
            ProviderEvent::StartResult { status } => if status == 0 {
                lemma_no_hook_when_settled(ProviderState::Initialized, rest);
            } else {
                lemma_no_hook_when_settled(ProviderState::Fatal, rest);
            },
        }
    }
}

/// Law: whatever events the process observes from its start — however many
/// callers enter, in whatever order the start outcome arrives — the
/// provider start sequence is asked for at most once, and the exit-hook
/// registration is asked for at most once.
pub proof fn lemma_start_sequence_at_most_once(events: Seq<ProviderEvent>)
    ensures
        start_count(ProviderState::Uninitialized, events) <= 1,
        hook_count(ProviderState::Uninitialized, events) <= 1,
    decreases events.len(),
{
    if events.len() > 0 {
        let rest = events.drop_first();
        match events.first() {
            ProviderEvent::Enter => {
                lemma_no_start_after_leaving(ProviderState::Starting, rest);
                lemma_at_most_one_hook_from_starting(rest);
            },
            ProviderEvent::StartResult { .. } => lemma_start_sequence_at_most_once(rest),
        }
    }
}

proof fn lemma_initialized_terminal(events: Seq<ProviderEvent>)
    ensures
        run(ProviderState::Initialized, events) == ProviderState::Initialized,
    decreases events.len(),
{
    if events.len() > 0 {
        lemma_initialized_terminal(events.drop_first());
    }
}

proof fn lemma_fatal_terminal(events: Seq<ProviderEvent>)
    ensures
        run(ProviderState::Fatal, events) == ProviderState::Fatal,
    decreases events.len(),
{
    if events.len() > 0 {
        lemma_fatal_terminal(events.drop_first());
    }
}

proof fn lemma_one_hook_when_starting_succeeds(events: Seq<ProviderEvent>)
    ensures
        run(ProviderState::Starting, events) is Initialized ==> hook_count(
            ProviderState::Starting,
            events,
        ) == 1,
    decreases events.len(),
{
    if events.len() > 0 {
        let rest = events.drop_first();
        match events.first() {
            ProviderEvent::Enter => lemma_one_hook_when_starting_succeeds(rest),
            ProviderEvent::StartResult { status } => if status == 0 {
                lemma_no_hook_when_settled(ProviderState::Initialized, rest);
            } else {
                lemma_fatal_terminal(rest);
            },
        }
    }
}

/// Law: if the observed events bring the provider from process start to the
/// initialized state, then exactly one start sequence ran and exactly one
/// exit-hook registration happened along the way — never zero, never two.
pub proof fn lemma_initialized_has_exactly_one_start(events: Seq<ProviderEvent>)
    ensures
        run(ProviderState::Uninitialized, events) is Initialized ==> start_count(
            ProviderState::Uninitialized,
            events,
        ) == 1,
        run(ProviderState::Uninitialized, events) is Initialized ==> hook_count(
            ProviderState::Uninitialized,
            events,
        ) == 1,
    decreases events.len(),
{
    if events.len() > 0 {
        let rest = events.drop_first();
        match events.first() {
            ProviderEvent::Enter => {
                lemma_no_start_after_leaving(ProviderState::Starting, rest);
                lemma_one_hook_when_starting_succeeds(rest);
            },
            ProviderEvent::StartResult { .. } => lemma_initialized_has_exactly_one_start(rest),
        }
    }
}

/// Law: once the provider is initialized it stays initialized under every
/// further event sequence; no further start sequence and no further hook
/// registration is ever asked for, and a caller that enters is simply told
/// to proceed.
pub proof fn lemma_initialized_is_stable(events: Seq<ProviderEvent>)
    ensures
        run(ProviderState::Initialized, events) == ProviderState::Initialized,
        start_count(ProviderState::Initialized, events) == 0,
        hook_count(ProviderState::Initialized, events) == 0,
        action_for(ProviderState::Initialized, ProviderEvent::Enter) == ProviderAction::Proceed,
{
    lemma_initialized_terminal(events);
    lemma_no_start_after_leaving(ProviderState::Initialized, events);
    lemma_no_hook_when_settled(ProviderState::Initialized, events);
}

/// The version-negotiation data the start sequence fills in: the negotiated
/// version numbers, implementation-defined limits, and two zero-terminated
/// descriptive byte strings of fixed layout.
pub struct VersionNegotiationRecord {
    /// The provider version the start sequence settled on.
    pub version: u16,
    /// The highest provider version the system supports.
    pub high_version: u16,
    /// Implementation-defined socket limit; informational only.
    pub max_sockets: u16,
    /// Implementation-defined datagram size limit; informational only.
    pub max_udp_datagram: u16,
    /// Description string, with room for its trailing zero byte.
    pub description: Vec<u8>,
    /// System-status string, with room for its trailing zero byte.
    pub system_status: Vec<u8>,
}

impl VersionNegotiationRecord {
    /// The fixed layout: both byte strings have their full buffer length.
    pub open spec fn well_formed(&self) -> bool {
        &&& self.description@.len() == WSADESCRIPTION_LEN + 1
        &&& self.system_status@.len() == WSASYS_STATUS_LEN + 1
    }

    /// Every field is zero. The start sequence only promises to write a
    /// subset of the record, so the memory handed to it must start like
    /// this.
    pub open spec fn is_zero_filled(&self) -> bool {
        &&& self.version == 0
        &&& self.high_version == 0
        &&& self.max_sockets == 0
        &&& self.max_udp_datagram == 0
        &&& forall|i: int| 0 <= i < self.description@.len() ==> self.description@[i] == 0
        &&& forall|i: int| 0 <= i < self.system_status@.len() ==> self.system_status@[i] == 0
    }

    /// A well-formed, zero-filled record, ready to be handed to the start
    /// sequence.
    pub fn zero_filled() -> (r: VersionNegotiationRecord)
        ensures
            r.well_formed(),
            r.is_zero_filled(),
    {
        VersionNegotiationRecord {
            version: 0,
            high_version: 0,
            max_sockets: 0,
            max_udp_datagram: 0,
            description: zero_bytes(WSADESCRIPTION_LEN + 1),
            system_status: zero_bytes(WSASYS_STATUS_LEN + 1),
        }
    }
}

fn zero_bytes(n: usize) -> (v: Vec<u8>)
    ensures
        v@.len() == n,
        forall|i: int| 0 <= i < n ==> v@[i] == 0,
{
    let mut v: Vec<u8> = Vec::new();
    let mut i: usize = 0;
    while i < n
        invariant
            i <= n,
            v@.len() == i,
            forall|j: int| 0 <= j < i ==> v@[j] == 0,
        decreases n - i,
    {
        v.push(0);
        i = i + 1;
    }
    v
}

/// The process-wide provider lifecycle manager: the current state, and the
/// negotiation record once initialization has succeeded.
pub struct Provider {
    state: ProviderState,
    negotiated: Option<VersionNegotiationRecord>,
}

impl Provider {
    /// The current lifecycle state.
    pub closed spec fn spec_state(&self) -> ProviderState {
        self.state
    }

    /// The negotiation record, present exactly in the initialized state.
    pub closed spec fn spec_negotiated(&self) -> Option<VersionNegotiationRecord> {
        self.negotiated
    }

    /// The record is held if and only if initialization succeeded, and is
    /// then well formed.
    pub open spec fn wf(&self) -> bool {
        &&& (self.spec_state() is Initialized <==> self.spec_negotiated() is Some)
        &&& (self.spec_negotiated() matches Some(r) ==> r.well_formed())
    }

    /// A fresh manager: nothing started, nothing negotiated.
    pub fn new() -> (p: Provider)
        ensures
            p.wf(),
            p.spec_state() == ProviderState::Uninitialized,
            p.spec_negotiated() is None,
    {
        Provider { state: ProviderState::Uninitialized, negotiated: None }
    }

    /// A caller asks for the provider to be initialized. At most one caller
    /// per process is ever handed `StartProvider`; everyone after the first
    /// is told to wait, proceed or give up according to the state.
    pub fn ensure_initialized(&mut self) -> (action: ProviderAction)
        requires
            old(self).wf(),
        ensures
            final(self).wf(),
            final(self).spec_state() == next_state(old(self).spec_state(), ProviderEvent::Enter),
            final(self).spec_negotiated() == old(self).spec_negotiated(),
            action == action_for(old(self).spec_state(), ProviderEvent::Enter),
    {
        match self.state {
            ProviderState::Uninitialized => {
                self.state = ProviderState::Starting;
                ProviderAction::StartProvider { requested_version: WINSOCK_VERSION_2_2 }
            },
            ProviderState::Starting => ProviderAction::Wait,
            ProviderState::Initialized => ProviderAction::Proceed,
            ProviderState::Fatal => ProviderAction::Refuse,
        }
    }

    /// The caller that was handed `StartProvider` reports the outcome of
    /// the start sequence, together with the record the sequence populated.
    /// Success moves the manager to `Initialized` and obliges the caller to
    /// register the exit hook now; any non-zero status is fatal.
    pub fn complete_initialization(
        &mut self,
        status: i32,
        record: VersionNegotiationRecord,
    ) -> (r: Result<(), ProviderStartFailure>)
        requires
            old(self).wf(),
            old(self).spec_state() is Starting,
            record.well_formed(),
        ensures
            final(self).wf(),
            final(self).spec_state() == next_state(
                old(self).spec_state(),
                (ProviderEvent::StartResult { status }),
            ),
            (r is Ok) == (action_for(
                old(self).spec_state(),
                (ProviderEvent::StartResult { status }),
            ) is RegisterExitHook),
            status == 0 ==> r is Ok && final(self).spec_state() is Initialized
                && final(self).spec_negotiated() == Some(record),
            status != 0 ==> (r matches Err(f) && f == (ProviderStartFailure { status }))
                && final(self).spec_state() is Fatal && final(self).spec_negotiated() is None,
    {
        if status == 0 {
            self.state = ProviderState::Initialized;
            self.negotiated = Some(record);
            Ok(())
        } else {
            self.state = ProviderState::Fatal;
            Err(ProviderStartFailure { status })
        }
    }

    /// The current state, for callers and tests.
    pub fn state(&self) -> (s: ProviderState)
        ensures
            s == self.spec_state(),
    {
        self.state
    }

    /// The negotiation record, present exactly once initialized.
    pub fn negotiated(&self) -> (r: &Option<VersionNegotiationRecord>)
        ensures
            *r == self.spec_negotiated(),
    {
        &self.negotiated
    }
}

} // verus!
