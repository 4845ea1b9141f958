//! The discovery session: one scan from the request to its result.
//!
//! The session decides and the driver acts. The driver performs the action
//! the session names (start the scan, observe for a while, stop the scan),
//! reports what happened as an event, and gets the next action, until the
//! action is to finish with the result.
//!
//! A request is refused without touching the radio if its options are
//! invalid, if a scan of this session is still in flight, or if the selected
//! adapter does not exist, in this order. A session that is not in flight
//! accepts a new request. A match in an observation wins over the timeout
//! that the same observation reaches. Once a match is found, a failure to
//! stop the scan does not take the result away. A device for which no unused
//! id could be made is reported as not found, and the session has failed.
//! An event that the current phase does not expect changes nothing.

use crate::bluetooth::adapter::AdapterSelector;
use crate::bluetooth::bleuuid::{hyphenated, hyphenated_form, is_random_uuid, parsed_uuid};
use crate::bluetooth::identity::{
    consistent, device_id_for, lemma_resolve_keeps_consistent, resolve_step, IdentityCache,
    IdentityView,
};
use crate::bluetooth::models::{Candidate, RequestDeviceOptions, ScanRequest};
use crate::bluetooth::utils::{
    find_match, first_match, is_first_match, lemma_first_match_unique,
};
use crate::error::Error;
use crate::models::{DeviceInfo, DeviceInfoView};
use vstd::prelude::*;

verus! {

/// The states of a session as its callers see them.
#[derive(Debug, Clone, Copy, PartialEq, Eq)]
pub enum SessionState {
    Idle,
    Scanning,
    Matched,
    TimedOut,
    Failed,
}

/// How a scan that is being stopped will end.
#[derive(Debug, Clone, PartialEq, Eq)]
pub enum Outcome<H> {
    /// A candidate matched; its identity is resolved when the stop is answered.
    Matched(Candidate<H>),
    /// The timeout was reached without a match.
    TimedOut,
    /// Observing failed with this error.
    Failed(Error),
}

/// Where a session stands. A phase after the end of a scan records whether
/// the scan may still be running because it could not be stopped.
#[derive(Debug, Clone, PartialEq, Eq)]
pub enum Phase<H> {
    /// No request was accepted yet, or the session was shut down.
    Idle,
    /// The start of the scan was asked for and is not answered yet.
    Starting(ScanRequest),
    /// The scan runs and the session waits for observations.
    Observing(ScanRequest),
    /// The stop of the scan was asked for and is not answered yet.
    Stopping(Outcome<H>),
    /// The session ended with a device.
    Matched { scan_running: bool },
    /// The session ended without a device.
    TimedOut { scan_running: bool },
    /// The session ended with a failure.
    Failed { scan_running: bool },
}

/// What the driver reports to the session.
#[derive(Debug, Clone, PartialEq, Eq)]
pub enum SessionEvent<H> {
    /// The adapter started scanning.
    ScanStarted,
    /// The adapter refused to start scanning.
    ScanStartFailed,
    /// The peripherals seen since the scan started, or since the last
    /// observation, and the time since the scan started.
    Observation { elapsed_millis: u64, candidates: Vec<Candidate<H>> },
    /// The stack failed while the driver observed.
    ObservationFailed { cause: String },
    /// The adapter stopped scanning.
    ScanStopped,
    /// The adapter refused to stop scanning.
    ScanStopFailed,
}

/// What the session asks the driver to do next.
#[derive(Debug, PartialEq, Eq)]
pub enum SessionAction {
    /// Start a scan on the adapter at this index.
    StartScan { adapter_index: usize },
    /// Report an observation after at most this many milliseconds.
    Observe { remaining_millis: u64 },
    /// Stop the scan.
    StopScan,
    /// Hand this result to the caller; the request is over.
    Finish(Result<DeviceInfo, Error>),
    /// Nothing: the event was not expected.
    Ignored,
}

/// An action with its device info as plain text.
pub enum ActionView {
    StartScan { adapter_index: usize },
    Observe { remaining_millis: u64 },
    StopScan,
    Finish(Result<DeviceInfoView, Error>),
    Ignored,
}

impl View for SessionAction {
    type V = ActionView;

    open spec fn view(&self) -> ActionView {
        match *self {
            SessionAction::StartScan { adapter_index } => ActionView::StartScan { adapter_index },
            SessionAction::Observe { remaining_millis } => ActionView::Observe {
                remaining_millis,
            },
            SessionAction::StopScan => ActionView::StopScan,
            SessionAction::Finish(Ok(info)) => ActionView::Finish(Ok(info@)),
            SessionAction::Finish(Err(error)) => ActionView::Finish(Err(error)),
            SessionAction::Ignored => ActionView::Ignored,
        }
    }
}

impl<H> Phase<H> {
    /// The state that callers see in this phase.
    pub open spec fn state(self) -> SessionState {
        match self {
            Phase::Idle => SessionState::Idle,
            Phase::Starting(_) => SessionState::Scanning,
            Phase::Observing(_) => SessionState::Scanning,
            Phase::Stopping(Outcome::Matched(_)) => SessionState::Matched,
            Phase::Stopping(Outcome::TimedOut) => SessionState::TimedOut,
            Phase::Stopping(Outcome::Failed(_)) => SessionState::Failed,
            Phase::Matched { .. } => SessionState::Matched,
            Phase::TimedOut { .. } => SessionState::TimedOut,
            Phase::Failed { .. } => SessionState::Failed,
        }
    }

    /// Whether a request is under way: the driver owes the session an event.
    pub open spec fn in_flight(self) -> bool {
        self is Starting || self is Observing || self is Stopping
    }

    /// Whether the adapter may be scanning on behalf of this session.
    pub open spec fn scan_running(self) -> bool {
        match self {
            Phase::Idle => false,
            Phase::Starting(_) => true,
            Phase::Observing(_) => true,
            Phase::Stopping(_) => true,
            Phase::Matched { scan_running } => scan_running,
            Phase::TimedOut { scan_running } => scan_running,
            Phase::Failed { scan_running } => scan_running,
        }
    }
}

/// Why a request is refused, if it is.
pub open spec fn refusal<H>(
    phase: Phase<H>,
    options: RequestDeviceOptions,
    selector: AdapterSelector,
    adapter_count: usize,
) -> Option<Error> {
    if !options.valid() {
        Some(Error::InvalidRequestDeviceOptions)
    } else if phase.in_flight() {
        Some(Error::ScanStartFailure)
    } else if selector.adapter_index >= adapter_count {
        Some(Error::NoAdapter)
    } else {
        None
    }
}

/// The services a candidate advertised, as far as they could be read.
pub open spec fn advertised_services<H>(candidate: Candidate<H>) -> Seq<u128> {
    match candidate.properties {
        Some(properties) => properties.services@,
        None => Seq::empty(),
    }
}

/// The hyphenated forms of a list of UUIDs.
pub open spec fn rendered(services: Seq<u128>) -> Seq<Seq<char>> {
    services.map_values(|uuid: u128| hyphenated_form(uuid))
}

/// The id that the address of a matched candidate resolves to, with `uuid`
/// as the source of a new id; none where the address is new and the id made
/// from `uuid` is not usable.
pub open spec fn identity_for<H>(
    cache: IdentityView<H>,
    candidate: Candidate<H>,
    uuid: u128,
) -> Option<Seq<char>> {
    resolve_step(cache, candidate.address@, candidate.handle, device_id_for(uuid)).1
}

/// The result for a matched candidate: its id and the services it
/// advertised, or `DeviceNotFound` where it could get no id.
pub open spec fn match_result<H>(
    cache: IdentityView<H>,
    candidate: Candidate<H>,
    uuid: u128,
) -> Result<DeviceInfoView, Error> {
    match identity_for(cache, candidate, uuid) {
        Some(id) => Ok(
            DeviceInfoView { id, services: rendered(advertised_services(candidate)) },
        ),
        None => Err(Error::DeviceNotFound),
    }
}

/// Whether the session answers `event` in `phase` by asking to stop the scan.
pub open spec fn asks_to_stop<H>(phase: Phase<H>, event: SessionEvent<H>) -> bool {
    phase matches Phase::Observing(request) && match event {
        SessionEvent::Observation { elapsed_millis, candidates } => {
            ||| first_match(candidates@, request.filter) is Some
            ||| elapsed_millis >= request.timeout_millis
        },
        SessionEvent::ObservationFailed { .. } => true,
        _ => false,
    }
}

/// The phase in which a scan ends, given how it was going to end, whether
/// the adapter stopped scanning, and whether a device that was found got an id.
pub open spec fn phase_after_stop<H>(
    outcome: Outcome<H>,
    stopped: bool,
    identified: bool,
) -> Phase<H> {
    match outcome {
        Outcome::Matched(_) => if identified {
            Phase::Matched { scan_running: !stopped }
        } else {
            Phase::Failed { scan_running: !stopped }
        },
        Outcome::TimedOut => if stopped {
            Phase::TimedOut { scan_running: false }
        } else {
            Phase::Failed { scan_running: true }
        },
        Outcome::Failed(_) => Phase::Failed { scan_running: !stopped },
    }
}

/// The result with which a scan ends, given how it was going to end and
/// whether the adapter stopped scanning. A device that was found and got an
/// id is handed out either way; a failure while observing is kept as the
/// cause either way.
pub open spec fn result_after_stop<H>(
    outcome: Outcome<H>,
    stopped: bool,
    cache: IdentityView<H>,
    uuid: u128,
) -> Result<DeviceInfoView, Error> {
    match outcome {
        Outcome::Matched(candidate) => match_result(cache, candidate, uuid),
        Outcome::TimedOut => if stopped {
            Err(Error::DeviceNotFound)
        } else {
            Err(Error::ScanStopFailure)
        },
        Outcome::Failed(error) => Err(error),
    }
}

/// Whether a scan that is being stopped ends with a device that has an id.
pub open spec fn identified<H>(outcome: Outcome<H>, cache: IdentityView<H>, uuid: u128) -> bool {
    outcome matches Outcome::Matched(candidate) && identity_for(cache, candidate, uuid) is Some
}

/// The phase after `event` arrived in `phase`, with `cache` as the identities
/// at that moment and `uuid` as the source of a new id.
pub open spec fn next_phase<H>(
    phase: Phase<H>,
    cache: IdentityView<H>,
    event: SessionEvent<H>,
    uuid: u128,
) -> Phase<H> {
    match phase {
        Phase::Starting(request) => match event {
            SessionEvent::ScanStarted => Phase::Observing(request),
            SessionEvent::ScanStartFailed => Phase::Failed { scan_running: false },
            _ => phase,
        },
        Phase::Observing(request) => match event {
            SessionEvent::Observation { elapsed_millis, candidates } => match first_match(
                candidates@,
                request.filter,
            ) {
                Some(index) => Phase::Stopping(Outcome::Matched(candidates@[index])),
                None => if elapsed_millis >= request.timeout_millis {
                    Phase::Stopping(Outcome::TimedOut)
                } else {
                    phase
                },
            },
            SessionEvent::ObservationFailed { cause } => Phase::Stopping(
                Outcome::Failed(Error::BluetoothLE(cause)),
            ),
            _ => phase,
        },
        Phase::Stopping(outcome) => match event {
            SessionEvent::ScanStopped => phase_after_stop(
                outcome,
                true,
                identified(outcome, cache, uuid),
            ),
            SessionEvent::ScanStopFailed => phase_after_stop(
                outcome,
                false,
                identified(outcome, cache, uuid),
            ),
            _ => phase,
        },
        _ => phase,
    }
}

/// The identity cache after `event` arrived in `phase`: the answer to the
/// stop of a scan that found a device resolves the device's identity, with
/// `uuid` as the source of a new id; nothing else touches the cache.
pub open spec fn next_cache<H>(
    phase: Phase<H>,
    cache: IdentityView<H>,
    event: SessionEvent<H>,
    uuid: u128,
) -> IdentityView<H> {
    match phase {
        Phase::Stopping(Outcome::Matched(candidate)) => if event is ScanStopped
            || event is ScanStopFailed {
            resolve_step(cache, candidate.address@, candidate.handle, device_id_for(uuid)).0
        } else {
            cache
        },
        _ => cache,
    }
}

/// The action with which the session answers `event` in `phase`.
pub open spec fn next_action<H>(
    phase: Phase<H>,
    cache: IdentityView<H>,
    event: SessionEvent<H>,
    uuid: u128,
) -> ActionView {
    match phase {
        Phase::Starting(request) => match event {
            SessionEvent::ScanStarted => ActionView::Observe {
                remaining_millis: request.timeout_millis,
            },
            SessionEvent::ScanStartFailed => ActionView::Finish(Err(Error::ScanStartFailure)),
            _ => ActionView::Ignored,
        },
        Phase::Observing(request) => match event {
            SessionEvent::Observation { elapsed_millis, candidates } => if asks_to_stop(
                phase,
                event,
            ) {
                ActionView::StopScan
            } else {
                ActionView::Observe {
                    remaining_millis: (request.timeout_millis - elapsed_millis) as u64,
                }
            },
            SessionEvent::ObservationFailed { .. } => ActionView::StopScan,
            _ => ActionView::Ignored,
        },
        Phase::Stopping(outcome) => match event {
            SessionEvent::ScanStopped => ActionView::Finish(
                result_after_stop(outcome, true, cache, uuid),
            ),
            SessionEvent::ScanStopFailed => ActionView::Finish(
                result_after_stop(outcome, false, cache, uuid),
            ),
            _ => ActionView::Ignored,
        },
        _ => ActionView::Ignored,
    }
}

/// Writes each UUID in its hyphenated form. Each text reads back as the UUID
/// it was written from.
pub fn render_services(services: &Vec<u128>) -> (texts: Vec<String>)
    ensures
        texts@.map_values(|text: String| text@) == rendered(services@),
        forall|i: int|
            0 <= i < texts@.len() ==> parsed_uuid(#[trigger] texts@[i]@) == Some(services@[i]),
{
    let mut texts: Vec<String> = Vec::new();
    let mut i: usize = 0;
    while i < services.len()
        invariant
            i <= services.len(),
            texts@.len() == i,
            forall|j: int| 0 <= j < i ==> (#[trigger] texts@[j])@ == hyphenated_form(services@[j]),
            forall|j: int| 0 <= j < i ==> parsed_uuid(#[trigger] texts@[j]@) == Some(services@[j]),
        decreases services.len() - i,
    {
        texts.push(hyphenated(services[i]));
        i += 1;
    }
    assert(texts@.map_values(|text: String| text@) =~= rendered(services@));
    texts
}

/// The longest time, in milliseconds, between two observations of a scan.
pub const POLL_INTERVAL_MILLIS: u64 = 250;

/// How long the driver waits before its next observation when the session
/// asked it to observe for at most `remaining_millis`: what is left of the
/// timeout, but no longer than the poll interval.
pub fn observation_wait(remaining_millis: u64) -> (wait_millis: u64)
    ensures
        wait_millis == if remaining_millis < POLL_INTERVAL_MILLIS {
            remaining_millis
        } else {
            POLL_INTERVAL_MILLIS
        },
{
    if remaining_millis < POLL_INTERVAL_MILLIS {
        remaining_millis
    } else {
        POLL_INTERVAL_MILLIS
    }
}

/// Whether `next`, `identities` and `action` are what follows when `event`
/// arrives in `phase` with the identities `cache`, and `uuid` is the source
/// of a new id.
pub open spec fn follows<H>(
    phase: Phase<H>,
    cache: IdentityView<H>,
    event: SessionEvent<H>,
    uuid: u128,
    next: Phase<H>,
    identities: IdentityView<H>,
    action: ActionView,
) -> bool {
    &&& next == next_phase(phase, cache, event, uuid)
    &&& identities == next_cache(phase, cache, event, uuid)
    &&& action == next_action(phase, cache, event, uuid)
}

/// What holds of an id that a session hands out: the device that matched has
/// it as the id of its address, it is not empty, it is not the address, and
/// a handle stands under it.
pub open spec fn handed_out<H>(phase: Phase<H>, cache: IdentityView<H>, id: Seq<char>) -> bool {
    &&& phase matches Phase::Stopping(Outcome::Matched(candidate))
    &&& cache.ids.contains_key(candidate.address@)
    &&& cache.ids[candidate.address@] == id
    &&& id.len() > 0
    &&& id != candidate.address@
    &&& cache.handles.contains_key(id)
}

/// A UUID of version 4 and variant RFC 4122 with every other bit zero. It
/// stands in where an event calls for no draw.
pub const SHAPE_OF_RANDOM_UUID: u128 = 0x4000_8000_0000_0000_0000;

/// One scan, from the request to its result.
pub struct DiscoverySession<H> {
    phase: Phase<H>,
}

impl<H> DiscoverySession<H> {
    /// Where the session stands.
    pub closed spec fn phase(&self) -> Phase<H> {
        self.phase
    }

    /// A session that has not been asked for anything.
    pub fn new() -> (session: Self)
        ensures
            session.phase() == Phase::<H>::Idle,
    {
        DiscoverySession { phase: Phase::Idle }
    }

    /// The state of the session as callers see it.
    pub fn state(&self) -> (state: SessionState)
        ensures
            state == self.phase().state(),
    {
        match &self.phase {
            Phase::Idle => SessionState::Idle,
            Phase::Starting(_) => SessionState::Scanning,
            Phase::Observing(_) => SessionState::Scanning,
            Phase::Stopping(Outcome::Matched(_)) => SessionState::Matched,
            Phase::Stopping(Outcome::TimedOut) => SessionState::TimedOut,
            Phase::Stopping(Outcome::Failed(_)) => SessionState::Failed,
            Phase::Matched { .. } => SessionState::Matched,
            Phase::TimedOut { .. } => SessionState::TimedOut,
            Phase::Failed { .. } => SessionState::Failed,
        }
    }

    /// Whether a request is under way.
    pub fn in_flight(&self) -> (busy: bool)
        ensures
            busy == self.phase().in_flight(),
    {
        match &self.phase {
            Phase::Starting(_) => true,
            Phase::Observing(_) => true,
            Phase::Stopping(_) => true,
            _ => false,
        }
    }

    /// Takes a request for a device.
    ///
    /// A refused request finishes at once with its error and leaves the
    /// session as it was: no scan is asked for. An accepted request puts the
    /// session into its starting phase and asks for the scan to be started on
    /// the selected adapter.
    pub fn request_device(
        &mut self,
        options: RequestDeviceOptions,
        selector: &AdapterSelector,
        adapter_count: usize,
    ) -> (action: SessionAction)
        ensures
            match refusal(old(self).phase(), options, *selector, adapter_count) {
                Some(error) => {
                    &&& action@ == ActionView::Finish(Err(error))
                    &&& final(self).phase() == old(self).phase()
                },
                None => {
                    &&& action@ == ActionView::StartScan { adapter_index: selector.adapter_index }
                    &&& final(self).phase() == Phase::<H>::Starting(options.validated())
                },
            },
    {
        let request = match options.validate() {
            Ok(request) => request,
            Err(error) => {
                return SessionAction::Finish(Err(error));
            },
        };
        if self.in_flight() {
            return SessionAction::Finish(Err(Error::ScanStartFailure));
        }
        match selector.select(adapter_count) {
            Ok(adapter_index) => {
                self.phase = Phase::Starting(request);
                SessionAction::StartScan { adapter_index }
            },
            Err(error) => SessionAction::Finish(Err(error)),
        }
    }

    /// Takes an event from the driver and says what to do next, with `uuid`
    /// as the source of a new device id should the event call for one.
    pub fn step_with(
        &mut self,
        cache: &mut IdentityCache<H>,
        event: SessionEvent<H>,
        uuid: u128,
    ) -> (action: SessionAction)
        ensures
            final(self).phase() == next_phase(old(self).phase(), old(cache)@, event, uuid),
            final(cache)@ == next_cache(old(self).phase(), old(cache)@, event, uuid),
            action@ == next_action(old(self).phase(), old(cache)@, event, uuid),
            consistent(final(cache)@),
            action matches SessionAction::Finish(Ok(info)) ==> handed_out(
                old(self).phase(),
                final(cache)@,
                info.id@,
            ),
    {
        proof {
            use_type_invariant(&*cache);
        }
        let mut phase = Phase::Idle;
        core::mem::swap(&mut self.phase, &mut phase);
        match phase {
            Phase::Starting(request) => match event {
                SessionEvent::ScanStarted => {
                    let remaining_millis = request.timeout_millis;
                    self.phase = Phase::Observing(request);
                    SessionAction::Observe { remaining_millis }
                },
                SessionEvent::ScanStartFailed => {
                    self.phase = Phase::Failed { scan_running: false };
                    SessionAction::Finish(Err(Error::ScanStartFailure))
                },
                _ => {
                    self.phase = Phase::Starting(request);
                    SessionAction::Ignored
                },
            },
            Phase::Observing(request) => match event {
                SessionEvent::Observation { elapsed_millis, candidates } => {
                    let mut candidates = candidates;
                    match find_match(&candidates, &request.filter) {
                        Some(index) => {
                            let candidate = candidates.swap_remove(index);
                            self.phase = Phase::Stopping(Outcome::Matched(candidate));
                            SessionAction::StopScan
                        },
                        None => {
                            if elapsed_millis >= request.timeout_millis {
                                self.phase = Phase::Stopping(Outcome::TimedOut);
                                SessionAction::StopScan
                            } else {
                                let remaining_millis = request.timeout_millis - elapsed_millis;
                                self.phase = Phase::Observing(request);
                                SessionAction::Observe { remaining_millis }
                            }
                        },
                    }
                },
                SessionEvent::ObservationFailed { cause } => {
                    self.phase = Phase::Stopping(Outcome::Failed(Error::BluetoothLE(cause)));
                    SessionAction::StopScan
                },
                _ => {
                    self.phase = Phase::Observing(request);
                    SessionAction::Ignored
                },
            },
            Phase::Stopping(outcome) => {
                let scan_running = match event {
                    SessionEvent::ScanStopped => false,
                    SessionEvent::ScanStopFailed => true,
                    _ => {
                        self.phase = Phase::Stopping(outcome);
                        return SessionAction::Ignored;
                    },
                };
                match outcome {
                    Outcome::Matched(candidate) => {
                        let Candidate { address, properties, handle } = candidate;
                        let services = match &properties {
                            Some(read) => render_services(&read.services),
                            None => Vec::new(),
                        };
                        assert(services@.map_values(|text: String| text@) =~= rendered(
                            advertised_services(candidate),
                        ));
                        match cache.resolve_or_insert_with(address, handle, uuid) {
                            Some(id) => {
                                self.phase = Phase::Matched { scan_running };
                                SessionAction::Finish(Ok(DeviceInfo { id, services }))
                            },
                            None => {
                                self.phase = Phase::Failed { scan_running };
                                SessionAction::Finish(Err(Error::DeviceNotFound))
                            },
                        }
                    },
                    Outcome::TimedOut => {
                        if scan_running {
                            self.phase = Phase::Failed { scan_running };
                            SessionAction::Finish(Err(Error::ScanStopFailure))
                        } else {
                            self.phase = Phase::TimedOut { scan_running };
                            SessionAction::Finish(Err(Error::DeviceNotFound))
                        }
                    },
                    Outcome::Failed(error) => {
                        self.phase = Phase::Failed { scan_running };
                        SessionAction::Finish(Err(error))
                    },
                }
            },
            other => {
                self.phase = other;
                SessionAction::Ignored
            },
        }
    }

    /// Takes an event from the driver and says what to do next. Where the
    /// event calls for a new device id, the id is made from a random UUID.
    pub fn step(
        &mut self,
        cache: &mut IdentityCache<H>,
        event: SessionEvent<H>,
    ) -> (action: SessionAction)
        ensures
            exists|uuid: u128|
                is_random_uuid(uuid) && #[trigger] follows(
                    old(self).phase(),
                    old(cache)@,
                    event,
                    uuid,
                    final(self).phase(),
                    final(cache)@,
                    action@,
                ),
            consistent(final(cache)@),
            action matches SessionAction::Finish(Ok(info)) ==> handed_out(
                old(self).phase(),
                final(cache)@,
                info.id@,
            ),
    {
        let uuid = match &self.phase {
            Phase::Stopping(Outcome::Matched(candidate)) => cache.draw_uuid(&candidate.address),
            _ => SHAPE_OF_RANDOM_UUID,
        };
        assert(is_random_uuid(uuid)) by {
            assert(0x4000_8000_0000_0000_0000u128 & 0xf000_c000_0000_0000_0000
                == 0x4000_8000_0000_0000_0000) by (bit_vector);
        }
        let ghost phase = self.phase();
        let ghost identities = cache@;
        let action = self.step_with(cache, event, uuid);
        assert(follows(phase, identities, event, uuid, self.phase(), cache@, action@));
        action
    }

    /// Ends the session, whatever its phase, and says whether the driver owes
    /// the adapter a stop of the scan: it does if the scan may still be running.
    pub fn shutdown(&mut self) -> (stop_owed: bool)
        ensures
            stop_owed == old(self).phase().scan_running(),
            final(self).phase() == Phase::<H>::Idle,
    {
        let stop_owed = match &self.phase {
            Phase::Idle => false,
            Phase::Starting(_) => true,
            Phase::Observing(_) => true,
            Phase::Stopping(_) => true,
            Phase::Matched { scan_running } => *scan_running,
            Phase::TimedOut { scan_running } => *scan_running,
            Phase::Failed { scan_running } => *scan_running,
        };
        self.phase = Phase::Idle;
        stop_owed
    }
}

/// The phase and the identities after a run of events, each with the UUID
/// that is the source of a new id at that step.
pub open spec fn state_after<H>(
    phase: Phase<H>,
    cache: IdentityView<H>,
    steps: Seq<(SessionEvent<H>, u128)>,
) -> (Phase<H>, IdentityView<H>)
    decreases steps.len(),
{
    if steps.len() == 0 {
        (phase, cache)
    } else {
        state_after(
            next_phase(phase, cache, steps[0].0, steps[0].1),
            next_cache(phase, cache, steps[0].0, steps[0].1),
            steps.drop_first(),
        )
    }
}

/// How often the session asks to stop the scan during a run of events.
pub open spec fn stops_asked<H>(
    phase: Phase<H>,
    cache: IdentityView<H>,
    steps: Seq<(SessionEvent<H>, u128)>,
) -> nat
    decreases steps.len(),
{
    if steps.len() == 0 {
        0
    } else {
        let first: nat = if asks_to_stop(phase, steps[0].0) {
            1
        } else {
            0
        };
        first + stops_asked(
            next_phase(phase, cache, steps[0].0, steps[0].1),
            next_cache(phase, cache, steps[0].0, steps[0].1),
            steps.drop_first(),
        )
    }
}

/// The session's answer is to stop the scan exactly where `asks_to_stop` says so.
pub proof fn lemma_stop_action<H>(
    phase: Phase<H>,
    cache: IdentityView<H>,
    event: SessionEvent<H>,
    uuid: u128,
)
    ensures
        next_action(phase, cache, event, uuid) is StopScan == asks_to_stop(phase, event),
        asks_to_stop(phase, event) ==> next_phase(phase, cache, event, uuid) is Stopping,
{
}

/// Events alone never bring a session back into a scan: a phase that is
/// neither starting nor observing is followed by such phases only.
pub proof fn lemma_no_return_to_scanning<H>(
    phase: Phase<H>,
    cache: IdentityView<H>,
    event: SessionEvent<H>,
    uuid: u128,
)
    requires
        !(phase is Starting || phase is Observing),
    ensures
        !(next_phase(phase, cache, event, uuid) is Starting || next_phase(
            phase,
            cache,
            event,
            uuid,
        ) is Observing),
        !asks_to_stop(phase, event),
{
}

/// During any run of events the session asks at most once to stop the scan,
/// and never unless it is starting or observing when the run begins. A run
/// that begins while the session observes holds exactly one such request if
/// it leaves the observing phase, and none if it does not.
pub proof fn lemma_stop_asked_once<H>(
    phase: Phase<H>,
    cache: IdentityView<H>,
    steps: Seq<(SessionEvent<H>, u128)>,
)
    ensures
        stops_asked(phase, cache, steps) <= 1,
        !(phase is Starting || phase is Observing) ==> stops_asked(phase, cache, steps) == 0,
        phase is Observing ==> (stops_asked(phase, cache, steps) == 1) == !(state_after(
            phase,
            cache,
            steps,
        ).0 is Observing),
    decreases steps.len(),
{
    if steps.len() > 0 {
        let next = next_phase(phase, cache, steps[0].0, steps[0].1);
        let identities = next_cache(phase, cache, steps[0].0, steps[0].1);
        lemma_stop_asked_once(next, identities, steps.drop_first());
        if !(phase is Starting || phase is Observing) {
            lemma_no_return_to_scanning(phase, cache, steps[0].0, steps[0].1);
        }
        if phase is Observing && !(next is Observing) {
            lemma_left_scanning_for_good(next, identities, steps.drop_first());
        }
    }
}

/// A run that begins outside the starting and observing phases ends outside them.
pub proof fn lemma_left_scanning_for_good<H>(
    phase: Phase<H>,
    cache: IdentityView<H>,
    steps: Seq<(SessionEvent<H>, u128)>,
)
    requires
        !(phase is Starting || phase is Observing),
    ensures
        !(state_after(phase, cache, steps).0 is Starting || state_after(phase, cache, steps).0
            is Observing),
    decreases steps.len(),
{
    if steps.len() > 0 {
        lemma_no_return_to_scanning(phase, cache, steps[0].0, steps[0].1);
        lemma_left_scanning_for_good(
            next_phase(phase, cache, steps[0].0, steps[0].1),
            next_cache(phase, cache, steps[0].0, steps[0].1),
            steps.drop_first(),
        );
    }
}

/// An event touches the identity cache only by resolving the matched
/// device, so no address loses or changes its id, and a consistent cache
/// stays consistent.
pub proof fn lemma_event_keeps_identities<H>(
    phase: Phase<H>,
    cache: IdentityView<H>,
    event: SessionEvent<H>,
    uuid: u128,
    address: Seq<char>,
)
    requires
        consistent(cache),
        cache.ids.contains_key(address),
    ensures
        consistent(next_cache(phase, cache, event, uuid)),
        next_cache(phase, cache, event, uuid).ids.contains_key(address),
        next_cache(phase, cache, event, uuid).ids[address] == cache.ids[address],
        next_cache(phase, cache, event, uuid).handles[cache.ids[address]]
            == cache.handles[cache.ids[address]],
{
    match phase {
        Phase::Stopping(Outcome::Matched(candidate)) => {
            lemma_resolve_keeps_consistent(
                cache,
                candidate.address@,
                candidate.handle,
                device_id_for(uuid),
            );
        },
        _ => {},
    }
}

/// A session at rest that is asked to accept all devices, with an adapter
/// at the selected index, finds a lone peripheral whatever it advertises:
/// the scan is started, the first observation that holds the peripheral with
/// its properties read is answered by stopping the scan, and the answer to
/// the stop hands the device out with the services it advertised, rendered
/// in order, provided an id could be made for it.
pub proof fn lemma_accept_all_finds_the_peripheral<H>(
    phase: Phase<H>,
    cache: IdentityView<H>,
    options: RequestDeviceOptions,
    selector: AdapterSelector,
    adapter_count: usize,
    elapsed_millis: u64,
    candidates: Vec<Candidate<H>>,
    stopped: bool,
    uuid: u128,
)
    requires
        !phase.in_flight(),
        options.accept_all_devices == Some(true),
        selector.adapter_index < adapter_count,
        candidates@.len() == 1,
        candidates@[0].properties is Some,
    ensures
        refusal(phase, options, selector, adapter_count) is None,
        ({
            let starting = Phase::<H>::Starting(options.validated());
            let observing = next_phase(starting, cache, SessionEvent::ScanStarted, uuid);
            let seen = SessionEvent::Observation { elapsed_millis, candidates };
            let stopping = next_phase(observing, cache, seen, uuid);
            let answer = if stopped {
                SessionEvent::<H>::ScanStopped
            } else {
                SessionEvent::<H>::ScanStopFailed
            };
            &&& next_action(starting, cache, SessionEvent::ScanStarted, uuid)
                == ActionView::Observe { remaining_millis: options.timeout_millis() }
            &&& next_action(observing, cache, seen, uuid) == ActionView::StopScan
            &&& stopping == Phase::Stopping(Outcome::Matched(candidates@[0]))
            &&& next_action(stopping, cache, answer, uuid) == ActionView::Finish(
                match_result(cache, candidates@[0], uuid),
            )
            &&& identity_for(cache, candidates@[0], uuid) is Some ==> next_phase(
                stopping,
                cache,
                answer,
                uuid,
            ) is Matched
        }),
{
    assert(is_first_match(candidates@, options.validated().filter, 0));
    lemma_first_match_unique(candidates@, options.validated().filter, 0);
}

/// While the timeout has not been reached, an observation without a match
/// is answered by observing for what is left of the timeout, never by a
/// stop, and nothing changes. Once it has been reached, such an observation
/// is answered by stopping the scan, and the answer to the stop ends the
/// session with `DeviceNotFound` if the scan stopped and with
/// `ScanStopFailure` if it did not. The identities stay as they were.
pub proof fn lemma_no_match_ends_in_device_not_found<H>(
    request: ScanRequest,
    cache: IdentityView<H>,
    elapsed_millis: u64,
    candidates: Vec<Candidate<H>>,
    uuid: u128,
)
    requires
        first_match(candidates@, request.filter) is None,
    ensures
        ({
            let observing = Phase::<H>::Observing(request);
            let seen = SessionEvent::Observation { elapsed_millis, candidates };
            let next = next_phase(observing, cache, seen, uuid);
            &&& next_cache(observing, cache, seen, uuid) == cache
            &&& elapsed_millis < request.timeout_millis ==> {
                &&& next == observing
                &&& next_action(observing, cache, seen, uuid) == ActionView::Observe {
                    remaining_millis: (request.timeout_millis - elapsed_millis) as u64,
                }
            }
            &&& elapsed_millis >= request.timeout_millis ==> {
                &&& next == Phase::<H>::Stopping(Outcome::TimedOut)
                &&& next_action(observing, cache, seen, uuid) == ActionView::StopScan
                &&& next_action(next, cache, SessionEvent::ScanStopped, uuid)
                    == ActionView::Finish(Err(Error::DeviceNotFound))
                &&& next_action(next, cache, SessionEvent::ScanStopFailed, uuid)
                    == ActionView::Finish(Err(Error::ScanStopFailure))
                &&& next_phase(next, cache, SessionEvent::ScanStopped, uuid) is TimedOut
                &&& next_cache(next, cache, SessionEvent::ScanStopped, uuid) == cache
                &&& next_cache(next, cache, SessionEvent::ScanStopFailed, uuid) == cache
            }
        }),
{
}

} // verus!
