//! The discovery core: request models, the filter evaluator, the identity
//! cache, the adapter selector, the discovery session, and the manager that
//! holds them together.

pub mod adapter;
pub mod bleuuid;
pub mod identity;
pub mod models;
pub mod session;
pub mod utils;

use crate::bluetooth::adapter::AdapterSelector;
use crate::bluetooth::bleuuid::is_random_uuid;
use crate::bluetooth::identity::{consistent, IdentityCache, IdentityView};
use crate::bluetooth::models::RequestDeviceOptions;
use crate::bluetooth::session::{
    follows, handed_out, refusal, ActionView, DiscoverySession, Phase, SessionAction,
    SessionEvent, SessionState,
};
use crate::error::Error;
use vstd::prelude::*;

verus! {

/// The manager as plain values: the index of its adapter, its identities and
/// the phase of its session.
pub struct ManagerView<H> {
    pub adapter_index: usize,
    pub identities: IdentityView<H>,
    pub phase: Phase<H>,
}

/// The state of the plugin: which adapter it uses, which devices it has
/// given ids to, and the one discovery session it runs at a time.
///
/// The manager only decides. Whoever holds it enumerates the adapters, drives
/// the scan and reports back, and guards the manager against concurrent
/// access, so that each call sees the whole effect of the calls before it.
#[verifier::reject_recursive_types(H)]
pub struct BluetoothManager<H> {
    selector: AdapterSelector,
    cache: IdentityCache<H>,
    session: DiscoverySession<H>,
}

impl<H> View for BluetoothManager<H> {
    type V = ManagerView<H>;

    closed spec fn view(&self) -> ManagerView<H> {
        ManagerView {
            adapter_index: self.selector.adapter_index,
            identities: self.cache@,
            phase: self.session.phase(),
        }
    }
}

impl<H> BluetoothManager<H> {
    /// A manager for the first adapter.
    pub fn new() -> (manager: Self)
        ensures
            manager@.adapter_index == 0,
            manager@.identities.ids == Map::<Seq<char>, Seq<char>>::empty(),
            manager@.identities.handles == Map::<Seq<char>, H>::empty(),
            manager@.phase == Phase::<H>::Idle,
    {
        Self::with_adapter_index(0)
    }

    /// A manager for the adapter at `adapter_index`, with no identities yet
    /// and an idle session.
    pub fn with_adapter_index(adapter_index: usize) -> (manager: Self)
        ensures
            manager@.adapter_index == adapter_index,
            manager@.identities.ids == Map::<Seq<char>, Seq<char>>::empty(),
            manager@.identities.handles == Map::<Seq<char>, H>::empty(),
            manager@.phase == Phase::<H>::Idle,
    {
        BluetoothManager {
            selector: AdapterSelector::new(adapter_index),
            cache: IdentityCache::new(),
            session: DiscoverySession::new(),
        }
    }

    /// The index of the adapter that the manager uses.
    pub fn adapter_index(&self) -> (adapter_index: usize)
        ensures
            adapter_index == self@.adapter_index,
    {
        self.selector.adapter_index
    }

    /// The state of the manager's session.
    pub fn state(&self) -> (state: SessionState)
        ensures
            state == self@.phase.state(),
    {
        self.session.state()
    }

    /// Whether Bluetooth is available among `adapter_count` enumerated
    /// adapters: there is at least one.
    pub fn get_availability(&self, adapter_count: usize) -> (available: bool)
        ensures
            available == (adapter_count > 0),
    {
        self.selector.get_availability(adapter_count)
    }

    /// The adapter to scan with among `adapter_count` enumerated ones, or
    /// `NoAdapter` where there is none at the manager's index.
    pub fn select_adapter(&self, adapter_count: usize) -> (selected: Result<usize, Error>)
        ensures
            self@.adapter_index < adapter_count ==> selected == Ok::<usize, Error>(
                self@.adapter_index,
            ),
            self@.adapter_index >= adapter_count ==> selected == Err::<usize, Error>(
                Error::NoAdapter,
            ),
    {
        self.selector.select(adapter_count)
    }

    /// The peripheral handle that a device id leads to, or `DeviceNotFound`
    /// for an id that was never given out.
    pub fn device(&self, device_id: &str) -> (handle: Result<&H, Error>)
        ensures
            match handle {
                Ok(found) => self@.identities.handles.contains_key(device_id@) && *found
                    == self@.identities.handles[device_id@],
                Err(error) => !self@.identities.handles.contains_key(device_id@) && error
                    == Error::DeviceNotFound,
            },
    {
        match self.cache.device(device_id) {
            Some(found) => Ok(found),
            None => Err(Error::DeviceNotFound),
        }
    }

    /// The device id of an address, if the address was matched before.
    pub fn device_id(&self, address: &str) -> (id: Option<String>)
        ensures
            id is Some == self@.identities.ids.contains_key(address@),
            id matches Some(text) ==> text@ == self@.identities.ids[address@],
    {
        self.cache.device_id(address)
    }

    /// Takes a request for a device while `adapter_count` adapters are enumerated.
    ///
    /// A request with invalid options finishes with
    /// `InvalidRequestDeviceOptions`; a valid one that arrives while a scan
    /// is in flight finishes with `ScanStartFailure`; one for which no adapter
    /// exists at the manager's index finishes with `NoAdapter`. None of
    /// these asks for a scan or changes the manager. Every other request
    /// asks for the scan to be started.
    pub fn request_device(
        &mut self,
        options: RequestDeviceOptions,
        adapter_count: usize,
    ) -> (action: SessionAction)
        ensures
            final(self)@.adapter_index == old(self)@.adapter_index,
            final(self)@.identities == old(self)@.identities,
            match refusal(
                old(self)@.phase,
                options,
                AdapterSelector { adapter_index: old(self)@.adapter_index },
                adapter_count,
            ) {
                Some(error) => {
                    &&& action@ == ActionView::Finish(Err(error))
                    &&& final(self)@.phase == old(self)@.phase
                },
                None => {
                    &&& action@ == ActionView::StartScan { adapter_index: old(self)@.adapter_index }
                    &&& final(self)@.phase == Phase::<H>::Starting(options.validated())
                },
            },
    {
        self.session.request_device(options, &self.selector, adapter_count)
    }

    /// Takes an event from the driver and says what to do next, with `uuid`
    /// as the source of a new device id should the event call for one.
    pub fn handle_event_with(
        &mut self,
        event: SessionEvent<H>,
        uuid: u128,
    ) -> (action: SessionAction)
        ensures
            final(self)@.adapter_index == old(self)@.adapter_index,
            follows(
                old(self)@.phase,
                old(self)@.identities,
                event,
                uuid,
                final(self)@.phase,
                final(self)@.identities,
                action@,
            ),
            consistent(final(self)@.identities),
            action matches SessionAction::Finish(Ok(info)) ==> handed_out(
                old(self)@.phase,
                final(self)@.identities,
                info.id@,
            ),
    {
        self.session.step_with(&mut self.cache, event, uuid)
    }

    /// Takes an event from the driver and says what to do next. Where the
    /// event calls for a new device id, the id is made from a random UUID:
    /// what comes back is what `handle_event_with` gives for some random UUID.
    pub fn handle_event(&mut self, event: SessionEvent<H>) -> (action: SessionAction)
        ensures
            final(self)@.adapter_index == old(self)@.adapter_index,
            exists|uuid: u128|
                is_random_uuid(uuid) && #[trigger] follows(
                    old(self)@.phase,
                    old(self)@.identities,
                    event,
                    uuid,
                    final(self)@.phase,
                    final(self)@.identities,
                    action@,
                ),
            consistent(final(self)@.identities),
            action matches SessionAction::Finish(Ok(info)) ==> handed_out(
                old(self)@.phase,
                final(self)@.identities,
                info.id@,
            ),
    {
        let ghost phase = self.session.phase();
        let ghost identities = self.cache@;
        let action = self.session.step(&mut self.cache, event);
        proof {
            let uuid = choose|uuid: u128|
                is_random_uuid(uuid) && #[trigger] follows(
                    phase,
                    identities,
                    event,
                    uuid,
                    self.session.phase(),
                    self.cache@,
                    action@,
                );
            assert(follows(
                old(self)@.phase,
                old(self)@.identities,
                event,
                uuid,
                self@.phase,
                self@.identities,
                action@,
            ));
        }
        action
    }

    /// Ends the session, whatever its phase, and says whether the driver owes
    /// the adapter a stop of the scan. The identities stay.
    pub fn shutdown(&mut self) -> (stop_owed: bool)
        ensures
            stop_owed == old(self)@.phase.scan_running(),
            final(self)@.phase == Phase::<H>::Idle,
            final(self)@.adapter_index == old(self)@.adapter_index,
            final(self)@.identities == old(self)@.identities,
    {
        self.session.shutdown()
    }
}

} // verus!
