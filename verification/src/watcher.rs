//! The watcher of one activity's device.
//!
//! A watcher follows the device that its activity names and tells the rest of
//! the system which device handle stands for it at the moment. It does no
//! bus call itself: [`DeviceWatcher::command`] says which call is due, the
//! caller makes it and hands the outcome to [`DeviceWatcher::step`], which
//! answers with what to emit.

use crate::text::text_eq;
use vstd::prelude::*;

verus! {

/// Milliseconds between two enumerations of the bus, and before a failed
/// bus call is made again.
pub const POLL_INTERVAL_MS: u64 = 4000;

/// One device of an enumeration: its handle on the bus and its stable name.
#[derive(Debug, Clone, PartialEq, Eq)]
pub struct BusDevice {
    pub handle: String,
    pub name: String,
}

/// What a [`BusDevice`] holds, as mathematical values.
pub ghost struct BusDeviceView {
    pub handle: Seq<char>,
    pub name: Seq<char>,
}

impl View for BusDevice {
    type V = BusDeviceView;

    open spec fn view(&self) -> BusDeviceView {
        BusDeviceView { handle: self.handle@, name: self.name@ }
    }
}

/// The outcome of the bus call that was due, or a request to stop.
#[derive(Debug, Clone, PartialEq, Eq)]
pub enum WatcherEvent {
    /// The bus was enumerated: its devices in the order of the enumeration,
    /// and whether anyone still listens for identities.
    Devices { devices: Vec<BusDevice>, listening: bool },
    /// The bus named its aggregate device.
    Aggregate { handle: String },
    /// The bus call failed.
    BusError,
    /// Everything is to shut down.
    Cleanup,
}

/// What a [`WatcherEvent`] holds, as mathematical values.
pub ghost enum WatcherEventView {
    Devices { devices: Seq<BusDeviceView>, listening: bool },
    Aggregate { handle: Seq<char> },
    BusError,
    Cleanup,
}

impl View for WatcherEvent {
    type V = WatcherEventView;

    open spec fn view(&self) -> WatcherEventView {
        match *self {
            WatcherEvent::Devices { devices, listening } => WatcherEventView::Devices {
                devices: devices@.map_values(|d: BusDevice| d@),
                listening,
            },
            WatcherEvent::Aggregate { handle } => WatcherEventView::Aggregate { handle: handle@ },
            WatcherEvent::BusError => WatcherEventView::BusError,
            WatcherEvent::Cleanup => WatcherEventView::Cleanup,
        }
    }
}

/// The bus call that is due.
#[derive(Debug, Clone, Copy, PartialEq, Eq, Structural)]
pub enum WatcherCommand {
    /// Wait `delay_ms` milliseconds, then enumerate the devices.
    Enumerate { delay_ms: u64 },
    /// Wait `delay_ms` milliseconds, then ask for the aggregate device.
    QueryAggregate { delay_ms: u64 },
    /// Drop the identity sender and end the task.
    Stop,
}

/// What a step emits: first the identity, then the registration.
#[derive(Debug, Clone, PartialEq, Eq)]
pub struct WatcherOutput {
    /// The identity to emit, if any: a device handle, or `None` for no device.
    pub identity: Option<Option<String>>,
    /// The registration to emit, if any: whether the activity should be
    /// registered.
    pub register: Option<bool>,
}

/// What a [`WatcherOutput`] holds, as mathematical values.
pub ghost struct WatcherOutputView {
    pub identity: Option<Option<Seq<char>>>,
    pub register: Option<bool>,
}

/// The characters of an identity.
pub open spec fn identity_view(identity: Option<String>) -> Option<Seq<char>> {
    match identity {
        Some(handle) => Some(handle@),
        None => None,
    }
}

/// The characters of an identity that may or may not have been emitted.
pub open spec fn emission_view(emission: Option<Option<String>>) -> Option<Option<Seq<char>>> {
    match emission {
        Some(identity) => Some(identity_view(identity)),
        None => None,
    }
}

impl View for WatcherOutput {
    type V = WatcherOutputView;

    open spec fn view(&self) -> WatcherOutputView {
        WatcherOutputView { identity: emission_view(self.identity), register: self.register }
    }
}

/// What a watcher waits for.
#[derive(Debug, Clone, Copy, PartialEq, Eq, Structural)]
pub enum Pending {
    /// An enumeration of the bus.
    Poll,
    /// The aggregate device, for a watcher without a target.
    Sentinel,
    /// The aggregate device, to stand in for a device that went missing.
    Fallback,
    /// Nothing: the watcher has stopped.
    Stopped,
}

/// The state of a watcher, as mathematical values.
pub ghost struct WatcherView {
    /// The name or handle of the device to follow; empty for the aggregate
    /// device.
    pub target: Seq<char>,
    /// Whether the activity stays registered while its device is missing.
    pub keep_registered: bool,
    /// The handle of the device, while one is found.
    pub found: Option<Seq<char>>,
    /// The identity that was emitted last, if any was.
    pub reported: Option<Option<Seq<char>>>,
    /// What the watcher waits for.
    pub pending: Pending,
    /// The wait before the next bus call.
    pub delay_ms: u64,
}

/// Whether a device is the one that `target` names: by its stable name or by
/// its handle.
pub open spec fn names_device(target: Seq<char>, device: BusDeviceView) -> bool {
    device.name == target || device.handle == target
}

/// The handle of the first device that `target` names, in the order of the
/// enumeration.
pub open spec fn first_match(target: Seq<char>, devices: Seq<BusDeviceView>) -> Option<Seq<char>>
    decreases devices.len(),
{
    if devices.len() == 0 {
        None
    } else if names_device(target, devices[0]) {
        Some(devices[0].handle)
    } else {
        first_match(target, devices.drop_first())
    }
}

/// The emission of `identity`, unless it is the identity that was emitted
/// last.
pub open spec fn fresh(reported: Option<Option<Seq<char>>>, identity: Option<Seq<char>>) -> Option<
    Option<Seq<char>>,
> {
    if reported == Some(identity) {
        None
    } else {
        Some(identity)
    }
}

/// The identity emitted last after a step that emitted `emission`.
pub open spec fn reported_after(
    reported: Option<Option<Seq<char>>>,
    emission: Option<Option<Seq<char>>>,
) -> Option<Option<Seq<char>>> {
    match emission {
        Some(identity) => Some(identity),
        None => reported,
    }
}

impl WatcherView {
    /// A watcher that has not made any bus call yet.
    pub open spec fn initial(target: Seq<char>, keep_registered: bool) -> WatcherView {
        WatcherView {
            target,
            keep_registered,
            found: None,
            reported: None,
            pending: if target.len() == 0 {
                Pending::Sentinel
            } else {
                Pending::Poll
            },
            delay_ms: 0,
        }
    }

    /// The bus call that is due in this state.
    pub open spec fn command(self) -> WatcherCommand {
        match self.pending {
            Pending::Poll => WatcherCommand::Enumerate { delay_ms: self.delay_ms },
            Pending::Sentinel | Pending::Fallback => WatcherCommand::QueryAggregate {
                delay_ms: self.delay_ms,
            },
            Pending::Stopped => WatcherCommand::Stop,
        }
    }

    /// The step without any effect.
    pub open spec fn idle(self) -> (WatcherView, WatcherOutputView) {
        (self, WatcherOutputView { identity: None, register: None })
    }

    /// The step on an enumeration in which `handle` is the target's device.
    ///
    /// A handle other than the one found before is a new identity. Then, with
    /// a listener, the activity is registered if no device was found before;
    /// without one, the registration stands in for the identity and says
    /// whether the activity stays registered.
    pub open spec fn on_match(self, handle: Seq<char>, listening: bool) -> (
        WatcherView,
        WatcherOutputView,
    ) {
        if self.found == Some(handle) {
            (WatcherView { delay_ms: POLL_INTERVAL_MS, ..self }, self.idle().1)
        } else {
            let identity = if listening {
                fresh(self.reported, Some(handle))
            } else {
                None
            };
            let register = if !listening {
                Some(self.keep_registered)
            } else if self.found is None {
                Some(true)
            } else {
                None
            };
            (
                WatcherView {
                    found: Some(handle),
                    reported: reported_after(self.reported, identity),
                    delay_ms: POLL_INTERVAL_MS,
                    ..self
                },
                WatcherOutputView { identity, register },
            )
        }
    }

    /// The step on an enumeration without the target's device.
    ///
    /// While searching, nothing happens. A device that was found is lost: a
    /// watcher that keeps its activity registered asks for the aggregate
    /// device to stand in; any other emits the empty identity and has the
    /// activity unregistered.
    pub open spec fn on_miss(self) -> (WatcherView, WatcherOutputView) {
        if self.found is None {
            (WatcherView { delay_ms: POLL_INTERVAL_MS, ..self }, self.idle().1)
        } else if self.keep_registered {
            (
                WatcherView { found: None, pending: Pending::Fallback, delay_ms: 0, ..self },
                self.idle().1,
            )
        } else {
            let identity = fresh(self.reported, None);
            (
                WatcherView {
                    found: None,
                    reported: reported_after(self.reported, identity),
                    delay_ms: POLL_INTERVAL_MS,
                    ..self
                },
                WatcherOutputView { identity, register: Some(false) },
            )
        }
    }

    /// The step on the aggregate device's handle: it is emitted as the
    /// identity. A watcher without a target then registers its activity and
    /// stops; one whose device went missing keeps its activity registered and
    /// goes on polling.
    pub open spec fn on_aggregate(self, handle: Seq<char>) -> (WatcherView, WatcherOutputView) {
        let identity = fresh(self.reported, Some(handle));
        let reported = reported_after(self.reported, identity);
        match self.pending {
            Pending::Sentinel => (
                WatcherView { reported, pending: Pending::Stopped, delay_ms: 0, ..self },
                WatcherOutputView { identity, register: Some(true) },
            ),
            Pending::Fallback => (
                WatcherView {
                    reported,
                    pending: Pending::Poll,
                    delay_ms: POLL_INTERVAL_MS,
                    ..self
                },
                WatcherOutputView { identity, register: Some(self.keep_registered) },
            ),
            _ => self.idle(),
        }
    }

    /// The state after an event, and what the step emits.
    ///
    /// A stopped watcher ignores every event, and any watcher ignores an
    /// outcome of a call that was not due. A failed call is made again after
    /// the poll interval. A cleanup stops the watcher without emitting.
    pub open spec fn step(self, event: WatcherEventView) -> (WatcherView, WatcherOutputView) {
        if self.pending == Pending::Stopped {
            self.idle()
        } else {
            match event {
                WatcherEventView::Cleanup => (
                    WatcherView { pending: Pending::Stopped, delay_ms: 0, ..self },
                    self.idle().1,
                ),
                WatcherEventView::BusError => (
                    WatcherView { delay_ms: POLL_INTERVAL_MS, ..self },
                    self.idle().1,
                ),
                WatcherEventView::Devices { devices, listening } => if self.pending
                    == Pending::Poll {
                    match first_match(self.target, devices) {
                        Some(handle) => self.on_match(handle, listening),
                        None => self.on_miss(),
                    }
                } else {
                    self.idle()
                },
                WatcherEventView::Aggregate { handle } => self.on_aggregate(handle),
            }
        }
    }
}

/// Follows one device over time.
#[derive(Debug)]
pub struct DeviceWatcher {
    target: String,
    keep_registered: bool,
    found: Option<String>,
    reported: Option<Option<String>>,
    pending: Pending,
    delay_ms: u64,
}

impl View for DeviceWatcher {
    type V = WatcherView;

    closed spec fn view(&self) -> WatcherView {
        WatcherView {
            target: self.target@,
            keep_registered: self.keep_registered,
            found: identity_view(self.found),
            reported: emission_view(self.reported),
            pending: self.pending,
            delay_ms: self.delay_ms,
        }
    }
}

/// The first device of `devices` that `target` names.
fn find_device<'a>(target: &str, devices: &'a Vec<BusDevice>) -> (found: Option<&'a String>)
    ensures
        identity_view(
            match found {
                Some(handle) => Some(*handle),
                None => None,
            },
        ) == first_match(target@, devices@.map_values(|d: BusDevice| d@)),
{
    let ghost all = devices@.map_values(|d: BusDevice| d@);
    let mut i: usize = 0;
    assert(all.skip(0) =~= all);
    while i < devices.len()
        invariant
            i <= devices.len(),
            all == devices@.map_values(|d: BusDevice| d@),
            first_match(target@, all) == first_match(target@, all.skip(i as int)),
        decreases devices.len() - i,
    {
        let device = &devices[i];
        assert(all.skip(i as int)[0] == device@);
        assert(all.skip(i as int).drop_first() =~= all.skip(i + 1));
        if text_eq(device.name.as_str(), target) || text_eq(device.handle.as_str(), target) {
            return Some(&device.handle);
        }
        i += 1;
    }
    None
}

/// Whether `identity` is the identity that was emitted last.
fn same_identity(reported: &Option<Option<String>>, identity: &Option<String>) -> (same: bool)
    ensures
        same == (emission_view(*reported) == Some(identity_view(*identity))),
{
    match reported {
        Some(last) => match (last, identity) {
            (Some(a), Some(b)) => text_eq(a.as_str(), b.as_str()),
            (None, None) => true,
            _ => false,
        },
        None => false,
    }
}

/// A copy of an identity.
fn copy_identity(identity: &Option<String>) -> (copy: Option<String>)
    ensures
        copy == *identity,
{
    match identity {
        Some(handle) => Some(handle.clone()),
        None => None,
    }
}

impl DeviceWatcher {
    /// A watcher of the device that `target` names, or of the aggregate
    /// device where `target` is empty.
    pub fn new(target: &str, keep_registered: bool) -> (watcher: DeviceWatcher)
        ensures
            watcher@ == WatcherView::initial(target@, keep_registered),
    {
        let pending = if target.unicode_len() == 0 {
            Pending::Sentinel
        } else {
            Pending::Poll
        };
        DeviceWatcher {
            target: target.to_owned(),
            keep_registered,
            found: None,
            reported: None,
            pending,
            delay_ms: 0,
        }
    }

    /// The bus call that is due.
    pub fn command(&self) -> (command: WatcherCommand)
        ensures
            command == self@.command(),
    {
        match self.pending {
            Pending::Poll => WatcherCommand::Enumerate { delay_ms: self.delay_ms },
            Pending::Sentinel => WatcherCommand::QueryAggregate { delay_ms: self.delay_ms },
            Pending::Fallback => WatcherCommand::QueryAggregate { delay_ms: self.delay_ms },
            Pending::Stopped => WatcherCommand::Stop,
        }
    }

    /// Whether the watcher has stopped.
    pub fn is_stopped(&self) -> (stopped: bool)
        ensures
            stopped == (self@.pending == Pending::Stopped),
    {
        match self.pending {
            Pending::Stopped => true,
            _ => false,
        }
    }

    /// Emits `identity` unless it was emitted last, and remembers it.
    fn emit(&mut self, identity: Option<String>) -> (emission: Option<Option<String>>)
        ensures
            emission_view(emission) == fresh(old(self)@.reported, identity_view(identity)),
            final(self)@ == (WatcherView {
                reported: reported_after(old(self)@.reported, emission_view(emission)),
                ..old(self)@
            }),
    {
        if same_identity(&self.reported, &identity) {
            None
        } else {
            self.reported = Some(copy_identity(&identity));
            Some(identity)
        }
    }

    /// Takes the outcome of the bus call that was due and says what to emit.
    pub fn step(&mut self, event: &WatcherEvent) -> (output: WatcherOutput)
        ensures
            (final(self)@, output@) == old(self)@.step(event@),
    {
        let mut output = WatcherOutput { identity: None, register: None };
        if self.is_stopped() {
            return output;
        }
        match event {
            WatcherEvent::Cleanup => {
                self.pending = Pending::Stopped;
                self.delay_ms = 0;
            },
            WatcherEvent::BusError => {
                self.delay_ms = POLL_INTERVAL_MS;
            },
            WatcherEvent::Devices { devices, listening } => {
                if self.pending == Pending::Poll {
                    match find_device(self.target.as_str(), devices) {
                        Some(handle) => {
                            let known = match &self.found {
                                Some(old_handle) => text_eq(old_handle.as_str(), handle.as_str()),
                                None => false,
                            };
                            if !known {
                                if *listening {
                                    if self.found.is_none() {
                                        output.register = Some(true);
                                    }
                                    output.identity = self.emit(Some(handle.clone()));
                                } else {
                                    output.register = Some(self.keep_registered);
                                }
                                self.found = Some(handle.clone());
                            }
                            self.delay_ms = POLL_INTERVAL_MS;
                        },
                        None => {
                            if self.found.is_none() {
                                self.delay_ms = POLL_INTERVAL_MS;
                            } else if self.keep_registered {
                                self.found = None;
                                self.pending = Pending::Fallback;
                                self.delay_ms = 0;
                            } else {
                                self.found = None;
                                output.identity = self.emit(None);
                                output.register = Some(false);
                                self.delay_ms = POLL_INTERVAL_MS;
                            }
                        },
                    }
                }
            },
            WatcherEvent::Aggregate { handle } => {
                match self.pending {
                    Pending::Sentinel => {
                        output.identity = self.emit(Some(handle.clone()));
                        output.register = Some(true);
                        self.pending = Pending::Stopped;
                        self.delay_ms = 0;
                    },
                    Pending::Fallback => {
                        output.identity = self.emit(Some(handle.clone()));
                        output.register = Some(self.keep_registered);
                        self.pending = Pending::Poll;
                        self.delay_ms = POLL_INTERVAL_MS;
                    },
                    _ => {},
                }
            },
        }
        output
    }
}

/// The state after a run of events, and what each step emitted.
pub open spec fn run(start: WatcherView, events: Seq<WatcherEventView>) -> (
    WatcherView,
    Seq<WatcherOutputView>,
)
    decreases events.len(),
{
    if events.len() == 0 {
        (start, Seq::empty())
    } else {
        let (middle, outputs) = run(start, events.drop_last());
        let (end, output) = middle.step(events.last());
        (end, outputs.push(output))
    }
}

/// The identities among the outputs of a run, in the order of their emission.
pub open spec fn identities(outputs: Seq<WatcherOutputView>) -> Seq<Option<Seq<char>>>
    decreases outputs.len(),
{
    if outputs.len() == 0 {
        Seq::empty()
    } else {
        match outputs.last().identity {
            Some(identity) => identities(outputs.drop_last()).push(identity),
            None => identities(outputs.drop_last()),
        }
    }
}

/// A step never emits the identity that was emitted last, and it remembers
/// what it emits.
pub proof fn lemma_step_reports(state: WatcherView, event: WatcherEventView)
    ensures
        state.step(event).1.identity matches Some(identity) ==> state.reported != Some(identity),
        state.step(event).0.reported == reported_after(
            state.reported,
            state.step(event).1.identity,
        ),
        state.step(event).0.target == state.target,
        state.step(event).0.keep_registered == state.keep_registered,
{
}

/// The watcher remembers the last identity of a run.
pub proof fn lemma_run_reports(target: Seq<char>, keep_registered: bool, events: Seq<WatcherEventView>)
    ensures
        ({
            let (end, outputs) = run(WatcherView::initial(target, keep_registered), events);
            let emitted = identities(outputs);
            &&& outputs.len() == events.len()
            &&& end.target == target
            &&& end.keep_registered == keep_registered
            &&& end.reported == if emitted.len() == 0 {
                None
            } else {
                Some(emitted.last())
            }
        }),
    decreases events.len(),
{
    if events.len() > 0 {
        lemma_run_reports(target, keep_registered, events.drop_last());
        let (middle, outputs) = run(
            WatcherView::initial(target, keep_registered),
            events.drop_last(),
        );
        lemma_step_reports(middle, events.last());
        let output = middle.step(events.last()).1;
        assert(outputs.push(output).drop_last() =~= outputs);
    }
}

/// A watcher never emits the same identity twice in a row, whatever the
/// bus reports and whenever it is told to stop.
pub proof fn lemma_no_repeated_identity(
    target: Seq<char>,
    keep_registered: bool,
    events: Seq<WatcherEventView>,
)
    ensures
        ({
            let emitted = identities(run(WatcherView::initial(target, keep_registered), events).1);
            forall|k: int| 0 <= k < emitted.len() - 1 ==> emitted[k] != #[trigger] emitted[k + 1]
        }),
    decreases events.len(),
{
    if events.len() > 0 {
        let start = WatcherView::initial(target, keep_registered);
        lemma_no_repeated_identity(target, keep_registered, events.drop_last());
        lemma_run_reports(target, keep_registered, events.drop_last());
        let (middle, outputs) = run(start, events.drop_last());
        lemma_step_reports(middle, events.last());
        let output = middle.step(events.last()).1;
        assert(outputs.push(output).drop_last() =~= outputs);
    }
}

/// A watcher that has stopped stays as it is and emits nothing, whatever
/// comes; and a cleanup stops any watcher on the spot, without an emission.
pub proof fn lemma_stopped_is_silent(state: WatcherView, events: Seq<WatcherEventView>)
    requires
        state.pending == Pending::Stopped,
    ensures
        run(state, events).0 == state,
        run(state, events).1.len() == events.len(),
        forall|k: int|
            0 <= k < events.len() ==> #[trigger] run(state, events).1[k] == (WatcherOutputView {
                identity: None,
                register: None,
            }),
        identities(run(state, events).1) == Seq::<Option<Seq<char>>>::empty(),
        forall|any: WatcherView|
            (#[trigger] any.step(WatcherEventView::Cleanup)).0.pending == Pending::Stopped
                && any.step(WatcherEventView::Cleanup).1 == (WatcherOutputView {
                identity: None,
                register: None,
            }),
    decreases events.len(),
{
    if events.len() > 0 {
        lemma_stopped_is_silent(state, events.drop_last());
        let (middle, before) = run(state, events.drop_last());
        let output = middle.step(events.last()).1;
        let outputs = run(state, events).1;
        assert(outputs == before.push(output));
        assert(outputs.drop_last() =~= before);
        assert forall|k: int| 0 <= k < events.len() implies #[trigger] outputs[k] == (
        WatcherOutputView { identity: None, register: None }) by {
            if k < before.len() {
                assert(outputs[k] == before[k]);
            } else {
                assert(outputs[k] == output);
            }
        }
    }
}

/// A watcher without a target asks for the aggregate device first, and on
/// the answer emits that device's handle, registers its activity and stops.
pub proof fn lemma_sentinel_answer(keep_registered: bool, handle: Seq<char>)
    ensures
        ({
            let start = WatcherView::initial(Seq::empty(), keep_registered);
            let (end, output) = start.step(WatcherEventView::Aggregate { handle });
            &&& start.command() == WatcherCommand::QueryAggregate { delay_ms: 0 }
            &&& output == WatcherOutputView { identity: Some(Some(handle)), register: Some(true) }
            &&& end.command() == WatcherCommand::Stop
        }),
{
}

/// A watcher without a target emits at most one identity in any run, never
/// enumerates the bus, and has stopped once it has emitted: the one identity
/// is the aggregate device's handle, and nothing follows it.
pub proof fn lemma_sentinel_emits_once(keep_registered: bool, events: Seq<WatcherEventView>)
    ensures
        ({
            let (end, outputs) = run(
                WatcherView::initial(Seq::empty(), keep_registered),
                events,
            );
            let emitted = identities(outputs);
            &&& emitted.len() <= 1
            &&& end.pending == Pending::Sentinel || end.pending == Pending::Stopped
            &&& emitted.len() == 1 ==> end.pending == Pending::Stopped
            &&& end.pending == Pending::Sentinel ==> emitted.len() == 0
            &&& forall|k: int|
                0 <= k < outputs.len() && (#[trigger] outputs[k]).identity is Some ==> events[k]
                    == (WatcherEventView::Aggregate { handle: outputs[k].identity->0->0 })
                    && outputs[k].identity->0 is Some && outputs[k].register == Some(true)
        }),
    decreases events.len(),
{
    if events.len() > 0 {
        let start = WatcherView::initial(Seq::empty(), keep_registered);
        lemma_sentinel_emits_once(keep_registered, events.drop_last());
        lemma_run_reports(Seq::empty(), keep_registered, events.drop_last());
        let (middle, before) = run(start, events.drop_last());
        let output = middle.step(events.last()).1;
        let outputs = before.push(output);
        assert(outputs.drop_last() =~= before);
        assert forall|k: int|
            0 <= k < outputs.len() && (#[trigger] outputs[k]).identity is Some implies events[k]
            == (WatcherEventView::Aggregate { handle: outputs[k].identity->0->0 })
            && outputs[k].identity->0 is Some && outputs[k].register == Some(true) by {
            if k < before.len() {
                assert(outputs[k] == before[k]);
                assert(events.drop_last()[k] == events[k]);
            }
        }
    }
}

} // verus!
