//! The discovery stream: the steps that turn a session with the radio
//! stack into a sequence of snapshots. The stream decides; its driver does
//! the work that each command names and hands back what came of it.

use vstd::prelude::*;
use vstd::string::StringExecFns;

use crate::bluetooth::address::Address;
use crate::bluetooth::device::{property_views, Device, DeviceProperty, DeviceView, PropertyView};
use crate::bluetooth::time::CaptureTime;

verus! {

/// Why a discovery stream ended. Each variant holds the words of the
/// failure that caused it.
#[derive(Debug, PartialEq, Eq)]
pub enum DiscoveryError {
    /// The radio stack failed: no session, no adapter, or a device whose
    /// properties could not be fetched.
    Bluetooth(String),
    /// The clock could not be read for the capture time.
    SystemTime(String),
}

/// What a `DiscoveryError` holds.
pub enum DiscoveryErrorView {
    Bluetooth(Seq<char>),
    SystemTime(Seq<char>),
}

impl View for DiscoveryError {
    type V = DiscoveryErrorView;

    open spec fn view(&self) -> DiscoveryErrorView {
        match *self {
            DiscoveryError::Bluetooth(message) => DiscoveryErrorView::Bluetooth(message@),
            DiscoveryError::SystemTime(message) => DiscoveryErrorView::SystemTime(message@),
        }
    }
}

impl DiscoveryErrorView {
    /// The error in words.
    pub open spec fn text(self) -> Seq<char> {
        match self {
            DiscoveryErrorView::Bluetooth(message) => "bluetooth error: "@ + message,
            DiscoveryErrorView::SystemTime(message) => "system time error: "@ + message,
        }
    }
}

impl DiscoveryError {
    /// The error in words: which kind of failure, then the failure's own
    /// words.
    pub fn to_string(&self) -> (text: String)
        ensures
            text@ == self@.text(),
    {
        match self {
            DiscoveryError::Bluetooth(message) => "bluetooth error: ".to_string().concat(
                message.as_str(),
            ),
            DiscoveryError::SystemTime(message) => "system time error: ".to_string().concat(
                message.as_str(),
            ),
        }
    }
}

/// A change that the adapter reports.
#[derive(Clone, Copy, Debug, PartialEq, Eq)]
pub enum AdapterEvent {
    /// A device with this address was seen for the first time.
    DeviceAdded(Address),
    /// The device with this address is gone.
    DeviceRemoved(Address),
    /// A property of the adapter changed.
    PropertyChanged,
}

/// What has come of the work that the stream asked for, or what the
/// consumer of the stream wants.
#[derive(Debug)]
pub enum Signal {
    /// The consumer wants the next item.
    Demand,
    /// The work is done and has nothing to hand back.
    Done,
    /// The adapter reported a change.
    Event(AdapterEvent),
    /// The adapter's feed of changes has ended.
    Closed,
    /// The properties of the device were fetched, at this moment.
    Resolved(Vec<DeviceProperty>, CaptureTime),
    /// The work failed.
    Failed(DiscoveryError),
}

/// What a `Signal` holds.
pub enum SignalView {
    Demand,
    Done,
    Event(AdapterEvent),
    Closed,
    Resolved(Seq<PropertyView>, CaptureTime),
    Failed(DiscoveryErrorView),
}

impl View for Signal {
    type V = SignalView;

    open spec fn view(&self) -> SignalView {
        match *self {
            Signal::Demand => SignalView::Demand,
            Signal::Done => SignalView::Done,
            Signal::Event(event) => SignalView::Event(event),
            Signal::Closed => SignalView::Closed,
            Signal::Resolved(properties, time) => SignalView::Resolved(
                property_views(properties@),
                time,
            ),
            Signal::Failed(error) => SignalView::Failed(error@),
        }
    }
}

/// What the stream asks of its driver.
#[derive(Debug)]
pub enum Command {
    /// Nothing, until the consumer demands an item.
    Wait,
    /// Open a session with the radio stack.
    OpenSession,
    /// Get the default adapter of the session.
    DefaultAdapter,
    /// Power the adapter on.
    PowerOn,
    /// Subscribe to the adapter's feed of changes.
    Subscribe,
    /// Await the next change that the adapter reports.
    NextEvent,
    /// Fetch all properties of the device with this address, and read the
    /// clock.
    Resolve(Address),
    /// Hand this snapshot to the consumer.
    Yield(Device),
    /// Hand this failure to the consumer as the last item.
    Fail(DiscoveryError),
    /// Tell the consumer that the stream has ended.
    End,
}

/// What a `Command` holds.
pub enum CommandView {
    Wait,
    OpenSession,
    DefaultAdapter,
    PowerOn,
    Subscribe,
    NextEvent,
    Resolve(Address),
    Yield(DeviceView),
    Fail(DiscoveryErrorView),
    End,
}

impl View for Command {
    type V = CommandView;

    open spec fn view(&self) -> CommandView {
        match *self {
            Command::Wait => CommandView::Wait,
            Command::OpenSession => CommandView::OpenSession,
            Command::DefaultAdapter => CommandView::DefaultAdapter,
            Command::PowerOn => CommandView::PowerOn,
            Command::Subscribe => CommandView::Subscribe,
            Command::NextEvent => CommandView::NextEvent,
            Command::Resolve(address) => CommandView::Resolve(address),
            Command::Yield(device) => CommandView::Yield(device@),
            Command::Fail(error) => CommandView::Fail(error@),
            Command::End => CommandView::End,
        }
    }
}

/// The snapshot of a device that was added: its properties folded, then
/// its address and the capture time attached.
pub open spec fn snapshot(address: Address, properties: Seq<PropertyView>, time: CaptureTime)
    -> DeviceView {
    DeviceView { address, timestamp: time, ..DeviceView::fold(properties) }
}

/// Where a discovery stream stands.
#[derive(Clone, Copy, Debug, PartialEq, Eq)]
pub enum Discovery {
    /// Nothing was demanded yet: there is no session.
    Idle,
    /// The session is being opened.
    Opening,
    /// The default adapter is being looked up.
    FindingAdapter,
    /// The adapter is being powered on.
    PoweringOn,
    /// The feed of changes is being subscribed to.
    Subscribing,
    /// An item was handed over; the feed is open and no item is demanded.
    Ready,
    /// An item is demanded and the next change is awaited.
    Listening,
    /// The properties of an added device are being fetched.
    Resolving(Address),
    /// The stream has ended, by a failure or with its feed.
    Finished,
}

impl Discovery {
    /// What a stream that stands at `self` asks for when nothing new has
    /// come in: in `Idle` and `Ready` nothing, after the end the end, and
    /// else the work that it is waiting for.
    pub open spec fn pending(self) -> CommandView {
        match self {
            Discovery::Idle => CommandView::Wait,
            Discovery::Opening => CommandView::OpenSession,
            Discovery::FindingAdapter => CommandView::DefaultAdapter,
            Discovery::PoweringOn => CommandView::PowerOn,
            Discovery::Subscribing => CommandView::Subscribe,
            Discovery::Ready => CommandView::Wait,
            Discovery::Listening => CommandView::NextEvent,
            Discovery::Resolving(address) => CommandView::Resolve(address),
            Discovery::Finished => CommandView::End,
        }
    }

    /// The step of the stream: where it stands after `signal`, and what it
    /// asks for.
    ///
    /// The first demand opens the session; then the adapter is looked up,
    /// powered on and subscribed to, each once the step before is done.
    /// While an item is demanded, a device that was added is resolved and
    /// becomes a snapshot with its address and capture time; every other
    /// change is passed over. A failure of any work, and the end of the
    /// feed, end the stream for good. A signal that answers nothing the
    /// stream is waiting for changes nothing.
    pub open spec fn next(self, signal: SignalView) -> (Discovery, CommandView) {
        match (self, signal) {
            (Discovery::Idle, SignalView::Demand) => (
                Discovery::Opening,
                CommandView::OpenSession,
            ),
            (Discovery::Opening, SignalView::Done) => (
                Discovery::FindingAdapter,
                CommandView::DefaultAdapter,
            ),
            (Discovery::FindingAdapter, SignalView::Done) => (
                Discovery::PoweringOn,
                CommandView::PowerOn,
            ),
            (Discovery::PoweringOn, SignalView::Done) => (
                Discovery::Subscribing,
                CommandView::Subscribe,
            ),
            (Discovery::Subscribing, SignalView::Done) => (
                Discovery::Listening,
                CommandView::NextEvent,
            ),
            (Discovery::Ready, SignalView::Demand) => (
                Discovery::Listening,
                CommandView::NextEvent,
            ),
            (Discovery::Listening, SignalView::Event(AdapterEvent::DeviceAdded(address))) => (
                Discovery::Resolving(address),
                CommandView::Resolve(address),
            ),
            (Discovery::Listening, SignalView::Event(_)) => (
                Discovery::Listening,
                CommandView::NextEvent,
            ),
            (Discovery::Listening, SignalView::Closed) => (Discovery::Finished, CommandView::End),
            (Discovery::Resolving(address), SignalView::Resolved(properties, time)) => (
                Discovery::Ready,
                CommandView::Yield(snapshot(address, properties, time)),
            ),
            (Discovery::Idle, _) => (self, self.pending()),
            (Discovery::Ready, _) => (self, self.pending()),
            (Discovery::Finished, _) => (self, self.pending()),
            (_, SignalView::Failed(error)) => (Discovery::Finished, CommandView::Fail(error)),
            (_, _) => (self, self.pending()),
        }
    }

    /// The stream after a sequence of signals, and what it asked for after
    /// each of them.
    pub open spec fn run(self, signals: Seq<SignalView>) -> (Discovery, Seq<CommandView>)
        decreases signals.len(),
    {
        if signals.len() == 0 {
            (self, Seq::empty())
        } else {
            let (before, commands) = self.run(signals.drop_last());
            let (after, command) = before.next(signals.last());
            (after, commands.push(command))
        }
    }

    fn waiting(&self) -> (command: Command)
        ensures
            command@ == self.pending(),
    {
        match self {
            Discovery::Idle => Command::Wait,
            Discovery::Opening => Command::OpenSession,
            Discovery::FindingAdapter => Command::DefaultAdapter,
            Discovery::PoweringOn => Command::PowerOn,
            Discovery::Subscribing => Command::Subscribe,
            Discovery::Ready => Command::Wait,
            Discovery::Listening => Command::NextEvent,
            Discovery::Resolving(address) => Command::Resolve(*address),
            Discovery::Finished => Command::End,
        }
    }

    /// Takes one step: moves the stream on by `signal` and returns what
    /// it asks for next.
    pub fn step(&mut self, signal: Signal) -> (command: Command)
        ensures
            (*final(self), command@) == old(self).next(signal@),
    {
        let state = *self;
        match (state, signal) {
            (Discovery::Idle, Signal::Demand) => {
                *self = Discovery::Opening;
                Command::OpenSession
            },
            (Discovery::Opening, Signal::Done) => {
                *self = Discovery::FindingAdapter;
                Command::DefaultAdapter
            },
            (Discovery::FindingAdapter, Signal::Done) => {
                *self = Discovery::PoweringOn;
                Command::PowerOn
            },
            (Discovery::PoweringOn, Signal::Done) => {
                *self = Discovery::Subscribing;
                Command::Subscribe
            },
            (Discovery::Subscribing, Signal::Done) => {
                *self = Discovery::Listening;
                Command::NextEvent
            },
            (Discovery::Ready, Signal::Demand) => {
                *self = Discovery::Listening;
                Command::NextEvent
            },
            (Discovery::Listening, Signal::Event(AdapterEvent::DeviceAdded(address))) => {
                *self = Discovery::Resolving(address);
                Command::Resolve(address)
            },
            (Discovery::Listening, Signal::Event(_)) => Command::NextEvent,
            (Discovery::Listening, Signal::Closed) => {
                *self = Discovery::Finished;
                Command::End
            },
            (Discovery::Resolving(address), Signal::Resolved(properties, time)) => {
                let mut device = Device::from(properties);
                device.address = address;
                device.timestamp = time;
                *self = Discovery::Ready;
                Command::Yield(device)
            },
            (Discovery::Idle, _) => Command::Wait,
            (Discovery::Ready, _) => Command::Wait,
            (Discovery::Finished, _) => Command::End,
            (_, Signal::Failed(error)) => {
                *self = Discovery::Finished;
                Command::Fail(error)
            },
            (_, _) => state.waiting(),
        }
    }
}

/// A discovery stream that has not begun: no session is opened, and none
/// will be before the first item is demanded.
pub fn discover() -> (stream: Discovery)
    ensures
        stream == Discovery::Idle,
{
    Discovery::Idle
}

/// Whether the signal at `at` reports that the device with this address was
/// added.
pub open spec fn added_at(signals: Seq<SignalView>, address: Address, at: int) -> bool {
    0 <= at < signals.len() && signals[at] == SignalView::Event(
        AdapterEvent::DeviceAdded(address),
    )
}

/// A snapshot carries the address of the device that was added and the
/// time of its capture, whatever its properties say; in every other field
/// it is what the properties fold into.
pub proof fn lemma_snapshot_carries_address(
    address: Address,
    properties: Seq<PropertyView>,
    time: CaptureTime,
)
    ensures
        snapshot(address, properties, time).address == address,
        snapshot(address, properties, time).timestamp == time,
        snapshot(address, properties, time) == (DeviceView {
            address,
            timestamp: time,
            ..DeviceView::fold(properties)
        }),
{
}

/// The stream hands over a snapshot only when the device it was resolving
/// is resolved, and the snapshot carries the address of that device.
pub proof fn lemma_yield_carries_resolved_address(state: Discovery, signal: SignalView)
    ensures
        state.next(signal).1 matches CommandView::Yield(device) ==> state == Discovery::Resolving(
            device.address,
        ) && signal is Resolved && state.next(signal).0 == Discovery::Ready,
{
}

/// The stream resolves a device only when it is listening and that device
/// is reported as added, or to ask again for the device it is resolving.
pub proof fn lemma_only_added_devices_are_resolved(state: Discovery, signal: SignalView)
    ensures
        state.next(signal).1 matches CommandView::Resolve(address) ==> (state
            == Discovery::Listening && signal == SignalView::Event(
            AdapterEvent::DeviceAdded(address),
        )) || state == Discovery::Resolving(address),
        state.next(signal).0 matches Discovery::Resolving(address) ==> (state
            == Discovery::Listening && signal == SignalView::Event(
            AdapterEvent::DeviceAdded(address),
        )) || state == Discovery::Resolving(address),
{
}

/// Before the first demand the stream asks for nothing: whatever comes in,
/// it stays idle and no session is opened.
pub proof fn lemma_idle_until_demanded(signal: SignalView)
    ensures
        signal != SignalView::Demand ==> Discovery::Idle.next(signal) == (
            Discovery::Idle,
            CommandView::Wait,
        ),
        Discovery::Idle.next(SignalView::Demand) == (
            Discovery::Opening,
            CommandView::OpenSession,
        ),
{
}

/// A failure of the work that the stream waits for ends the stream, and the
/// failure is the last item. A stream that has ended stays ended: whatever
/// comes in, it only tells of its end.
pub proof fn lemma_failure_is_terminal(state: Discovery, error: DiscoveryErrorView, signal: SignalView)
    ensures
        state != Discovery::Idle && state != Discovery::Ready && state != Discovery::Finished
            ==> state.next(SignalView::Failed(error)) == (
            Discovery::Finished,
            CommandView::Fail(error),
        ),
        Discovery::Finished.next(signal) == (Discovery::Finished, CommandView::End),
{
}

/// While the feed is open and nothing fails, the stream does not end.
pub proof fn lemma_ends_only_by_failure_or_closed_feed(state: Discovery, signal: SignalView)
    ensures
        state != Discovery::Finished && state.next(signal).0 == Discovery::Finished ==> signal
            is Failed || signal is Closed,
{
}

/// A run asks for something after each signal.
pub proof fn lemma_run_len(state: Discovery, signals: Seq<SignalView>)
    ensures
        state.run(signals).1.len() == signals.len(),
    decreases signals.len(),
{
    if signals.len() > 0 {
        lemma_run_len(state, signals.drop_last());
    }
}

/// What a run asked for after its first `n` signals does not depend on the
/// signals that follow.
pub proof fn lemma_run_prefix(state: Discovery, signals: Seq<SignalView>, n: int)
    requires
        0 <= n <= signals.len(),
    ensures
        state.run(signals.take(n)).1 == state.run(signals).1.take(n),
    decreases signals.len(),
{
    lemma_run_len(state, signals);
    if n == signals.len() {
        assert(signals.take(n) =~= signals);
        assert(state.run(signals).1.take(n) =~= state.run(signals).1);
    } else {
        lemma_run_prefix(state, signals.drop_last(), n);
        lemma_run_len(state, signals.drop_last());
        assert(signals.drop_last().take(n) =~= signals.take(n));
        assert(state.run(signals).1.take(n) =~= state.run(signals.drop_last()).1.take(n));
    }
}

/// Address attachment: in every run of a stream from its beginning, a
/// snapshot that the stream hands over carries the address of a device
/// that was reported as added before.
pub proof fn lemma_yielded_address_was_added(signals: Seq<SignalView>, at: int)
    requires
        0 <= at < signals.len(),
        Discovery::Idle.run(signals).1[at] is Yield,
    ensures
        exists|before: int|
            before < at && added_at(signals, Discovery::Idle.run(signals).1[at]->Yield_0.address, before),
{
    let prefix = signals.take(at + 1);
    lemma_run_prefix(Discovery::Idle, signals, at + 1);
    lemma_run_len(Discovery::Idle, signals);
    lemma_run_len(Discovery::Idle, prefix);
    assert(prefix.drop_last() =~= signals.take(at));
    let earlier = signals.take(at);
    let state = Discovery::Idle.run(earlier).0;
    let command = Discovery::Idle.run(signals).1[at];
    assert(command == state.next(prefix.last()).1) by {
        lemma_run_len(Discovery::Idle, earlier);
        assert(Discovery::Idle.run(prefix).1 == Discovery::Idle.run(earlier).1.push(
            state.next(prefix.last()).1,
        ));
        assert(Discovery::Idle.run(signals).1.take(at + 1)[at] == command);
    }
    let address = command->Yield_0.address;
    lemma_yield_carries_resolved_address(state, prefix.last());
    lemma_resolving_was_added(earlier);
    let before = choose|before: int| added_at(earlier, address, before);
    assert(added_at(signals, address, before));
}

/// A stream that is resolving a device was told before that this device
/// was added.
pub proof fn lemma_resolving_was_added(signals: Seq<SignalView>)
    ensures
        Discovery::Idle.run(signals).0 matches Discovery::Resolving(address) ==> exists|
            before: int,
        | added_at(signals, address, before),
    decreases signals.len(),
{
    if signals.len() > 0 {
        let earlier = signals.drop_last();
        let state = Discovery::Idle.run(earlier).0;
        lemma_resolving_was_added(earlier);
        lemma_only_added_devices_are_resolved(state, signals.last());
        let after = Discovery::Idle.run(signals).0;
        if after is Resolving {
            let address = after->Resolving_0;
            if state == Discovery::Resolving(address) {
                let before = choose|before: int| added_at(earlier, address, before);
                assert(added_at(signals, address, before));
            } else {
                assert(added_at(signals, address, signals.len() - 1));
            }
        }
    }
}

} // verus!
