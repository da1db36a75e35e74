//! The decisions of the GATT worker. The worker's loop performs the platform
//! operations; this state machine takes each command or operation outcome
//! and says which operations to perform next and which events to report, so
//! that at most one peripheral is ever connected. A rejected write counts as
//! a lost link.

use vstd::prelude::*;
use crate::gatt::{
    clamp_intensity, send_speed_outcome, vibrate_text, BleCommand, BleMessage, BluetoothGattDevice,
    CommandView, GattError, GattServiceView,
};

verus! {

/// The service that marks a device of the supported kind.
pub const SERVICE_UUID: &'static str = "455a0001-0023-4bd4-bbd5-a6920e4c5653";

/// The characteristic under that service that takes command text.
pub const TX_UUID: &'static str = "455a0002-0023-4bd4-bbd5-a6920e4c5653";

/// An event as plain values.
pub enum MessageView {
    AdapterInitialized,
    AdapterError(Seq<char>),
    DeviceDiscovered(Seq<char>, Option<Seq<char>>),
    DeviceConnecting(Seq<char>),
    DeviceConnected(Seq<char>),
    DeviceDisconnected(Seq<char>),
}

pub open spec fn name_view(name: Option<String>) -> Option<Seq<char>> {
    match name {
        Some(n) => Some(n@),
        None => None,
    }
}

impl View for BleMessage {
    type V = MessageView;

    open spec fn view(&self) -> MessageView {
        match self {
            BleMessage::AdapterInitialized => MessageView::AdapterInitialized,
            BleMessage::AdapterError(m) => MessageView::AdapterError(m@),
            BleMessage::DeviceDiscovered(d) => MessageView::DeviceDiscovered(
                d.device_address@,
                name_view(d.device_name),
            ),
            BleMessage::DeviceConnecting(a) => MessageView::DeviceConnecting(a@),
            BleMessage::DeviceConnected(a) => MessageView::DeviceConnected(a@),
            BleMessage::DeviceDisconnected(a) => MessageView::DeviceDisconnected(a@),
        }
    }
}

/// What the worker hands to the state machine: a command from the owner, or
/// the outcome of an operation it performed, or a link that the platform
/// reports lost.
pub enum GattWorkerInput {
    Command(BleCommand),
    /// A peripheral with this address is known to the adapter.
    Located(String),
    /// No peripheral with this address is known to the adapter.
    NotLocated(String),
    /// The connection to this address and its service discovery succeeded.
    Connected(String),
    /// The connection to this address failed.
    ConnectFailed(String),
    /// The peripheral at this address dropped its link.
    LinkLost(String),
    /// A write to this address was rejected.
    WriteFailed(String),
}

pub enum InputView {
    Command(CommandView),
    Located(Seq<char>),
    NotLocated(Seq<char>),
    Connected(Seq<char>),
    ConnectFailed(Seq<char>),
    LinkLost(Seq<char>),
    WriteFailed(Seq<char>),
}

impl View for GattWorkerInput {
    type V = InputView;

    open spec fn view(&self) -> InputView {
        match self {
            GattWorkerInput::Command(c) => InputView::Command(c@),
            GattWorkerInput::Located(a) => InputView::Located(a@),
            GattWorkerInput::NotLocated(a) => InputView::NotLocated(a@),
            GattWorkerInput::Connected(a) => InputView::Connected(a@),
            GattWorkerInput::ConnectFailed(a) => InputView::ConnectFailed(a@),
            GattWorkerInput::LinkLost(a) => InputView::LinkLost(a@),
            GattWorkerInput::WriteFailed(a) => InputView::WriteFailed(a@),
        }
    }
}

/// What the worker is to do next, in order.
pub enum GattWorkerAction {
    /// Report an event to the owner.
    Notify(BleMessage),
    /// Look among the adapter's peripherals for this address.
    Locate(String),
    /// Connect to this address and discover its services.
    Open(String),
    /// Disconnect from this address.
    Close(String),
    /// Write these bytes, without response, to the command characteristic.
    Write(String, Vec<u8>),
}

pub enum ActionView {
    Notify(MessageView),
    Locate(Seq<char>),
    Open(Seq<char>),
    Close(Seq<char>),
    Write(Seq<char>, Seq<u8>),
}

impl View for GattWorkerAction {
    type V = ActionView;

    open spec fn view(&self) -> ActionView {
        match self {
            GattWorkerAction::Notify(m) => ActionView::Notify(m@),
            GattWorkerAction::Locate(a) => ActionView::Locate(a@),
            GattWorkerAction::Open(a) => ActionView::Open(a@),
            GattWorkerAction::Close(a) => ActionView::Close(a@),
            GattWorkerAction::Write(a, d) => ActionView::Write(a@, d@),
        }
    }
}

pub open spec fn actions_view(actions: Seq<GattWorkerAction>) -> Seq<ActionView> {
    actions.map_values(|a: GattWorkerAction| a@)
}

/// The worker's state: the connected peripheral, and the address that a
/// connection attempt is under way for.
pub struct GattWorker {
    connected: Option<String>,
    pending: Option<String>,
}

pub struct GattWorkerView {
    pub connected: Option<Seq<char>>,
    pub pending: Option<Seq<char>>,
}

impl View for GattWorker {
    type V = GattWorkerView;

    closed spec fn view(&self) -> GattWorkerView {
        GattWorkerView { connected: name_view(self.connected), pending: name_view(self.pending) }
    }
}

/// A connection attempt under way while a peripheral is connected is an
/// attempt on that same peripheral: a different one was torn down first.
pub open spec fn worker_wf(s: GattWorkerView) -> bool {
    s.pending is Some && s.connected is Some ==> s.pending == s.connected
}

/// What the state machine does on one input: the next state and the
/// operations and events, in order.
pub open spec fn worker_step(s: GattWorkerView, input: InputView) -> (GattWorkerView, Seq<ActionView>) {
    match input {
        InputView::Command(CommandView::Connect(a)) => match s.connected {
            Some(c) => if c != a {
                (
                    GattWorkerView { connected: None, pending: Some(a) },
                    seq![
                        ActionView::Close(c),
                        ActionView::Notify(MessageView::DeviceDisconnected(c)),
                        ActionView::Locate(a),
                    ],
                )
            } else {
                (GattWorkerView { connected: Some(c), pending: Some(a) }, seq![ActionView::Locate(a)])
            },
            None => (GattWorkerView { connected: None, pending: Some(a) }, seq![ActionView::Locate(a)]),
        },
        InputView::Command(CommandView::Disconnect) => match s.connected {
            Some(c) => (
                GattWorkerView { connected: None, pending: None },
                seq![ActionView::Close(c), ActionView::Notify(MessageView::DeviceDisconnected(c))],
            ),
            None => (GattWorkerView { connected: None, pending: None }, Seq::empty()),
        },
        InputView::Command(CommandView::SendData(d)) => match s.connected {
            Some(c) => (s, seq![ActionView::Write(c, d)]),
            None => (s, Seq::empty()),
        },
        InputView::Located(a) => if s.pending == Some(a) {
            (s, seq![ActionView::Notify(MessageView::DeviceConnecting(a)), ActionView::Open(a)])
        } else {
            (s, Seq::empty())
        },
        InputView::NotLocated(a) => if s.pending == Some(a) {
            (GattWorkerView { pending: None, ..s }, Seq::empty())
        } else {
            (s, Seq::empty())
        },
        InputView::ConnectFailed(a) => if s.pending == Some(a) {
            (GattWorkerView { pending: None, ..s }, Seq::empty())
        } else {
            (s, Seq::empty())
        },
        InputView::Connected(a) => if s.pending == Some(a) {
            (
                GattWorkerView { connected: Some(a), pending: None },
                seq![ActionView::Notify(MessageView::DeviceConnected(a))],
            )
        } else if s.connected == Some(a) {
            (s, Seq::empty())
        } else {
            (s, seq![ActionView::Close(a)])
        },
        InputView::LinkLost(a) => if s.connected == Some(a) {
            (
                GattWorkerView { connected: None, ..s },
                seq![ActionView::Notify(MessageView::DeviceDisconnected(a))],
            )
        } else {
            (s, Seq::empty())
        },
        InputView::WriteFailed(a) => if s.connected == Some(a) {
            (
                GattWorkerView { connected: None, ..s },
                seq![ActionView::Close(a), ActionView::Notify(MessageView::DeviceDisconnected(a))],
            )
        } else {
            (s, Seq::empty())
        },
    }
}

/// Whether a peripheral's advertised services include the supported one.
pub fn advertises_service(services: &Vec<String>) -> (r: bool)
    ensures
        r == exists|i: int| 0 <= i < services@.len() && #[trigger] services@[i]@ == SERVICE_UUID@,
{
    let target = SERVICE_UUID.to_owned();
    let mut i: usize = 0;
    while i < services.len()
        invariant
            i <= services@.len(),
            target@ == SERVICE_UUID@,
            forall|k: int| 0 <= k < i ==> #[trigger] services@[k]@ != SERVICE_UUID@,
        decreases services@.len() - i,
    {
        if services[i].eq(&target) {
            return true;
        }
        i = i + 1;
    }
    false
}

/// The discovery event for a peripheral, or `None` when it does not
/// advertise the supported service.
pub fn discovered_message(address: String, name: Option<String>, services: &Vec<String>) -> (r: Option<
    BleMessage,
>)
    ensures
        r is Some <==> exists|i: int| 0 <= i < services@.len() && #[trigger] services@[i]@ == SERVICE_UUID@,
        r is Some ==> r->0@ == MessageView::DeviceDiscovered(address@, name_view(name)),
{
    if advertises_service(services) {
        Some(BleMessage::DeviceDiscovered(BluetoothGattDevice { device_address: address, device_name: name }))
    } else {
        None
    }
}

/// Whether a characteristic is the one that takes command text: the TX
/// characteristic under the supported service.
pub fn is_command_characteristic(service: &String, characteristic: &String) -> (r: bool)
    ensures
        r == (service@ == SERVICE_UUID@ && characteristic@ == TX_UUID@),
{
    let service_uuid = SERVICE_UUID.to_owned();
    let tx_uuid = TX_UUID.to_owned();
    service.eq(&service_uuid) && characteristic.eq(&tx_uuid)
}

/// The events among a sequence of actions, in order.
pub open spec fn events_of(actions: Seq<ActionView>) -> Seq<MessageView>
    decreases actions.len(),
{
    if actions.len() == 0 {
        Seq::empty()
    } else {
        match actions[0] {
            ActionView::Notify(m) => seq![m] + events_of(actions.drop_first()),
            _ => events_of(actions.drop_first()),
        }
    }
}

/// The writes among a sequence of actions, in order.
pub open spec fn writes_of(actions: Seq<ActionView>) -> Seq<(Seq<char>, Seq<u8>)>
    decreases actions.len(),
{
    if actions.len() == 0 {
        Seq::empty()
    } else {
        match actions[0] {
            ActionView::Write(a, d) => seq![(a, d)] + writes_of(actions.drop_first()),
            _ => writes_of(actions.drop_first()),
        }
    }
}

/// Disconnecting with no connected peripheral reports no event and asks for
/// no operation.
pub proof fn lemma_disconnect_when_idle(s: GattWorkerView)
    requires
        s.connected is None,
    ensures
        worker_step(s, InputView::Command(CommandView::Disconnect)).1 == Seq::<ActionView>::empty(),
        worker_step(s, InputView::Command(CommandView::Disconnect)).0 == (GattWorkerView {
            connected: None,
            pending: None,
        }),
{
}

proof fn lemma_events_single(x: ActionView)
    ensures
        events_of(seq![x]) == match x {
            ActionView::Notify(m) => seq![m],
            _ => Seq::<MessageView>::empty(),
        },
        writes_of(seq![x]) == match x {
            ActionView::Write(a, d) => seq![(a, d)],
            _ => Seq::<(Seq<char>, Seq<u8>)>::empty(),
        },
{
    assert(seq![x].drop_first() =~= Seq::<ActionView>::empty());
    assert(events_of(Seq::<ActionView>::empty()) == Seq::<MessageView>::empty());
    assert(writes_of(Seq::<ActionView>::empty()) == Seq::<(Seq<char>, Seq<u8>)>::empty());
    match x {
        ActionView::Notify(m) => {
            assert(seq![m] + Seq::<MessageView>::empty() =~= seq![m]);
        },
        ActionView::Write(a, d) => {
            assert(seq![(a, d)] + Seq::<(Seq<char>, Seq<u8>)>::empty() =~= seq![(a, d)]);
        },
        _ => {},
    }
}

/// Connecting to `b` while `a` is connected tears `a` down first: the events
/// of the command and of locating `b` are exactly one disconnection of `a`,
/// then the connection attempt on `b`. The link to `a` is closed before `b`
/// is looked up.
pub proof fn lemma_connect_replaces_connection(s: GattWorkerView, a: Seq<char>, b: Seq<char>)
    requires
        worker_wf(s),
        s.connected == Some(a),
        a != b,
    ensures
        ({
            let (s1, acts1) = worker_step(s, InputView::Command(CommandView::Connect(b)));
            let (s2, acts2) = worker_step(s1, InputView::Located(b));
            &&& acts1 == seq![
                ActionView::Close(a),
                ActionView::Notify(MessageView::DeviceDisconnected(a)),
                ActionView::Locate(b),
            ]
            &&& events_of(acts1) + events_of(acts2) == seq![
                MessageView::DeviceDisconnected(a),
                MessageView::DeviceConnecting(b),
            ]
            &&& s2.connected is None
        }),
{
    let (s1, acts1) = worker_step(s, InputView::Command(CommandView::Connect(b)));
    let (s2, acts2) = worker_step(s1, InputView::Located(b));
    let disconnected = ActionView::Notify(MessageView::DeviceDisconnected(a));
    lemma_events_single(ActionView::Locate(b));
    assert(acts1.drop_first().drop_first() =~= seq![ActionView::Locate(b)]);
    assert(acts1.drop_first() =~= seq![disconnected, ActionView::Locate(b)]);
    assert(events_of(acts1.drop_first()) =~= seq![MessageView::DeviceDisconnected(a)]);
    assert(events_of(acts1) =~= seq![MessageView::DeviceDisconnected(a)]);
    lemma_events_single(ActionView::Open(b));
    assert(acts2.drop_first() =~= seq![ActionView::Open(b)]);
    assert(events_of(acts2) =~= seq![MessageView::DeviceConnecting(b)]);
    assert(events_of(acts1) + events_of(acts2) =~= seq![
        MessageView::DeviceDisconnected(a),
        MessageView::DeviceConnecting(b),
    ]);
}

/// From no connection, a connect command whose peripheral is found and
/// whose connection succeeds reports exactly "connecting", then "connected";
/// a command text sent then is written exactly once, to that peripheral.
pub proof fn lemma_connect_then_write(s: GattWorkerView, a: Seq<char>, text: Seq<u8>)
    requires
        s.connected is None,
    ensures
        ({
            let (s1, acts1) = worker_step(s, InputView::Command(CommandView::Connect(a)));
            let (s2, acts2) = worker_step(s1, InputView::Located(a));
            let (s3, acts3) = worker_step(s2, InputView::Connected(a));
            let (s4, acts4) = worker_step(s3, InputView::Command(CommandView::SendData(text)));
            &&& events_of(acts1) + events_of(acts2) + events_of(acts3) == seq![
                MessageView::DeviceConnecting(a),
                MessageView::DeviceConnected(a),
            ]
            &&& s3.connected == Some(a)
            &&& writes_of(acts4) == seq![(a, text)]
            &&& acts4 == seq![ActionView::Write(a, text)]
        }),
{
    let (s1, acts1) = worker_step(s, InputView::Command(CommandView::Connect(a)));
    let (s2, acts2) = worker_step(s1, InputView::Located(a));
    let (s3, acts3) = worker_step(s2, InputView::Connected(a));
    let (s4, acts4) = worker_step(s3, InputView::Command(CommandView::SendData(text)));
    lemma_events_single(ActionView::Locate(a));
    lemma_events_single(ActionView::Open(a));
    lemma_events_single(ActionView::Notify(MessageView::DeviceConnected(a)));
    lemma_events_single(ActionView::Write(a, text));
    assert(acts2.drop_first() =~= seq![ActionView::Open(a)]);
    assert(events_of(acts2) =~= seq![MessageView::DeviceConnecting(a)]);
    assert(events_of(acts1) + events_of(acts2) + events_of(acts3) =~= seq![
        MessageView::DeviceConnecting(a),
        MessageView::DeviceConnected(a),
    ]);
}

/// An accepted intensity request that differs from the last one queues the
/// clamped command text; once the worker takes that command while connected
/// to `a`, it writes the text to `a` exactly once and reports nothing.
pub proof fn lemma_intensity_reaches_peripheral(
    before: GattServiceView,
    after: GattServiceView,
    speed: u8,
    r: Result<(), GattError>,
    w: GattWorkerView,
    a: Seq<char>,
)
    requires
        send_speed_outcome(before, speed, r, after),
        speed != before.last_speed,
        r is Ok,
        w.connected == Some(a),
    ensures
        after.sent == before.sent.push(CommandView::SendData(vibrate_text(clamp_intensity(speed)))),
        worker_step(w, InputView::Command(after.sent.last())).1 == seq![
            ActionView::Write(a, vibrate_text(clamp_intensity(speed))),
        ],
        writes_of(worker_step(w, InputView::Command(after.sent.last())).1) == seq![
            (a, vibrate_text(clamp_intensity(speed))),
        ],
        events_of(worker_step(w, InputView::Command(after.sent.last())).1) == Seq::<MessageView>::empty(),
{
    lemma_events_single(ActionView::Write(a, vibrate_text(clamp_intensity(speed))));
}

fn same_address(a: &Option<String>, b: &String) -> (r: bool)
    ensures
        r == (name_view(*a) == Some(b@)),
{
    match a {
        Some(x) => x.eq(b),
        None => false,
    }
}

impl GattWorker {
    /// A worker with no peripheral and no attempt under way.
    pub fn new() -> (r: Self)
        ensures
            r@ == (GattWorkerView { connected: None, pending: None }),
            worker_wf(r@),
    {
        GattWorker { connected: None, pending: None }
    }

    /// The address of the connected peripheral, if any.
    pub fn connected_address(&self) -> (r: Option<String>)
        ensures
            name_view(r) == self@.connected,
    {
        match &self.connected {
            Some(c) => Some(c.clone()),
            None => None,
        }
    }

    /// Takes one input and returns the operations and events that follow, in order.
    pub fn step(&mut self, input: GattWorkerInput) -> (actions: Vec<GattWorkerAction>)
        requires
            worker_wf(old(self)@),
        ensures
            (final(self)@, actions_view(actions@)) == worker_step(old(self)@, input@),
            actions@.len() == worker_step(old(self)@, input@).1.len(),
            forall|i: int|
                0 <= i < actions@.len() ==> #[trigger] actions@[i]@ == worker_step(old(self)@, input@).1[i],
            worker_wf(final(self)@),
    {
        let ghost s = self@;
        let ghost iv = input@;
        let mut actions: Vec<GattWorkerAction> = Vec::new();
        match input {
            GattWorkerInput::Command(BleCommand::Connect(a)) => {
                let mut keep = true;
                if let Some(c) = &self.connected {
                    if !c.eq(&a) {
                        actions.push(GattWorkerAction::Close(c.clone()));
                        actions.push(GattWorkerAction::Notify(BleMessage::DeviceDisconnected(c.clone())));
                        keep = false;
                    }
                }
                if !keep {
                    self.connected = None;
                }
                actions.push(GattWorkerAction::Locate(a.clone()));
                self.pending = Some(a);
            },
            GattWorkerInput::Command(BleCommand::Disconnect) => {
                if let Some(c) = &self.connected {
                    actions.push(GattWorkerAction::Close(c.clone()));
                    actions.push(GattWorkerAction::Notify(BleMessage::DeviceDisconnected(c.clone())));
                }
                self.connected = None;
                self.pending = None;
            },
            GattWorkerInput::Command(BleCommand::SendData(d)) => {
                if let Some(c) = &self.connected {
                    actions.push(GattWorkerAction::Write(c.clone(), d));
                }
            },
            GattWorkerInput::Located(a) => {
                if same_address(&self.pending, &a) {
                    actions.push(GattWorkerAction::Notify(BleMessage::DeviceConnecting(a.clone())));
                    actions.push(GattWorkerAction::Open(a));
                }
            },
            GattWorkerInput::NotLocated(a) => {
                if same_address(&self.pending, &a) {
                    self.pending = None;
                }
            },
            GattWorkerInput::ConnectFailed(a) => {
                if same_address(&self.pending, &a) {
                    self.pending = None;
                }
            },
            GattWorkerInput::Connected(a) => {
                if same_address(&self.pending, &a) {
                    actions.push(GattWorkerAction::Notify(BleMessage::DeviceConnected(a.clone())));
                    self.connected = Some(a);
                    self.pending = None;
                } else if !same_address(&self.connected, &a) {
                    actions.push(GattWorkerAction::Close(a));
                }
            },
            GattWorkerInput::LinkLost(a) => {
                if same_address(&self.connected, &a) {
                    actions.push(GattWorkerAction::Notify(BleMessage::DeviceDisconnected(a)));
                    self.connected = None;
                }
            },
            GattWorkerInput::WriteFailed(a) => {
                if same_address(&self.connected, &a) {
                    actions.push(GattWorkerAction::Close(a.clone()));
                    actions.push(GattWorkerAction::Notify(BleMessage::DeviceDisconnected(a)));
                    self.connected = None;
                }
            },
        }
        assert(actions_view(actions@) =~= worker_step(s, iv).1);
        actions
    }
}

} // verus!
