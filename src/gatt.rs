//! The GATT transport, seen from its owner: the command and event types
//! shared with the worker, and the service that queues commands for it,
//! debounces intensity updates and polls for events.

use vstd::prelude::*;
use std::sync::atomic::{AtomicBool, Ordering};
use std::sync::mpsc::{Receiver, Sender};
use std::sync::Arc;
use crate::channel::{channel_pair, channel_send, channel_try_recv, share_flag};

verus! {

/// A peripheral found by discovery. Its address is its identity.
#[derive(Debug, Clone)]
pub struct BluetoothGattDevice {
    pub device_address: String,
    pub device_name: Option<String>,
}

/// An event from the worker to its owner.
#[derive(Debug, Clone)]
pub enum BleMessage {
    AdapterInitialized,
    AdapterError(String),
    DeviceDiscovered(BluetoothGattDevice),
    DeviceConnecting(String),
    DeviceConnected(String),
    DeviceDisconnected(String),
}

/// A command from the owner to the worker.
#[derive(Debug)]
pub enum BleCommand {
    Connect(String),
    Disconnect,
    SendData(Vec<u8>),
}

/// What a command carries, as plain values.
pub enum CommandView {
    Connect(Seq<char>),
    Disconnect,
    SendData(Seq<u8>),
}

impl View for BleCommand {
    type V = CommandView;

    open spec fn view(&self) -> CommandView {
        match self {
            BleCommand::Connect(address) => CommandView::Connect(address@),
            BleCommand::Disconnect => CommandView::Disconnect,
            BleCommand::SendData(data) => CommandView::SendData(data@),
        }
    }
}

/// Why a command could not be queued.
#[derive(Debug, Clone, Copy, PartialEq, Eq)]
pub enum GattError {
    /// The worker's end of the queue is gone.
    ChannelClosed,
}

/// The highest intensity that the GATT command text carries.
pub const MAX_GATT_INTENSITY: u8 = 20;

/// The decimal digits of `n`, most significant first, as ASCII bytes.
pub open spec fn decimal_digits(n: nat) -> Seq<u8>
    decreases n,
{
    if n < 10 {
        seq![(48 + n) as u8]
    } else {
        decimal_digits(n / 10).push((48 + n % 10) as u8)
    }
}

/// The ASCII text "Vibrate:".
pub open spec fn vibrate_prefix() -> Seq<u8> {
    seq![86u8, 105u8, 98u8, 114u8, 97u8, 116u8, 101u8, 58u8]
}

/// The command text "Vibrate:<level>;" for an intensity level.
pub open spec fn vibrate_text(level: u8) -> Seq<u8> {
    vibrate_prefix() + decimal_digits(level as nat) + seq![59u8]
}

/// A level brought into the range that the GATT command text allows.
pub open spec fn clamp_intensity(level: u8) -> u8 {
    if level > MAX_GATT_INTENSITY {
        MAX_GATT_INTENSITY
    } else {
        level
    }
}

/// Builds the command text "Vibrate:<level>;".
pub fn vibrate_command(level: u8) -> (r: Vec<u8>)
    ensures
        r@ == vibrate_text(level),
{
    let mut r: Vec<u8> = Vec::new();
    r.push(86);
    r.push(105);
    r.push(98);
    r.push(114);
    r.push(97);
    r.push(116);
    r.push(101);
    r.push(58);
    assert(r@ =~= vibrate_prefix());
    let ghost n = level as nat;
    if level >= 100 {
        r.push(48 + level / 100);
    }
    if level >= 10 {
        r.push(48 + (level / 10) % 10);
    }
    r.push(48 + level % 10);
    proof {
        if n >= 100 {
            assert(decimal_digits(n / 100) == seq![(48 + n / 100) as u8]);
            assert(n / 10 / 10 == n / 100);
            assert(decimal_digits(n / 10) == decimal_digits(n / 100).push((48 + (n / 10) % 10) as u8));
        } else if n >= 10 {
            assert(decimal_digits(n / 10) == seq![(48 + n / 10) as u8]);
            assert((n / 10) % 10 == n / 10);
        }
    }
    assert(r@ =~= vibrate_prefix() + decimal_digits(n));
    r.push(59);
    assert(r@ =~= vibrate_text(level));
    r
}

/// How a service moves when it offers `command` to its worker's queue: the
/// command is recorded exactly when the queue accepted it; the last
/// intensity and the held worker ends stay as they were.
pub open spec fn queue_outcome(
    before: GattServiceView,
    command: CommandView,
    r: Result<(), GattError>,
    after: GattServiceView,
) -> bool {
    &&& after.last_speed == before.last_speed
    &&& after.awaiting_worker == before.awaiting_worker
    &&& r is Ok ==> after.sent == before.sent.push(command)
    &&& r is Err ==> after.sent == before.sent
}

/// How a service moves on an intensity request: a level equal to the last
/// one changes nothing and succeeds; another has its clamped command text
/// offered to the queue, and becomes the last level only if the queue
/// accepted it.
pub open spec fn send_speed_outcome(
    before: GattServiceView,
    speed: u8,
    r: Result<(), GattError>,
    after: GattServiceView,
) -> bool {
    if speed == before.last_speed {
        r is Ok && after == before
    } else {
        &&& after.awaiting_worker == before.awaiting_worker
        &&& r is Ok ==> after.sent == before.sent.push(
            CommandView::SendData(vibrate_text(clamp_intensity(speed))),
        ) && after.last_speed == speed
        &&& r is Err ==> after.sent == before.sent && after.last_speed == before.last_speed
    }
}

/// The ends of the two queues that the worker keeps, with the flag that
/// says a worker holds them.
pub struct GattWorkerChannels {
    pub gui_tx: Sender<BleMessage>,
    pub gui_rx: Receiver<BleCommand>,
    pub running: Arc<AtomicBool>,
}

/// The owner's side of the GATT transport.
pub struct BluetoothGattService {
    ble_rx: Receiver<BleMessage>,
    ble_tx: Sender<BleCommand>,
    worker: Option<GattWorkerChannels>,
    last_speed: u8,
    thread_running: Arc<AtomicBool>,
    sent: Ghost<Seq<CommandView>>,
}

/// The service as plain values: the last intensity that its queue accepted,
/// the commands that its current command queue accepted, oldest first, and
/// whether it still holds the worker's ends of those queues.
pub struct GattServiceView {
    pub last_speed: u8,
    pub sent: Seq<CommandView>,
    pub awaiting_worker: bool,
}

impl View for BluetoothGattService {
    type V = GattServiceView;

    closed spec fn view(&self) -> GattServiceView {
        GattServiceView { last_speed: self.last_speed, sent: self.sent@, awaiting_worker: self.worker is Some }
    }
}

/// Opens the two queues: the owner's ends and the worker's ends.
fn open_queues(running: Arc<AtomicBool>) -> (Receiver<BleMessage>, Sender<BleCommand>, GattWorkerChannels) {
    let (gui_tx, ble_rx) = channel_pair::<BleMessage>();
    let (ble_tx, gui_rx) = channel_pair::<BleCommand>();
    (ble_rx, ble_tx, GattWorkerChannels { gui_tx, gui_rx, running })
}

impl BluetoothGattService {
    /// A service with both queues open. Commands queue at once; the
    /// worker's ends wait in the service until `start_ble` hands them out.
    pub fn new() -> (r: Self)
        ensures
            r@ == (GattServiceView { last_speed: 0, sent: Seq::empty(), awaiting_worker: true }),
    {
        let thread_running = Arc::new(AtomicBool::new(false));
        let (ble_rx, ble_tx, worker) = open_queues(share_flag(&thread_running));
        Self { ble_rx, ble_tx, worker: Some(worker), last_speed: 0, thread_running, sent: Ghost(Seq::empty()) }
    }

    /// Hands out the worker's ends of the queues and marks the worker as
    /// running. When the ends were handed out before and that worker has
    /// stopped, fresh queues are opened. When a worker runs, or the ends are
    /// claimed by another call, it returns `None`: a second worker is never
    /// started.
    pub fn start_ble(&mut self) -> (r: Option<GattWorkerChannels>)
        ensures
            r is None ==> final(self)@ == old(self)@,
            r is Some ==> {
                &&& final(self)@.last_speed == old(self)@.last_speed
                &&& !final(self)@.awaiting_worker
                &&& old(self)@.awaiting_worker ==> final(self)@.sent == old(self)@.sent
                &&& !old(self)@.awaiting_worker ==> final(self)@.sent == Seq::<CommandView>::empty()
            },
    {
        let claimed = self.thread_running.compare_exchange(false, true, Ordering::SeqCst, Ordering::SeqCst);
        if claimed.is_err() {
            return None;
        }
        match self.worker.take() {
            Some(worker) => Some(worker),
            None => {
                let (ble_rx, ble_tx, worker) = open_queues(share_flag(&self.thread_running));
                self.ble_rx = ble_rx;
                self.ble_tx = ble_tx;
                self.sent = Ghost(Seq::empty());
                Some(worker)
            },
        }
    }

    /// The next event from the worker, if one is waiting; never blocks.
    pub fn fetch_ble_message(&mut self) -> (r: Option<BleMessage>)
        ensures
            final(self)@ == old(self)@,
    {
        channel_try_recv(&self.ble_rx)
    }

    /// Queues a command for the worker and records it when it was accepted.
    fn queue(&mut self, command: BleCommand) -> (r: Result<(), GattError>)
        ensures
            queue_outcome(old(self)@, command@, r, final(self)@),
    {
        let ghost view = command@;
        if channel_send(&self.ble_tx, command) {
            self.sent = Ghost(self.sent@.push(view));
            Ok(())
        } else {
            Err(GattError::ChannelClosed)
        }
    }

    /// Asks the worker to connect to a device.
    pub fn connect(&mut self, device: &BluetoothGattDevice) -> (r: Result<(), GattError>)
        ensures
            queue_outcome(old(self)@, CommandView::Connect(device.device_address@), r, final(self)@),
    {
        self.queue(BleCommand::Connect(device.device_address.clone()))
    }

    /// Asks the worker to drop the connected device.
    pub fn disconnect(&mut self) -> (r: Result<(), GattError>)
        ensures
            queue_outcome(old(self)@, CommandView::Disconnect, r, final(self)@),
    {
        self.queue(BleCommand::Disconnect)
    }

    /// Asks the worker to write bytes to the connected device.
    pub fn send_data(&mut self, data: &[u8]) -> (r: Result<(), GattError>)
        ensures
            queue_outcome(old(self)@, CommandView::SendData(data@), r, final(self)@),
    {
        let bytes = vstd::slice::slice_to_vec(data);
        self.queue(BleCommand::SendData(bytes))
    }

    /// Asks the worker to set an intensity. A level equal to the last one
    /// queues nothing; another is clamped to 20 and sent as the text
    /// "Vibrate:<level>;", and is remembered once the queue accepted it.
    pub fn send_speed(&mut self, speed: u8) -> (r: Result<(), GattError>)
        ensures
            send_speed_outcome(old(self)@, speed, r, final(self)@),
    {
        if speed == self.last_speed {
            return Ok(());
        }
        let level = if speed > MAX_GATT_INTENSITY {
            MAX_GATT_INTENSITY
        } else {
            speed
        };
        let text = vibrate_command(level);
        let r = self.send_data(text.as_slice());
        if r.is_ok() {
            self.last_speed = speed;
        }
        r
    }
}

/// Asking twice in a row for the same intensity writes at most once; once
/// the first request was accepted, the second succeeds, queues nothing and
/// leaves the service as the first one left it.
pub proof fn lemma_send_speed_debounced(
    s0: GattServiceView,
    s1: GattServiceView,
    s2: GattServiceView,
    speed: u8,
    r1: Result<(), GattError>,
    r2: Result<(), GattError>,
)
    requires
        send_speed_outcome(s0, speed, r1, s1),
        send_speed_outcome(s1, speed, r2, s2),
    ensures
        r1 is Ok ==> r2 is Ok && s2 == s1,
        s2.sent.len() <= s0.sent.len() + 1,
{
}

} // verus!
