//! The broadcast transport: the owner queues intensity levels, and the
//! worker turns each into the payload that replaces the one on air.

use vstd::prelude::*;
use std::sync::atomic::{AtomicBool, Ordering};
use std::sync::mpsc::{Receiver, Sender};
use std::sync::Arc;
use crate::channel::{channel_pair, channel_send, share_flag};
use crate::frame::{advertising_data, advertising_payload};

verus! {

/// The worker's end of the level queue is gone.
#[derive(Debug, Clone, Copy, PartialEq, Eq)]
pub struct ChannelClosed;

/// The worker's end of the level queue, with the flag that says a worker
/// holds it.
pub struct BroadcastWorkerChannels {
    pub ble_rx: Receiver<u8>,
    pub running: Arc<AtomicBool>,
}

/// The owner's side of the broadcast transport.
pub struct BluetoothGenericService {
    pub gui_tx: Sender<u8>,
    worker: Option<BroadcastWorkerChannels>,
    thread_running: Arc<AtomicBool>,
    queued: Ghost<Seq<u8>>,
}

/// The service as plain values: the levels that its current queue accepted,
/// oldest first, and whether it still holds the worker's end of that queue.
pub struct GenericServiceView {
    pub queued: Seq<u8>,
    pub awaiting_worker: bool,
}

impl View for BluetoothGenericService {
    type V = GenericServiceView;

    closed spec fn view(&self) -> GenericServiceView {
        GenericServiceView { queued: self.queued@, awaiting_worker: self.worker is Some }
    }
}

impl BluetoothGenericService {
    /// A service with its level queue open. Levels queue at once; the
    /// worker's end waits in the service until `start_ble` hands it out.
    pub fn new() -> (r: Self)
        ensures
            r@ == (GenericServiceView { queued: Seq::empty(), awaiting_worker: true }),
    {
        let thread_running = Arc::new(AtomicBool::new(false));
        let (gui_tx, ble_rx) = channel_pair::<u8>();
        let worker = BroadcastWorkerChannels { ble_rx, running: share_flag(&thread_running) };
        Self { gui_tx, worker: Some(worker), thread_running, queued: Ghost(Seq::empty()) }
    }

    /// Hands out the worker's end of the queue and marks the worker as
    /// running. When the end was handed out before and that worker has
    /// stopped, a fresh queue is opened. When a worker runs, or the end is
    /// claimed by another call, it returns `None`: a second worker is never
    /// started.
    pub fn start_ble(&mut self) -> (r: Option<BroadcastWorkerChannels>)
        ensures
            r is None ==> final(self)@ == old(self)@,
            r is Some ==> {
                &&& !final(self)@.awaiting_worker
                &&& old(self)@.awaiting_worker ==> final(self)@.queued == old(self)@.queued
                &&& !old(self)@.awaiting_worker ==> final(self)@.queued == Seq::<u8>::empty()
            },
    {
        let claimed = self.thread_running.compare_exchange(false, true, Ordering::SeqCst, Ordering::SeqCst);
        if claimed.is_err() {
            return None;
        }
        match self.worker.take() {
            Some(worker) => Some(worker),
            None => {
                let (gui_tx, ble_rx) = channel_pair::<u8>();
                self.gui_tx = gui_tx;
                self.queued = Ghost(Seq::empty());
                Some(BroadcastWorkerChannels { ble_rx, running: share_flag(&self.thread_running) })
            },
        }
    }

    /// Queues an intensity level, unchanged, for the broadcast worker, and
    /// records it when the queue accepted it.
    pub fn send_speed(&mut self, speed: u8) -> (r: Result<(), ChannelClosed>)
        ensures
            final(self)@.awaiting_worker == old(self)@.awaiting_worker,
            r is Ok ==> final(self)@.queued == old(self)@.queued.push(speed),
            r is Err ==> final(self)@.queued == old(self)@.queued,
    {
        if channel_send(&self.gui_tx, speed) {
            self.queued = Ghost(self.queued@.push(speed));
            Ok(())
        } else {
            Err(ChannelClosed)
        }
    }
}

/// The broadcast worker's state: the level whose payload is on air, if any.
pub struct BroadcastState {
    on_air: Option<u8>,
}

impl View for BroadcastState {
    type V = Option<Seq<u8>>;

    closed spec fn view(&self) -> Option<Seq<u8>> {
        match self.on_air {
            Some(level) => Some(advertising_payload(level)),
            None => None,
        }
    }
}

impl BroadcastState {
    /// A worker with nothing on air.
    pub fn new() -> (r: Self)
        ensures
            r@ is None,
    {
        BroadcastState { on_air: None }
    }

    /// The payload on air, if any.
    pub fn on_air(&self) -> (r: Option<Vec<u8>>)
        ensures
            match r {
                Some(p) => self@ == Some(p@),
                None => self@ is None,
            },
    {
        match self.on_air {
            Some(level) => Some(advertising_data(level)),
            None => None,
        }
    }

    /// The payload that is to replace the one on air, as a whole, for a
    /// requested level. Nothing changes until it is published.
    pub fn request(&self, speed: u8) -> (r: Vec<u8>)
        ensures
            r@ == advertising_payload(speed),
    {
        advertising_data(speed)
    }

    /// Records that the payload for `speed` replaced the one on air.
    pub fn published(&mut self, speed: u8)
        ensures
            final(self)@ == Some(advertising_payload(speed)),
    {
        self.on_air = Some(speed);
    }
}

} // verus!
