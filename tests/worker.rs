use vibelink::gatt::{BleCommand, BleMessage, BluetoothGattDevice};
use vibelink::gatt_worker::{
    advertises_service, discovered_message, is_command_characteristic, GattWorker, GattWorkerAction,
    GattWorkerInput, SERVICE_UUID, TX_UUID,
};

fn describe(actions: &[GattWorkerAction]) -> Vec<String> {
    actions
        .iter()
        .map(|a| match a {
            GattWorkerAction::Notify(BleMessage::DeviceConnecting(x)) => format!("connecting {}", x),
            GattWorkerAction::Notify(BleMessage::DeviceConnected(x)) => format!("connected {}", x),
            GattWorkerAction::Notify(BleMessage::DeviceDisconnected(x)) => format!("disconnected {}", x),
            GattWorkerAction::Notify(other) => format!("event {:?}", other),
            GattWorkerAction::Locate(x) => format!("locate {}", x),
            GattWorkerAction::Open(x) => format!("open {}", x),
            GattWorkerAction::Close(x) => format!("close {}", x),
            GattWorkerAction::Write(x, d) => format!("write {} {}", x, String::from_utf8_lossy(d)),
        })
        .collect()
}

fn connect(worker: &mut GattWorker, address: &str) -> Vec<String> {
    let mut all = describe(&worker.step(GattWorkerInput::Command(BleCommand::Connect(address.to_string()))));
    all.extend(describe(&worker.step(GattWorkerInput::Located(address.to_string()))));
    all.extend(describe(&worker.step(GattWorkerInput::Connected(address.to_string()))));
    all
}

#[test]
fn connect_then_send_intensity() {
    let mut worker = GattWorker::new();
    assert_eq!(
        connect(&mut worker, "AA:BB:CC:DD:EE"),
        vec!["locate AA:BB:CC:DD:EE", "connecting AA:BB:CC:DD:EE", "open AA:BB:CC:DD:EE", "connected AA:BB:CC:DD:EE"]
    );
    assert_eq!(worker.connected_address(), Some("AA:BB:CC:DD:EE".to_string()));
    let acts = worker.step(GattWorkerInput::Command(BleCommand::SendData(b"Vibrate:7;".to_vec())));
    assert_eq!(describe(&acts), vec!["write AA:BB:CC:DD:EE Vibrate:7;"]);
}

#[test]
fn connecting_elsewhere_tears_down_first() {
    let mut worker = GattWorker::new();
    connect(&mut worker, "A");
    let acts = worker.step(GattWorkerInput::Command(BleCommand::Connect("B".to_string())));
    assert_eq!(describe(&acts), vec!["close A", "disconnected A", "locate B"]);
    assert_eq!(worker.connected_address(), None);
    let acts = worker.step(GattWorkerInput::Located("B".to_string()));
    assert_eq!(describe(&acts), vec!["connecting B", "open B"]);
}

#[test]
fn disconnect_without_connection_is_silent() {
    let mut worker = GattWorker::new();
    assert!(worker.step(GattWorkerInput::Command(BleCommand::Disconnect)).is_empty());
    assert_eq!(worker.connected_address(), None);
}

#[test]
fn disconnect_reports_once() {
    let mut worker = GattWorker::new();
    connect(&mut worker, "A");
    let acts = worker.step(GattWorkerInput::Command(BleCommand::Disconnect));
    assert_eq!(describe(&acts), vec!["close A", "disconnected A"]);
    assert!(worker.step(GattWorkerInput::Command(BleCommand::Disconnect)).is_empty());
}

#[test]
fn failed_connection_is_silent_and_recoverable() {
    let mut worker = GattWorker::new();
    worker.step(GattWorkerInput::Command(BleCommand::Connect("A".to_string())));
    worker.step(GattWorkerInput::Located("A".to_string()));
    assert!(worker.step(GattWorkerInput::ConnectFailed("A".to_string())).is_empty());
    assert_eq!(worker.connected_address(), None);
    assert_eq!(connect(&mut worker, "A").len(), 4);
    assert_eq!(worker.connected_address(), Some("A".to_string()));
}

#[test]
fn unknown_address_is_silent() {
    let mut worker = GattWorker::new();
    worker.step(GattWorkerInput::Command(BleCommand::Connect("A".to_string())));
    assert!(worker.step(GattWorkerInput::NotLocated("A".to_string())).is_empty());
    assert!(worker.step(GattWorkerInput::Located("A".to_string())).is_empty());
}

#[test]
fn data_without_connection_is_dropped() {
    let mut worker = GattWorker::new();
    assert!(worker.step(GattWorkerInput::Command(BleCommand::SendData(vec![1]))).is_empty());
}

#[test]
fn lost_link_reports_disconnection() {
    let mut worker = GattWorker::new();
    connect(&mut worker, "A");
    assert!(worker.step(GattWorkerInput::LinkLost("B".to_string())).is_empty());
    let acts = worker.step(GattWorkerInput::LinkLost("A".to_string()));
    assert_eq!(describe(&acts), vec!["disconnected A"]);
    assert_eq!(worker.connected_address(), None);
}

#[test]
fn late_connection_after_disconnect_is_closed() {
    let mut worker = GattWorker::new();
    worker.step(GattWorkerInput::Command(BleCommand::Connect("A".to_string())));
    worker.step(GattWorkerInput::Located("A".to_string()));
    assert!(worker.step(GattWorkerInput::Command(BleCommand::Disconnect)).is_empty());
    let acts = worker.step(GattWorkerInput::Connected("A".to_string()));
    assert_eq!(describe(&acts), vec!["close A"]);
    assert_eq!(worker.connected_address(), None);
}

#[test]
fn discovery_filters_by_service() {
    let services = vec!["0000180f-0000-1000-8000-00805f9b34fb".to_string(), SERVICE_UUID.to_string()];
    assert!(advertises_service(&services));
    assert!(!advertises_service(&vec!["0000180f-0000-1000-8000-00805f9b34fb".to_string()]));
    assert!(!advertises_service(&Vec::new()));
    match discovered_message("AA".to_string(), Some("Toy".to_string()), &services) {
        Some(BleMessage::DeviceDiscovered(BluetoothGattDevice { device_address, device_name })) => {
            assert_eq!(device_address, "AA");
            assert_eq!(device_name, Some("Toy".to_string()));
        }
        other => panic!("unexpected {:?}", other),
    }
    assert!(discovered_message("AA".to_string(), None, &Vec::new()).is_none());
}

#[test]
fn command_characteristic_selection() {
    assert!(is_command_characteristic(&SERVICE_UUID.to_string(), &TX_UUID.to_string()));
    assert!(!is_command_characteristic(&TX_UUID.to_string(), &TX_UUID.to_string()));
    assert!(!is_command_characteristic(&SERVICE_UUID.to_string(), &SERVICE_UUID.to_string()));
}

#[test]
fn rejected_write_counts_as_disconnection() {
    let mut worker = GattWorker::new();
    connect(&mut worker, "A");
    assert!(worker.step(GattWorkerInput::WriteFailed("B".to_string())).is_empty());
    let acts = worker.step(GattWorkerInput::WriteFailed("A".to_string()));
    assert_eq!(describe(&acts), vec!["close A", "disconnected A"]);
    assert_eq!(worker.connected_address(), None);
    assert!(worker.step(GattWorkerInput::Command(BleCommand::SendData(vec![1]))).is_empty());
}
