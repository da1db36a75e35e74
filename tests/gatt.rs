use std::sync::atomic::Ordering;
use vibelink::gatt::{vibrate_command, BleCommand, BleMessage, BluetoothGattDevice, BluetoothGattService, GattError};

fn device(address: &str) -> BluetoothGattDevice {
    BluetoothGattDevice { device_address: address.to_string(), device_name: None }
}

fn sent_data(command: BleCommand) -> Vec<u8> {
    match command {
        BleCommand::SendData(data) => data,
        other => panic!("expected data, got {:?}", other),
    }
}

#[test]
fn vibrate_command_text() {
    assert_eq!(vibrate_command(7), b"Vibrate:7;".to_vec());
    assert_eq!(vibrate_command(0), b"Vibrate:0;".to_vec());
    assert_eq!(vibrate_command(20), b"Vibrate:20;".to_vec());
    assert_eq!(vibrate_command(255), b"Vibrate:255;".to_vec());
}

#[test]
fn new_service_queues_at_once() {
    let mut service = BluetoothGattService::new();
    assert_eq!(service.send_speed(5), Ok(()));
    assert_eq!(service.send_speed(5), Ok(()));
    assert!(service.fetch_ble_message().is_none());
    let worker = service.start_ble().expect("the worker's ends are held");
    assert_eq!(sent_data(worker.gui_rx.try_recv().unwrap()), b"Vibrate:5;".to_vec());
    assert!(worker.gui_rx.try_recv().is_err());
}

#[test]
fn send_speed_is_debounced() {
    let mut service = BluetoothGattService::new();
    let worker = service.start_ble().expect("no worker runs yet");
    assert_eq!(service.send_speed(7), Ok(()));
    assert_eq!(service.send_speed(7), Ok(()));
    assert_eq!(sent_data(worker.gui_rx.try_recv().unwrap()), b"Vibrate:7;".to_vec());
    assert!(worker.gui_rx.try_recv().is_err());
}

#[test]
fn send_speed_zero_first_is_not_sent() {
    let mut service = BluetoothGattService::new();
    assert_eq!(service.send_speed(0), Ok(()));
    let worker = service.start_ble().unwrap();
    assert!(worker.gui_rx.try_recv().is_err());
}

#[test]
fn send_speed_clamps_to_twenty() {
    let mut service = BluetoothGattService::new();
    assert_eq!(service.send_speed(25), Ok(()));
    let worker = service.start_ble().unwrap();
    assert_eq!(sent_data(worker.gui_rx.try_recv().unwrap()), b"Vibrate:20;".to_vec());
    assert_eq!(service.send_speed(3), Ok(()));
    assert_eq!(sent_data(worker.gui_rx.try_recv().unwrap()), b"Vibrate:3;".to_vec());
}

#[test]
fn refused_level_is_not_remembered() {
    let mut service = BluetoothGattService::new();
    let worker = service.start_ble().unwrap();
    drop(worker.gui_rx);
    assert_eq!(service.send_speed(4), Err(GattError::ChannelClosed));
    assert_eq!(service.send_speed(4), Err(GattError::ChannelClosed));
}

#[test]
fn commands_reach_worker_in_order() {
    let mut service = BluetoothGattService::new();
    service.connect(&device("AA:BB:CC:DD:EE")).unwrap();
    service.send_data(&[9, 8]).unwrap();
    service.disconnect().unwrap();
    let worker = service.start_ble().unwrap();
    match worker.gui_rx.try_recv().unwrap() {
        BleCommand::Connect(address) => assert_eq!(address, "AA:BB:CC:DD:EE"),
        other => panic!("unexpected {:?}", other),
    }
    assert_eq!(sent_data(worker.gui_rx.try_recv().unwrap()), vec![9, 8]);
    assert!(matches!(worker.gui_rx.try_recv().unwrap(), BleCommand::Disconnect));
}

#[test]
fn events_reach_owner() {
    let mut service = BluetoothGattService::new();
    let worker = service.start_ble().unwrap();
    assert!(service.fetch_ble_message().is_none());
    worker.gui_tx.send(BleMessage::AdapterInitialized).unwrap();
    worker.gui_tx.send(BleMessage::DeviceConnected("AA".to_string())).unwrap();
    assert!(matches!(service.fetch_ble_message(), Some(BleMessage::AdapterInitialized)));
    match service.fetch_ble_message() {
        Some(BleMessage::DeviceConnected(a)) => assert_eq!(a, "AA"),
        other => panic!("unexpected {:?}", other),
    }
    assert!(service.fetch_ble_message().is_none());
}

#[test]
fn closed_worker_queue_is_reported() {
    let mut service = BluetoothGattService::new();
    let worker = service.start_ble().unwrap();
    drop(worker);
    assert_eq!(service.send_data(&[1]), Err(GattError::ChannelClosed));
    assert_eq!(service.disconnect(), Err(GattError::ChannelClosed));
    assert!(service.fetch_ble_message().is_none());
}

#[test]
fn running_worker_is_not_started_twice() {
    let mut service = BluetoothGattService::new();
    let worker = service.start_ble().unwrap();
    assert!(worker.running.load(Ordering::SeqCst));
    assert!(service.start_ble().is_none());
    worker.running.store(false, Ordering::SeqCst);
    let restarted = service.start_ble().expect("the first worker stopped");
    service.disconnect().unwrap();
    assert!(matches!(restarted.gui_rx.try_recv().unwrap(), BleCommand::Disconnect));
    assert!(worker.gui_rx.try_recv().is_err());
}
