//! The broadcast transport's payload: an intensity level becomes a
//! three-byte command code, framed for the fixed device address and placed
//! behind the advertising-flags header.

use vstd::prelude::*;
use crate::codec::{ble_command, BleUtil, Command};

verus! {

/// The manufacturer-data identifier under which the payload is advertised.
pub const COMPANY_ID: u16 = 0xFFF0;

/// The fixed address of the target device.
pub open spec fn raw_address() -> Seq<u8> {
    seq![0x77u8, 0x62u8, 0x4du8, 0x53u8, 0x45u8]
}

/// The first byte of the command code for an intensity level: levels 1 to 7
/// have a code each, and every other level is "off".
pub open spec fn speed_code(speed: u8) -> u8 {
    if speed == 1 {
        0xF4
    } else if speed == 2 {
        0xF7
    } else if speed == 3 {
        0xF6
    } else if speed == 4 {
        0xF1
    } else if speed == 5 {
        0xF3
    } else if speed == 6 {
        0xE7
    } else if speed == 7 {
        0xE6
    } else {
        0xE5
    }
}

/// The three-byte command code for an intensity level.
pub open spec fn speed_command_bytes(speed: u8) -> Seq<u8> {
    seq![speed_code(speed), 0u8, 0u8]
}

/// The advertising-flags header placed before the frame.
pub open spec fn flags_header() -> Seq<u8> {
    seq![0x02u8, 0x01u8, 0x06u8]
}

/// The manufacturer data that carries an intensity level: the flags header,
/// then the frame of the level's command code for the fixed address.
pub open spec fn advertising_payload(speed: u8) -> Seq<u8> {
    flags_header() + ble_command(raw_address(), Command::Raw([speed_code(speed), 0u8, 0u8]))
}

/// The fixed address of the target device.
pub fn device_address() -> (r: [u8; 5])
    ensures
        r@ == raw_address(),
{
    let r: [u8; 5] = [0x77, 0x62, 0x4d, 0x53, 0x45];
    assert(r@ =~= raw_address());
    r
}

/// The command that an intensity level maps to.
pub fn speed_command(speed: u8) -> (r: Command)
    ensures
        r == Command::Raw([speed_code(speed), 0u8, 0u8]),
{
    let code: u8 = match speed {
        1 => 0xF4,
        2 => 0xF7,
        3 => 0xF6,
        4 => 0xF1,
        5 => 0xF3,
        6 => 0xE7,
        7 => 0xE6,
        _ => 0xE5,
    };
    Command::Raw([code, 0, 0])
}

/// Builds the manufacturer data to advertise for an intensity level.
pub fn advertising_data(speed: u8) -> (r: Vec<u8>)
    ensures
        r@ == advertising_payload(speed),
        r@.len() == 14,
{
    let address = device_address();
    let command = speed_command(speed);
    let frame = BleUtil::get_ble_command(&address, command);
    let mut r: Vec<u8> = Vec::new();
    r.push(0x02);
    r.push(0x01);
    r.push(0x06);
    let mut i: usize = 0;
    while i < frame.len()
        invariant
            i <= frame@.len(),
            r@ == flags_header() + frame@.take(i as int),
        decreases frame@.len() - i,
    {
        r.push(frame[i]);
        i = i + 1;
        assert(r@ =~= flags_header() + frame@.take(i as int));
    }
    assert(frame@.take(frame@.len() as int) =~= frame@);
    r
}

/// The level sits in the payload as the first byte of its command code.
pub proof fn lemma_payload_carries_code(speed: u8)
    ensures
        advertising_payload(speed).len() == 14,
        advertising_payload(speed)[11] == speed_code(speed),
        advertising_payload(speed).subrange(11, 14) == speed_command_bytes(speed),
{
    let bytes: [u8; 3] = [speed_code(speed), 0u8, 0u8];
    let frame = ble_command(raw_address(), Command::Raw(bytes));
    assert(frame.len() == 11) by {
        assert(crate::codec::rf_payload(raw_address(), seq![0u8]).len() == 11);
    }
    assert(advertising_payload(speed).subrange(11, 14) =~= speed_command_bytes(speed));
}

/// Levels 1 to 7 have distinct command codes, and so distinct payloads.
pub proof fn lemma_levels_distinct(a: u8, b: u8)
    requires
        1 <= a <= 7,
        1 <= b <= 7,
        a != b,
    ensures
        speed_command_bytes(a) != speed_command_bytes(b),
        advertising_payload(a) != advertising_payload(b),
{
    lemma_payload_carries_code(a);
    lemma_payload_carries_code(b);
    assert(speed_command_bytes(a)[0] != speed_command_bytes(b)[0]);
}

} // verus!
