//! Bit-level primitives of the proprietary radio encoding: bit reversal,
//! the CRC16 folded into the frame, and the pseudorandom whitening passes.

use vstd::prelude::*;

verus! {

/// The eight bits of `x` in reverse order: bit `i` of the result is bit `7 - i` of `x`.
pub open spec fn reverse8(x: u8) -> u8 {
    ((x & 0x01) << 7) | ((x & 0x02) << 5) | ((x & 0x04) << 3) | ((x & 0x08) << 1) | ((x & 0x10) >> 1)
        | ((x & 0x20) >> 3) | ((x & 0x40) >> 5) | ((x & 0x80) >> 7)
}

/// The sixteen bits of `x` in reverse order: the two bytes swap places and
/// each of them is reversed.
pub open spec fn reverse16(x: u16) -> u16 {
    ((reverse8(x as u8) as u16) << 8) | (reverse8((x >> 8) as u8) as u16)
}

/// One round of the CCITT shift register (polynomial 0x1021): shift left by
/// one, and fold the polynomial in when bit 15 was shifted out.
pub open spec fn crc_shift(c: u16) -> u16 {
    if c & 0x8000 != 0 {
        ((c << 1u16) ^ 0x1021u16) as u16
    } else {
        (c << 1u16) as u16
    }
}

/// `n` rounds of the shift register.
pub open spec fn crc_shifts(c: u16, n: nat) -> u16
    decreases n,
{
    if n == 0 {
        c
    } else {
        crc_shifts(crc_shift(c), (n - 1) as nat)
    }
}

/// Feeds one byte: it is XORed into the high byte of the register, then eight rounds follow.
pub open spec fn crc_feed(c: u16, b: u8) -> u16 {
    crc_shifts(c ^ ((b as u16) << 8u16), 8)
}

/// Feeds the bytes of `s` from the last to the first.
pub open spec fn crc_feed_reversed(c: u16, s: Seq<u8>) -> u16
    decreases s.len(),
{
    if s.len() == 0 {
        c
    } else {
        crc_feed_reversed(crc_feed(c, s.last()), s.drop_last())
    }
}

/// Feeds the bytes of `s` from the first to the last, each one bit-reversed.
pub open spec fn crc_feed_inverted(c: u16, s: Seq<u8>) -> u16
    decreases s.len(),
{
    if s.len() == 0 {
        c
    } else {
        crc_feed_inverted(crc_feed(c, reverse8(s[0])), s.drop_first())
    }
}

/// The CRC16 of an address and a payload: from 0xFFFF, the address bytes in
/// reverse order, then the payload bytes bit-reversed; the register is then
/// bit-reversed and complemented.
pub open spec fn crc16(addr: Seq<u8>, data: Seq<u8>) -> u16 {
    !reverse16(crc_feed_inverted(crc_feed_reversed(0xFFFF, addr), data))
}

/// The initial whitening state for a seed: a leading 1, then bits 5 down to 0 of the seed.
pub open spec fn whitening_seed(v: u8) -> Seq<u8> {
    seq![1u8, (v >> 5u8) & 1, (v >> 4u8) & 1, (v >> 3u8) & 1, (v >> 2u8) & 1, (v >> 1u8) & 1, v & 1]
}

/// A whitening state: seven values, each a single bit.
pub open spec fn is_whitening_state(s: Seq<u8>) -> bool {
    s.len() == 7 && forall|i: int| 0 <= i < 7 ==> #[trigger] s[i] <= 1
}

/// The state that follows `s` through the tap network.
pub open spec fn whitening_next(s: Seq<u8>) -> Seq<u8> {
    let v52 = s[5] ^ s[2];
    let v41 = s[4] ^ s[1];
    let v630 = s[6] ^ s[3] ^ s[0];
    seq![v52 ^ s[6], v630, v41, v52, v52 ^ s[3], v630 ^ s[4], v41 ^ s[5]]
}

/// The byte that state `s` XORs into the data byte it whitens: every one of
/// the eight bit positions gets its own tap.
pub open spec fn whitening_mask(s: Seq<u8>) -> u8 {
    let v52 = s[5] ^ s[2];
    let v41 = s[4] ^ s[1];
    let v63 = s[6] ^ s[3];
    let v630 = v63 ^ s[0];
    ((v52 ^ s[6]) << 7u8) | (v630 << 6u8) | (v41 << 5u8) | (v52 << 4u8) | (v63 << 3u8) | (s[4] << 2u8)
        | (s[5] << 1u8) | s[6]
}

/// The state after `n` bytes have been whitened from state `s`.
pub open spec fn whitening_state_after(s: Seq<u8>, n: nat) -> Seq<u8>
    decreases n,
{
    if n == 0 {
        s
    } else {
        whitening_next(whitening_state_after(s, (n - 1) as nat))
    }
}

/// `buf` with the `len` bytes from `offset` on whitened from state `s`: the
/// byte at `offset + k` is XORed with the mask of the state after `k` steps.
pub open spec fn whitened(buf: Seq<u8>, s: Seq<u8>, offset: int, len: int) -> Seq<u8> {
    Seq::new(
        buf.len(),
        |j: int|
            if offset <= j < offset + len {
                buf[j] ^ whitening_mask(whitening_state_after(s, (j - offset) as nat))
            } else {
                buf[j]
            },
    )
}

/// The working buffer of a frame, `25 + data.len()` bytes: zeros up to 0x0F;
/// the preamble 0x71, 0x0F, 0x55 and then the address, last byte first, all
/// eight bit-reversed; the payload, last byte first; the CRC16, low byte first.
pub open spec fn rf_work_buffer(addr: Seq<u8>, data: Seq<u8>) -> Seq<u8> {
    let n = data.len() as int;
    let crc = crc16(addr, data);
    Seq::new(
        (25 + n) as nat,
        |j: int|
            if j < 15 {
                0u8
            } else if j == 15 {
                reverse8(0x71)
            } else if j == 16 {
                reverse8(0x0F)
            } else if j == 17 {
                reverse8(0x55)
            } else if j < 23 {
                reverse8(addr[22 - j])
            } else if j < 23 + n {
                data[22 + n - j]
            } else if j == 23 + n {
                (crc & 0xff) as u8
            } else {
                (crc >> 8u16) as u8
            },
    )
}

/// The 11-byte frame for a 5-byte address and a payload. Two copies of the
/// working buffer are whitened: one from offset 0x12 over `7 + n` bytes with
/// seed 0x3F, after only its first `7 + n` bytes were copied over zeros; one
/// over the whole buffer with seed 0x25. The frame is bytes 0x0F up to 0x1A
/// of their XOR.
pub open spec fn rf_payload(addr: Seq<u8>, data: Seq<u8>) -> Seq<u8> {
    let n = data.len() as int;
    let buf = rf_work_buffer(addr, data);
    let w3f = whitened(buf.take(7 + n) + Seq::new(18, |i: int| 0u8), whitening_seed(0x3f), 0x12, 7 + n);
    let w25 = whitened(buf, whitening_seed(0x25), 0, 25 + n);
    Seq::new(11, |k: int| w25[15 + k] ^ w3f[15 + k])
}

/// A command for the broadcast transport: three raw bytes that take the
/// place of the frame's last three bytes, or one payload byte.
pub enum Command {
    Raw([u8; 3]),
    Byte(u8),
}

/// The 11-byte frame that carries `command` for the device at `addr`.
pub open spec fn ble_command(addr: Seq<u8>, command: Command) -> Seq<u8> {
    match command {
        Command::Byte(val) => rf_payload(addr, seq![val]),
        Command::Raw(bytes) => rf_payload(addr, seq![0u8]).take(8) + bytes@,
    }
}

/// Reversing the bits of a byte twice gives the byte back.
pub proof fn lemma_invert_8_involution(x: u8)
    ensures
        reverse8(reverse8(x)) == x,
{
    assert(reverse8(reverse8(x)) == x) by (bit_vector);
}

/// Reversing the bits of a 16-bit word twice gives the word back.
pub proof fn lemma_invert_16_involution(x: u16)
    ensures
        reverse16(reverse16(x)) == x,
{
    assert(reverse16(reverse16(x)) == x) by (bit_vector);
}

/// The codec keeps no state between calls: the CRC, a whitening pass, the
/// state it leaves and the frame are functions of their explicit inputs
/// alone, so equal inputs give equal outputs. The eleven frame bytes written
/// into a buffer do not depend on what the buffer held before.
pub proof fn lemma_codec_deterministic(
    addr1: Seq<u8>,
    data1: Seq<u8>,
    addr2: Seq<u8>,
    data2: Seq<u8>,
    state1: Seq<u8>,
    state2: Seq<u8>,
    buf1: Seq<u8>,
    buf2: Seq<u8>,
    offset: int,
    len: int,
    steps: nat,
    rest1: Seq<u8>,
    rest2: Seq<u8>,
)
    requires
        addr1 == addr2,
        data1 == data2,
        state1 == state2,
        buf1 == buf2,
    ensures
        crc16(addr1, data1) == crc16(addr2, data2),
        whitened(buf1, state1, offset, len) == whitened(buf2, state2, offset, len),
        whitening_state_after(state1, steps) == whitening_state_after(state2, steps),
        rf_payload(addr1, data1) == rf_payload(addr2, data2),
        (rf_payload(addr1, data1) + rest1).take(11) == (rf_payload(addr2, data2) + rest2).take(11),
{
    assert((rf_payload(addr1, data1) + rest1).take(11) =~= rf_payload(addr1, data1));
    assert((rf_payload(addr2, data2) + rest2).take(11) =~= rf_payload(addr2, data2));
}

proof fn lemma_bit_xor(a: u8, b: u8)
    by (bit_vector)
    requires
        a <= 1,
        b <= 1,
    ensures
        a ^ b <= 1,
{
}

proof fn lemma_whitening_next_is_state(s: Seq<u8>)
    requires
        is_whitening_state(s),
    ensures
        is_whitening_state(whitening_next(s)),
{
    assert(s[0] <= 1 && s[1] <= 1 && s[2] <= 1 && s[3] <= 1 && s[4] <= 1 && s[5] <= 1 && s[6] <= 1);
    lemma_bit_xor(s[5], s[2]);
    lemma_bit_xor(s[4], s[1]);
    lemma_bit_xor(s[6], s[3]);
    lemma_bit_xor(s[6] ^ s[3], s[0]);
    lemma_bit_xor(s[5] ^ s[2], s[6]);
    lemma_bit_xor(s[5] ^ s[2], s[3]);
    lemma_bit_xor(s[6] ^ s[3] ^ s[0], s[4]);
    lemma_bit_xor(s[4] ^ s[1], s[5]);
    let n = whitening_next(s);
    assert forall|i: int| 0 <= i < 7 implies #[trigger] n[i] <= 1 by {}
}

proof fn lemma_whitening_seed_is_state(v: u8)
    ensures
        is_whitening_state(whitening_seed(v)),
{
    assert((v >> 5u8) & 1 <= 1 && (v >> 4u8) & 1 <= 1 && (v >> 3u8) & 1 <= 1 && (v >> 2u8) & 1 <= 1
        && (v >> 1u8) & 1 <= 1 && v & 1 <= 1) by (bit_vector);
    let s = whitening_seed(v);
    assert forall|i: int| 0 <= i < 7 implies #[trigger] s[i] <= 1 by {}
}

proof fn lemma_reverse8_step(x: u8, r: u8, v: u8, i: u8)
    by (bit_vector)
    requires
        i < 8,
        r == ((reverse8(x) as u16) >> ((8 - i) as u16)) as u8,
        v == x >> i,
    ensures
        ((r << 1) | (v & 1)) == ((reverse8(x) as u16) >> ((7 - i) as u16)) as u8,
        v >> 1 == x >> ((i + 1) as u8),
{
}

proof fn lemma_reverse16_step(x: u16, r: u16, v: u16, i: u16)
    by (bit_vector)
    requires
        i < 16,
        r == ((reverse16(x) as u32) >> ((16 - i) as u32)) as u16,
        v == x >> i,
    ensures
        ((r << 1) | (v & 1)) == ((reverse16(x) as u32) >> ((15 - i) as u32)) as u16,
        v >> 1 == x >> ((i + 1) as u8),
{
}

/// The operations of the radio codec.
pub struct BleUtil;

impl BleUtil {
    /// Reverses the bit order of a byte.
    pub fn invert_8(value: u8) -> (r: u8)
        ensures
            r == reverse8(value),
    {
        let mut value = value;
        let ghost x = value;
        let mut result: u8 = 0;
        let mut i: u8 = 0;
        proof {
            assert(0u8 == ((reverse8(x) as u16) >> 8u8) as u8) by (bit_vector);
            assert(x == x >> 0u8) by (bit_vector);
        }
        while i < 8
            invariant
                i <= 8,
                result == ((reverse8(x) as u16) >> ((8 - i) as u16)) as u8,
                value == x >> i,
            decreases 8 - i,
        {
            proof {
                lemma_reverse8_step(x, result, value, i);
            }
            result = result << 1;
            result = result | (value & 1);
            value = value >> 1;
            i = i + 1;
        }
        proof {
            assert(reverse8(x) == ((reverse8(x) as u16) >> 0u8) as u8) by (bit_vector);
        }
        result
    }

    /// Reverses the bit order of a 16-bit word.
    pub fn invert_16(value: u16) -> (r: u16)
        ensures
            r == reverse16(value),
    {
        let mut val = value;
        let ghost x = value;
        let mut result: u16 = 0;
        let mut i: u16 = 0;
        proof {
            assert(0u16 == ((reverse16(x) as u32) >> 16u32) as u16) by (bit_vector);
            assert(x == x >> 0u16) by (bit_vector);
        }
        while i < 16
            invariant
                i <= 16,
                result == ((reverse16(x) as u32) >> ((16 - i) as u32)) as u16,
                val == x >> i,
            decreases 16 - i,
        {
            proof {
                lemma_reverse16_step(x, result, val, i);
            }
            result = result << 1;
            result = result | (val & 1);
            val = val >> 1;
            i = i + 1;
        }
        proof {
            assert(reverse16(x) == ((reverse16(x) as u32) >> 0u32) as u16) by (bit_vector);
        }
        result
    }

    /// Feeds one byte into the CRC register.
    fn crc16_feed(crc: u16, byte: u8) -> (r: u16)
        ensures
            r == crc_feed(crc, byte),
    {
        let ghost start = crc ^ ((byte as u16) << 8u16);
        let mut c: u16 = crc ^ ((byte as u16) << 8);
        let mut k: u8 = 0;
        while k < 8
            invariant
                k <= 8,
                crc_shifts(c, (8 - k) as nat) == crc_shifts(start, 8),
            decreases 8 - k,
        {
            if (c & 0x8000) != 0 {
                c = (c << 1) ^ 0x1021;
            } else {
                c = c << 1;
            }
            k = k + 1;
        }
        c
    }

    /// The CRC16 of an address and a payload.
    pub fn check_crc16(addr: &[u8], data: &[u8]) -> (r: u16)
        ensures
            r == crc16(addr@, data@),
    {
        let mut crc: u16 = 0xffff;
        let mut i: usize = addr.len();
        assert(addr@.take(addr@.len() as int) =~= addr@);
        while i > 0
            invariant
                i <= addr@.len(),
                crc_feed_reversed(crc, addr@.take(i as int)) == crc_feed_reversed(0xFFFF, addr@),
            decreases i,
        {
            i = i - 1;
            assert(addr@.take(i + 1).drop_last() =~= addr@.take(i as int));
            crc = Self::crc16_feed(crc, addr[i]);
        }
        let ghost after_addr = crc;
        let mut j: usize = 0;
        assert(data@.skip(0) =~= data@);
        while j < data.len()
            invariant
                j <= data@.len(),
                crc_feed_inverted(crc, data@.skip(j as int)) == crc_feed_inverted(after_addr, data@),
            decreases data@.len() - j,
        {
            assert(data@.skip(j as int).drop_first() =~= data@.skip(j + 1));
            let b = Self::invert_8(data[j]);
            crc = Self::crc16_feed(crc, b);
            j = j + 1;
        }
        !Self::invert_16(crc)
    }

    /// Builds the frame for `command` and the 5-byte device address.
    pub fn get_ble_command(address_bytes: &[u8; 5], command_bytes: Command) -> (r: Vec<u8>)
        ensures
            r@ == ble_command(address_bytes@, command_bytes),
            r@.len() == 11,
    {
        let mut result: Vec<u8> = vec![0u8; 11];
        match command_bytes {
            Command::Byte(val) => {
                let data: Vec<u8> = vec![val];
                Self::get_rf_payload(address_bytes, data.as_slice(), result.as_mut_slice());
                assert(data@ =~= seq![val]);
                assert(result@ =~= ble_command(address_bytes@, command_bytes));
                result
            },
            Command::Raw(bytes) => {
                let data: Vec<u8> = vec![0u8];
                assert(data@ =~= seq![0u8]);
                Self::get_rf_payload(address_bytes, data.as_slice(), result.as_mut_slice());
                result[8] = bytes[0];
                result[9] = bytes[1];
                result[10] = bytes[2];
                assert(result@ =~= ble_command(address_bytes@, command_bytes));
                result
            },
        }
    }

    /// Writes the 11-byte frame for `addr` and `data` into the first eleven
    /// bytes of `result`.
    #[verifier::rlimit(40)]
    pub fn get_rf_payload(addr: &[u8; 5], data: &[u8], result: &mut [u8])
        requires
            1 <= data@.len(),
            data@.len() + 25 <= usize::MAX,
            11 <= old(result)@.len(),
        ensures
            final(result)@ == rf_payload(addr@, data@) + old(result)@.skip(11),
    {
        let mut ctx_25 = [0u8; 7];
        let mut ctx_3f = [0u8; 7];

        Self::whitening_init(0x25, &mut ctx_25);
        Self::whitening_init(0x3f, &mut ctx_3f);

        let n = data.len();
        let length_24 = 0x12 + 5 + n;
        let length_26 = length_24 + 0x02;

        let mut result_25: Vec<u8> = vec![0u8; length_26];
        let mut result_3f: Vec<u8> = vec![0u8; length_26];
        let mut result_buf: Vec<u8> = vec![0u8; length_26];
        let ghost zeros = result_buf@;
        assert(forall|p: int| 0 <= p < length_26 ==> zeros[p] == 0u8);

        result_buf[0x0f] = 0x71;
        result_buf[0x10] = 0x0f;
        result_buf[0x11] = 0x55;

        // The address, last byte first.
        let mut j: usize = 0;
        while j < 5
            invariant
                j <= 5,
                result_buf@.len() == length_26,
                length_26 == 25 + n,
                result_buf@[15] == 0x71u8,
                result_buf@[16] == 0x0fu8,
                result_buf@[17] == 0x55u8,
                forall|p: int| 0 <= p < 15 ==> result_buf@[p] == 0u8,
                forall|p: int| 23 <= p < length_26 ==> result_buf@[p] == 0u8,
                forall|p: int|
                    18 <= p < 23 ==> result_buf@[p] == if p >= 23 - j {
                        addr@[22 - p]
                    } else {
                        0u8
                    },
            decreases 5 - j,
        {
            result_buf[0x12 + 5 - j - 1] = addr[j];
            j = j + 1;
        }

        // The payload, last byte first.
        let mut j: usize = 0;
        while j < n
            invariant
                j <= n,
                n == data@.len(),
                result_buf@.len() == length_26,
                length_24 == 23 + n,
                length_26 == 25 + n,
                result_buf@[15] == 0x71u8,
                result_buf@[16] == 0x0fu8,
                result_buf@[17] == 0x55u8,
                forall|p: int| 0 <= p < 15 ==> result_buf@[p] == 0u8,
                forall|p: int| 23 + n <= p < length_26 ==> result_buf@[p] == 0u8,
                forall|p: int| 18 <= p < 23 ==> result_buf@[p] == addr@[22 - p],
                forall|p: int|
                    23 <= p < 23 + n ==> result_buf@[p] == if p >= 23 + n - j {
                        data@[22 + n - p]
                    } else {
                        0u8
                    },
            decreases n - j,
        {
            result_buf[length_24 - j - 1] = data[j];
            j = j + 1;
        }

        // The preamble and the address, bit-reversed.
        let ghost plain = result_buf@;
        let mut i: usize = 0;
        while i < 8
            invariant
                i <= 8,
                result_buf@.len() == length_26,
                plain.len() == length_26,
                length_26 == 25 + n,
                forall|p: int| 15 <= p < 15 + i ==> result_buf@[p] == reverse8(plain[p]),
                forall|p: int| 0 <= p < length_26 && !(15 <= p < 15 + i) ==> result_buf@[p] == plain[p],
            decreases 8 - i,
        {
            let b = Self::invert_8(result_buf[0x0f + i]);
            result_buf[0x0f + i] = b;
            i = i + 1;
        }

        let crc16 = Self::check_crc16(addr, data);
        proof {
            assert(crc16 >> 8u16 == (crc16 >> 8u16) & 0xff && crc16 >> 8u16 < 256 && crc16 & 0xff < 256)
                by (bit_vector);
        }
        result_buf[length_24] = (crc16 & 0xff) as u8;
        result_buf[length_24 + 1] = ((crc16 >> 8) & 0xff) as u8;
        let ghost buf = result_buf@;
        let ghost expected = rf_work_buffer(addr@, data@);
        assert forall|p: int| 0 <= p < length_26 implies buf[p] == expected[p] by {
            if p < 15 {
                assert(buf[p] == plain[p]);
            } else if p < 18 {
                assert(buf[p] == reverse8(plain[p]));
            } else if p < 23 {
                assert(buf[p] == reverse8(plain[p]));
                assert(plain[p] == addr@[22 - p]);
            } else if p < 23 + n {
                assert(buf[p] == plain[p]);
                assert(plain[p] == data@[22 + n - p]);
            }
        }
        assert(buf =~= expected);

        Self::whitening_encode(result_buf.as_slice(), 2 + 5 + n, &mut ctx_3f, 0x12, result_3f.as_mut_slice());
        Self::whitening_encode(result_buf.as_slice(), length_26, &mut ctx_25, 0x00, result_25.as_mut_slice());
        proof {
            assert(zeros.skip(7 + n) =~= Seq::new(18, |i: int| 0u8));
            assert(buf.take(length_26 as int) + zeros.skip(length_26 as int) =~= buf);
        }
        let ghost w25 = result_25@;
        let ghost w3f = result_3f@;

        let mut i: usize = 0;
        while i < length_26
            invariant
                i <= length_26,
                result_25@.len() == length_26,
                w25.len() == length_26,
                result_3f@ == w3f,
                w3f.len() == length_26,
                forall|p: int| 0 <= p < i ==> result_25@[p] == w25[p] ^ w3f[p],
                forall|p: int| i <= p < length_26 ==> result_25@[p] == w25[p],
            decreases length_26 - i,
        {
            let x = result_25[i] ^ result_3f[i];
            result_25[i] = x;
            i = i + 1;
        }

        let mut k: usize = 0;
        while k < 11
            invariant
                k <= 11,
                result@.len() == old(result)@.len(),
                11 <= result@.len(),
                result_25@.len() == length_26,
                length_26 >= 26,
                forall|p: int| 0 <= p < k ==> result@[p] == result_25@[15 + p],
                forall|p: int| 11 <= p < result@.len() ==> result@[p] == old(result)@[p],
            decreases 11 - k,
        {
            result[k] = result_25[0x0f + k];
            k = k + 1;
        }
        assert(result@ =~= rf_payload(addr@, data@) + old(result)@.skip(11));
    }

    /// Fills a whitening state from a seed.
    pub fn whitening_init(val: u8, ctx: &mut [u8; 7])
        ensures
            final(ctx)@ == whitening_seed(val),
            is_whitening_state(final(ctx)@),
    {
        ctx[0] = 1;
        ctx[1] = (val >> 5) & 1;
        ctx[2] = (val >> 4) & 1;
        ctx[3] = (val >> 3) & 1;
        ctx[4] = (val >> 2) & 1;
        ctx[5] = (val >> 1) & 1;
        ctx[6] = val & 1;
        proof {
            lemma_whitening_seed_is_state(val);
        }
        assert(ctx@ =~= whitening_seed(val));
    }

    /// Copies the first `len` bytes of `data` into `result`, then whitens the
    /// `len` bytes of `result` from `offset` on, advancing `ctx` once per byte.
    pub fn whitening_encode(data: &[u8], len: usize, ctx: &mut [u8], offset: usize, result: &mut [u8])
        requires
            len <= data@.len(),
            len <= old(result)@.len(),
            offset + len <= old(result)@.len(),
            is_whitening_state(old(ctx)@),
        ensures
            final(result)@ == whitened(
                data@.take(len as int) + old(result)@.skip(len as int),
                old(ctx)@,
                offset as int,
                len as int,
            ),
            final(ctx)@ == whitening_state_after(old(ctx)@, len as nat),
            is_whitening_state(final(ctx)@),
    {
        let ghost copied = data@.take(len as int) + old(result)@.skip(len as int);
        let ghost start = ctx@;
        let mut j: usize = 0;
        while j < len
            invariant
                j <= len,
                len <= data@.len(),
                result@.len() == old(result)@.len(),
                len <= old(result)@.len(),
                forall|k: int| 0 <= k < j ==> result@[k] == data@[k],
                forall|k: int| j <= k < result@.len() ==> result@[k] == old(result)@[k],
            decreases len - j,
        {
            result[j] = data[j];
            j = j + 1;
        }
        assert(result@ =~= copied);
        assert(result@ =~= whitened(copied, start, offset as int, 0));
        let total = result.len();
        let mut i: usize = 0;
        while i < len
            invariant
                i <= len,
                offset + len <= total,
                total == result@.len(),
                copied.len() == result@.len(),
                ctx@.len() == 7,
                ctx@ == whitening_state_after(start, i as nat),
                is_whitening_state(ctx@),
                result@ == whitened(copied, start, offset as int, i as int),
            decreases len - i,
        {
            let ghost before = ctx@;
            let var6 = ctx[6];
            let var5 = ctx[5];
            let var4 = ctx[4];
            let var3 = ctx[3];
            let var52 = var5 ^ ctx[2];
            let var41 = var4 ^ ctx[1];
            let var63 = var6 ^ ctx[3];
            let var630 = var63 ^ ctx[0];

            ctx[0] = var52 ^ var6;
            ctx[1] = var630;
            ctx[2] = var41;
            ctx[3] = var52;
            ctx[4] = var52 ^ var3;
            ctx[5] = var630 ^ var4;
            ctx[6] = var41 ^ var5;

            let mask: u8 = ((var52 ^ var6) << 7) | (var630 << 6) | (var41 << 5) | (var52 << 4) | (var63 << 3)
                | (var4 << 2) | (var5 << 1) | var6;
            proof {
                assert(ctx@ =~= whitening_next(before));
                assert(mask == whitening_mask(before));
                lemma_whitening_next_is_state(before);
            }
            let c = result[i + offset];
            result[i + offset] = c ^ mask;
            i = i + 1;
            assert(result@ =~= whitened(copied, start, offset as int, i as int));
        }
    }
}

} // verus!
