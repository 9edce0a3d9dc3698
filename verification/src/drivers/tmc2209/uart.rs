//! Single-wire UART framing of the TMC2209.
//!
//! Write datagram (8 bytes): `[SYNC, ADDR, REG|WRITE, D3, D2, D1, D0, CRC]`.
//! Read request (4 bytes): `[SYNC, ADDR, REG, CRC]`.
//! Reply (8 bytes): `[SYNC, MASTER_ADDR, REG, D3, D2, D1, D0, CRC]`.
//!
//! The CRC is the datasheet CRC8 (polynomial `x^8 + x^2 + x + 1`, each byte
//! processed least significant bit first). Moving bytes over the wire and
//! discarding the echo of the single-wire bus is left to the caller.
use crate::error::{AppError, AppResult};
use crate::text::{hex_byte_text, push_hex_byte, push_str};
use vstd::prelude::*;

verus! {

/// First byte of every datagram.
pub const SYNC_BYTE: u8 = 0x05;
/// Write flag, set in the most significant bit of the register address.
pub const WRITE_FLAG: u8 = 0x80;
/// Address the driver puts into its replies.
pub const MASTER_ADDRESS: u8 = 0xFF;

/// One bit step of the CRC8 shift register: feed the lowest bit of
/// `current` into `crc`.
pub open spec fn crc_bit(crc: u8, current: u8) -> u8 {
    if (crc >> 7u8) ^ (current & 1u8) != 0 {
        ((crc << 1u8) ^ 0x07u8) as u8
    } else {
        (crc << 1u8) as u8
    }
}

/// `n` bit steps, consuming `current` from its least significant bit.
pub open spec fn crc_bits(crc: u8, current: u8, n: nat) -> u8
    decreases n,
{
    if n == 0 {
        crc
    } else {
        crc_bits(crc_bit(crc, current), current >> 1u8, (n - 1) as nat)
    }
}

/// CRC8 of a byte sequence, starting from `0`.
pub open spec fn crc8_spec(data: Seq<u8>) -> u8
    decreases data.len(),
{
    if data.len() == 0 {
        0
    } else {
        crc_bits(crc8_spec(data.drop_last()), data.last(), 8)
    }
}

/// CRC8 of a datagram as specified in the TMC2209 datasheet.
pub fn crc8(data: &[u8]) -> (crc: u8)
    ensures
        crc == crc8_spec(data@),
{
    let mut crc: u8 = 0;
    let mut i: usize = 0;
    while i < data.len()
        invariant
            i <= data@.len(),
            crc == crc8_spec(data@.take(i as int)),
        decreases data.len() - i,
    {
        let byte = data[i];
        let mut current = byte;
        let mut bit: usize = 0;
        let ghost target = crc_bits(crc, byte, 8);
        while bit < 8
            invariant
                bit <= 8,
                crc_bits(crc, current, (8 - bit) as nat) == target,
            decreases 8 - bit,
        {
            let b = (crc >> 7u8) ^ (current & 1u8);
            crc = if b != 0 { (crc << 1u8) ^ 0x07u8 } else { crc << 1u8 };
            current = current >> 1u8;
            bit += 1;
        }
        assert(data@.take(i + 1).drop_last() =~= data@.take(i as int));
        i += 1;
    }
    assert(data@.take(data@.len() as int) =~= data@);
    crc
}

/// Bytewise XOR of two sequences of equal length.
pub open spec fn xor_bytes(a: Seq<u8>, b: Seq<u8>) -> Seq<u8> {
    Seq::new(a.len(), |i: int| a[i] ^ b[i])
}

/// One bit step of the shift register is linear over XOR.
proof fn lemma_crc_bit_linear(c1: u8, c2: u8, x1: u8, x2: u8)
    by (bit_vector)
    ensures
        crc_bit(c1 ^ c2, x1 ^ x2) == crc_bit(c1, x1) ^ crc_bit(c2, x2),
{
}

/// `n` bit steps of the shift register are linear over XOR.
proof fn lemma_crc_bits_linear(c1: u8, c2: u8, x1: u8, x2: u8, n: nat)
    ensures
        crc_bits(c1 ^ c2, x1 ^ x2, n) == crc_bits(c1, x1, n) ^ crc_bits(c2, x2, n),
    decreases n,
{
    if n > 0 {
        lemma_crc_bit_linear(c1, c2, x1, x2);
        assert((x1 ^ x2) >> 1u8 == (x1 >> 1u8) ^ (x2 >> 1u8)) by (bit_vector);
        lemma_crc_bits_linear(crc_bit(c1, x1), crc_bit(c2, x2), x1 >> 1u8, x2 >> 1u8, (n - 1) as nat);
    }
}

/// The datagram CRC is linear: for two inputs of equal length, the CRC of
/// their bytewise XOR is the XOR of their CRCs (zero start value, no final
/// XOR).
pub proof fn lemma_crc8_linear(a: Seq<u8>, b: Seq<u8>)
    requires
        a.len() == b.len(),
    ensures
        crc8_spec(xor_bytes(a, b)) == crc8_spec(a) ^ crc8_spec(b),
    decreases a.len(),
{
    let c = xor_bytes(a, b);
    if a.len() == 0 {
        assert(0u8 ^ 0u8 == 0u8) by (bit_vector);
    } else {
        assert(c.drop_last() =~= xor_bytes(a.drop_last(), b.drop_last()));
        lemma_crc8_linear(a.drop_last(), b.drop_last());
        lemma_crc_bits_linear(crc8_spec(a.drop_last()), crc8_spec(b.drop_last()), a.last(), b.last(), 8);
    }
}

/// Big-endian bytes of a register value.
pub open spec fn be_bytes(value: u32) -> Seq<u8> {
    seq![(value >> 24u32) as u8, (value >> 16u32) as u8, (value >> 8u32) as u8, value as u8]
}

/// Value of four big-endian bytes.
pub open spec fn be_value(b3: u8, b2: u8, b1: u8, b0: u8) -> u32 {
    ((b3 as u32) << 24u32) | ((b2 as u32) << 16u32) | ((b1 as u32) << 8u32) | (b0 as u32)
}

/// Datagram that writes `value` into `register` of the driver at
/// `slave_address`.
pub open spec fn write_datagram_spec(slave_address: u8, register: u8, value: u32) -> Seq<u8> {
    let head = seq![SYNC_BYTE, slave_address, register | WRITE_FLAG] + be_bytes(value);
    head.push(crc8_spec(head))
}

/// Request that reads `register` of the driver at `slave_address`.
pub open spec fn read_request_spec(slave_address: u8, register: u8) -> Seq<u8> {
    let head = seq![SYNC_BYTE, slave_address, register & !WRITE_FLAG];
    head.push(crc8_spec(head))
}

/// Builds the 8-byte datagram writing `value` into `register`.
pub fn write_datagram(slave_address: u8, register: u8, value: u32) -> (d: [u8; 8])
    ensures
        d@ == write_datagram_spec(slave_address, register, value),
{
    let head: [u8; 7] = [
        SYNC_BYTE,
        slave_address,
        register | WRITE_FLAG,
        (value >> 24u32) as u8,
        (value >> 16u32) as u8,
        (value >> 8u32) as u8,
        value as u8,
    ];
    let crc = crc8(head.as_slice());
    let d = [head[0], head[1], head[2], head[3], head[4], head[5], head[6], crc];
    assert(head@ =~= seq![SYNC_BYTE, slave_address, register | WRITE_FLAG] + be_bytes(value));
    assert(d@ =~= head@.push(crc));
    d
}

/// Builds the 4-byte request reading `register`.
pub fn read_request(slave_address: u8, register: u8) -> (d: [u8; 4])
    ensures
        d@ == read_request_spec(slave_address, register),
{
    let head: [u8; 3] = [SYNC_BYTE, slave_address, register & !WRITE_FLAG];
    let crc = crc8(head.as_slice());
    let d = [head[0], head[1], head[2], crc];
    assert(head@ =~= seq![SYNC_BYTE, slave_address, register & !WRITE_FLAG]);
    assert(d@ =~= head@.push(crc));
    d
}

/// Reason text of a reply whose CRC does not match.
pub open spec fn bad_crc_reason(expected: u8, got: u8) -> Seq<char> {
    "неверная контрольная сумма ответа (ожидалось "@ + hex_byte_text(expected) + ", получено "@
        + hex_byte_text(got) + ")"@
}

/// Reason text of a reply with an unexpected header.
pub open spec fn bad_header_reason(sync: u8, addr: u8, reg: u8) -> Seq<char> {
    "неожиданный заголовок ответа: sync="@ + hex_byte_text(sync) + " addr="@ + hex_byte_text(addr)
        + " reg="@ + hex_byte_text(reg)
}

/// Outcome of checking the reply to a read of `register`: a CRC mismatch
/// (`Err(Some((expected, received)))`) is reported first, then a wrong
/// sync byte, master address or register (`Err(None)`), else the
/// big-endian value.
pub open spec fn reply_outcome(register: u8, reply: Seq<u8>) -> Result<u32, Option<(u8, u8)>> {
    let expected = crc8_spec(reply.take(7));
    if reply[7] != expected {
        Err(Some((expected, reply[7])))
    } else if reply[0] != SYNC_BYTE || reply[1] != MASTER_ADDRESS || reply[2] != register {
        Err(None)
    } else {
        Ok(be_value(reply[3], reply[4], reply[5], reply[6]))
    }
}

/// Checks and decodes the reply to a read of `register`.
pub fn decode_read_reply(register: u8, reply: &[u8; 8]) -> (r: AppResult<u32>)
    ensures
        reply_outcome(register, reply@) matches Ok(v) ==> r matches Ok(w) && w == v,
        reply_outcome(register, reply@) matches Err(Some((expected, got))) ==> r matches Err(
            AppError::MotorDriver { driver, reason },
        ) && driver@ == "tmc2209-uart"@ && reason@ == bad_crc_reason(expected, got),
        reply_outcome(register, reply@) matches Err(None) ==> r matches Err(
            AppError::MotorDriver { driver, reason },
        ) && driver@ == "tmc2209-uart"@ && reason@ == bad_header_reason(
            reply@[0],
            reply@[1],
            reply@[2],
        ),
{
    let head: [u8; 7] = [reply[0], reply[1], reply[2], reply[3], reply[4], reply[5], reply[6]];
    assert(head@ =~= reply@.take(7));
    let expected_crc = crc8(head.as_slice());
    if reply[7] != expected_crc {
        let mut reason = String::new();
        push_str(&mut reason, "неверная контрольная сумма ответа (ожидалось ");
        push_hex_byte(&mut reason, expected_crc);
        push_str(&mut reason, ", получено ");
        push_hex_byte(&mut reason, reply[7]);
        push_str(&mut reason, ")");
        return Err(AppError::MotorDriver { driver: "tmc2209-uart", reason });
    }
    if reply[0] != SYNC_BYTE || reply[1] != MASTER_ADDRESS || reply[2] != register {
        let mut reason = String::new();
        push_str(&mut reason, "неожиданный заголовок ответа: sync=");
        push_hex_byte(&mut reason, reply[0]);
        push_str(&mut reason, " addr=");
        push_hex_byte(&mut reason, reply[1]);
        push_str(&mut reason, " reg=");
        push_hex_byte(&mut reason, reply[2]);
        return Err(AppError::MotorDriver { driver: "tmc2209-uart", reason });
    }
    Ok(((reply[3] as u32) << 24u32) | ((reply[4] as u32) << 16u32) | ((reply[5] as u32) << 8u32)
        | (reply[6] as u32))
}

/// The reply the driver sends for `register` holding `value`.
pub open spec fn reply_spec(register: u8, value: u32) -> Seq<u8> {
    let head = seq![SYNC_BYTE, MASTER_ADDRESS, register] + be_bytes(value);
    head.push(crc8_spec(head))
}

/// A well-formed reply for `register` decodes to the value it carries:
/// the reply framing and [`decode_read_reply`] are inverse.
pub proof fn lemma_reply_round_trip(register: u8, value: u32)
    ensures
        reply_outcome(register, reply_spec(register, value)) == Ok::<u32, Option<(u8, u8)>>(value),
{
    let head = seq![SYNC_BYTE, MASTER_ADDRESS, register] + be_bytes(value);
    let reply = reply_spec(register, value);
    assert(reply.take(7) =~= head);
    let b3 = (value >> 24u32) as u8;
    let b2 = (value >> 16u32) as u8;
    let b1 = (value >> 8u32) as u8;
    let b0 = value as u8;
    assert(be_value(b3, b2, b1, b0) == value) by (bit_vector)
        requires
            b3 == (value >> 24u32) as u8,
            b2 == (value >> 16u32) as u8,
            b1 == (value >> 8u32) as u8,
            b0 == value as u8,
    ;
}

} // verus!
