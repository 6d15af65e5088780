//! Instruction packets of protocol 2.0:
//!
//! `FF FF FD 00 | id | len_lo len_hi | instruction | parameters | crc_lo crc_hi`
//!
//! where the length counts the instruction, the parameters and the CRC, and
//! the CRC covers every byte before it. Each command is a control-table
//! address and a value, both written as little-endian words.
use vstd::prelude::*;
use vstd::slice::slice_subrange;
use crate::bytes::{DM_LOBYTE, DM_HIBYTE, lo_byte, hi_byte, word, lemma_word_of_bytes};
use crate::crc::{crc16, update_crc};
use crate::registers::{INS_Write, INS_Ping, INS_Read, XL_LED, XL_CONTROL_MODE, XL_CW_ANGLE_LIMIT_L,
    XL_CCW_ANGLE_LIMIT_L, XL_GOAL_SPEED_L, XL_GOAL_POSITION_L, XL_TORQUE_ENABLE};

verus! {

/// One write into the control table: a register address and its value.
#[derive(Clone, Copy, Debug)]
pub struct Command {
    pub address: u16,
    pub value: u16,
}

/// The four bytes of a command: address, then value, each low byte first.
pub open spec fn command_bytes(address: u16, value: u16) -> Seq<u8> {
    seq![lo_byte(address), hi_byte(address), lo_byte(value), hi_byte(value)]
}

/// The parameter bytes of a packet: the commands one after another.
pub open spec fn params_bytes(cmds: Seq<Command>) -> Seq<u8>
    decreases cmds.len(),
{
    if cmds.len() == 0 {
        Seq::empty()
    } else {
        params_bytes(cmds.drop_last()) + command_bytes(cmds.last().address, cmds.last().value)
    }
}

/// The length field of a packet with `n` commands, cut to 16 bits.
pub open spec fn length_field(n: nat) -> u16 {
    ((n * 4 + 3) % 65536) as u16
}

/// Everything in a packet before its CRC.
pub open spec fn packet_body(id: u8, ins: u8, cmds: Seq<Command>) -> Seq<u8> {
    seq![
        0xFFu8,
        0xFFu8,
        0xFDu8,
        0x00u8,
        id,
        lo_byte(length_field(cmds.len())),
        hi_byte(length_field(cmds.len())),
        ins,
    ] + params_bytes(cmds)
}

/// The whole packet: the body and its CRC, low byte first.
pub open spec fn packet(id: u8, ins: u8, cmds: Seq<Command>) -> Seq<u8> {
    let body = packet_body(id, ins, cmds);
    body + seq![lo_byte(crc16(0, body)), hi_byte(crc16(0, body))]
}

/// The packet that writes `value` into register `address` of device `id`.
pub open spec fn write_packet(id: u8, address: u16, value: u16) -> Seq<u8> {
    packet(id, INS_Write, seq![Command { address: address, value: value }])
}

/// The parameters take four bytes per command.
pub proof fn lemma_params_len(cmds: Seq<Command>)
    ensures
        params_bytes(cmds).len() == 4 * cmds.len(),
    decreases cmds.len(),
{
    if cmds.len() > 0 {
        lemma_params_len(cmds.drop_last());
    }
}

/// The parameters of the first `j + 1` commands are those of the first `j`
/// followed by the bytes of command `j`.
proof fn lemma_params_take(cmds: Seq<Command>, j: int)
    requires
        0 <= j < cmds.len(),
    ensures
        params_bytes(cmds.take(j + 1)) == params_bytes(cmds.take(j)) + command_bytes(
            cmds[j].address,
            cmds[j].value,
        ),
{
    assert(cmds.take(j + 1).drop_last() =~= cmds.take(j));
}

/// Command `j` sits at bytes `4 * j` to `4 * j + 3` of the parameters.
proof fn lemma_params_index(cmds: Seq<Command>, j: int)
    requires
        0 <= j < cmds.len(),
    ensures
        params_bytes(cmds).subrange(4 * j, 4 * j + 4) == command_bytes(
            cmds[j].address,
            cmds[j].value,
        ),
    decreases cmds.len(),
{
    lemma_params_len(cmds.drop_last());
    let last = command_bytes(cmds.last().address, cmds.last().value);
    if j == cmds.len() - 1 {
        assert(params_bytes(cmds).subrange(4 * j, 4 * j + 4) =~= last);
    } else {
        lemma_params_index(cmds.drop_last(), j);
        assert(params_bytes(cmds).subrange(4 * j, 4 * j + 4) =~= params_bytes(
            cmds.drop_last(),
        ).subrange(4 * j, 4 * j + 4));
    }
}

/// What a receiver reads back from a packet built from `id`, `ins` and
/// `cmds`: the header, the id, the instruction, each command's address and
/// value, a length field that counts the bytes after it (when that count
/// fits in 16 bits), and a trailing CRC that matches every byte before it.
pub proof fn lemma_packet_layout(id: u8, ins: u8, cmds: Seq<Command>)
    ensures
        ({
            let p = packet(id, ins, cmds);
            let n = p.len();
            &&& n == 4 * cmds.len() + 10
            &&& p[0] == 0xFF && p[1] == 0xFF && p[2] == 0xFD && p[3] == 0x00
            &&& p[4] == id
            &&& p[7] == ins
            &&& word(p[5], p[6]) == length_field(cmds.len())
            &&& 4 * cmds.len() + 3 < 65536 ==> word(p[5], p[6]) == n - 7
            &&& forall|j: int|
                0 <= j < cmds.len() ==> word(#[trigger] p[8 + 4 * j], p[9 + 4 * j])
                    == cmds[j].address && word(p[10 + 4 * j], p[11 + 4 * j]) == cmds[j].value
            &&& word(p[n - 2], p[n - 1]) == crc16(0, p.take(n - 2))
        }),
{
    let p = packet(id, ins, cmds);
    let body = packet_body(id, ins, cmds);
    let n = p.len();
    lemma_params_len(cmds);
    lemma_word_of_bytes(length_field(cmds.len()));
    lemma_word_of_bytes(crc16(0, body));
    assert(p.take(n - 2) =~= body);
    assert forall|j: int| 0 <= j < cmds.len() implies word(#[trigger] p[8 + 4 * j], p[9 + 4 * j])
        == cmds[j].address && word(p[10 + 4 * j], p[11 + 4 * j]) == cmds[j].value by {
        lemma_params_index(cmds, j);
        lemma_word_of_bytes(cmds[j].address);
        lemma_word_of_bytes(cmds[j].value);
        let sub = params_bytes(cmds).subrange(4 * j, 4 * j + 4);
        assert(p[8 + 4 * j] == sub[0]);
        assert(p[9 + 4 * j] == sub[1]);
        assert(p[10 + 4 * j] == sub[2]);
        assert(p[11 + 4 * j] == sub[3]);
    }
}

/// `p` reads back, byte by byte, as a 14-byte write instruction for device
/// `id` that puts `value` into register `address`, with a CRC matching the
/// bytes before it.
pub open spec fn reads_as_write(p: Seq<u8>, id: u8, address: u16, value: u16) -> bool {
    &&& p.len() == 14
    &&& p[0] == 0xFF && p[1] == 0xFF && p[2] == 0xFD && p[3] == 0x00
    &&& p[4] == id
    &&& word(p[5], p[6]) == 7
    &&& p[7] == INS_Write
    &&& word(p[8], p[9]) == address
    &&& word(p[10], p[11]) == value
    &&& word(p[12], p[13]) == crc16(0, p.take(12))
}

/// The single-write packet is the packet of one write command, and it
/// carries the register address and the value unchanged, each as a
/// little-endian word.
pub proof fn lemma_write_packet(id: u8, address: u16, value: u16)
    ensures
        write_packet(id, address, value) == packet(
            id,
            INS_Write,
            seq![Command { address: address, value: value }],
        ),
        reads_as_write(write_packet(id, address, value), id, address, value),
{
    let cmds = seq![Command { address: address, value: value }];
    let p = packet(id, INS_Write, cmds);
    lemma_packet_layout(id, INS_Write, cmds);
    let j: int = 0;
    assert(cmds[j] == Command { address: address, value: value });
    assert(word(p[8 + 4 * j], p[9 + 4 * j]) == cmds[j].address);
}

/// Writes the four bytes of a command at the start of `buf`.
pub fn dataPack(buf: &mut [u8], address: u16, value: u16) -> (n: usize)
    requires
        old(buf)@.len() >= 4,
    ensures
        n == 4,
        final(buf)@ == command_bytes(address, value) + old(buf)@.skip(4),
{
    buf[0] = DM_LOBYTE(address);
    buf[1] = DM_HIBYTE(address);
    buf[2] = DM_LOBYTE(value);
    buf[3] = DM_HIBYTE(value);
    assert(buf@ =~= command_bytes(address, value) + old(buf)@.skip(4));
    4
}

/// Writes into `buf` the packet that gives instruction `ins` with the
/// commands `cmds` to device `id`, and returns its length; the bytes of
/// `buf` after the packet are left as they were.
pub fn dataPacket(id: u8, buf: &mut [u8], ins: u8, cmds: &[Command]) -> (n: usize)
    requires
        old(buf)@.len() >= cmds@.len() * 4 + 10,
    ensures
        n == cmds@.len() * 4 + 10,
        final(buf)@ == packet(id, ins, cmds@) + old(buf)@.skip(n as int),
{
    proof {
        lemma_params_len(cmds@);
    }
    let ghost body = packet_body(id, ins, cmds@);
    // Header
    buf[0] = 0xFF;
    buf[1] = 0xFF;
    buf[2] = 0xFD;
    // Reserved
    buf[3] = 0x00;
    // ID
    buf[4] = id;
    // Packet length
    let bytes = cmds.len() * 4;
    let blen = buf.len();
    let field = bytes + 3;
    let len: u16 = #[verifier::truncate] (field as u16);
    assert(len == length_field(cmds@.len())) by {
        assert(field as u16 == (field % 65536) as u16) by (bit_vector);
    }
    buf[5] = DM_LOBYTE(len);
    buf[6] = DM_HIBYTE(len);
    // Instruction
    buf[7] = ins;
    assert(buf@.take(8) =~= body.take(8));

    let mut i: usize = 0;
    let mut j: usize = 0;
    while j < cmds.len()
        invariant
            i == 4 * j,
            j <= cmds@.len(),
            bytes == 4 * cmds@.len(),
            blen == old(buf)@.len(),
            blen >= bytes + 10,
            buf@.len() == blen,
            body == packet_body(id, ins, cmds@),
            buf@.take(8) == body.take(8),
            buf@.subrange(8, 8 + i) == params_bytes(cmds@.take(j as int)),
            forall|k: int| 8 + i <= k < blen ==> buf@[k] == old(buf)@[k],
        decreases cmds@.len() - j,
    {
        let cmd = cmds[j];
        let mut chunk: [u8; 4] = [0; 4];
        dataPack(&mut chunk, cmd.address, cmd.value);
        let ghost prev = buf@;
        buf[8 + i] = chunk[0];
        buf[8 + i + 1] = chunk[1];
        buf[8 + i + 2] = chunk[2];
        buf[8 + i + 3] = chunk[3];
        proof {
            lemma_params_take(cmds@, j as int);
            assert(buf@.take(8) =~= prev.take(8));
            assert(buf@.subrange(8, 8 + i + 4) =~= prev.subrange(8, 8 + i) + command_bytes(
                cmd.address,
                cmd.value,
            ));
        }
        i = i + 4;
        j = j + 1;
    }
    assert(cmds@.take(j as int) =~= cmds@);
    assert(buf@.take(bytes + 8) =~= body);
    let crc = update_crc(0, slice_subrange(buf, 0, bytes + 8));
    buf[bytes + 8] = DM_LOBYTE(crc);
    buf[bytes + 9] = DM_HIBYTE(crc);
    proof {
        let crc_bytes = seq![lo_byte(crc16(0, body)), hi_byte(crc16(0, body))];
        assert(buf@.take(bytes + 10) =~= body + crc_bytes);
        assert(buf@.skip(bytes + 10) =~= old(buf)@.skip(bytes + 10));
        assert(buf@ =~= buf@.take(bytes + 10) + buf@.skip(bytes + 10));
    }
    bytes + 10
}

/// The packet that writes `val` into register `cmd` of device `id`.
pub fn dataPush(id: u8, cmd: u8, val: u16) -> (buf: [u8; 14])
    ensures
        buf@ == write_packet(id, cmd as u16, val),
        buf@ == packet(id, INS_Write, seq![Command { address: cmd as u16, value: val }]),
        reads_as_write(buf@, id, cmd as u16, val),
{
    proof {
        lemma_write_packet(id, cmd as u16, val);
    }
    let mut buf: [u8; 14] = [0; 14];
    let cmds: [Command; 1] = [Command { address: cmd as u16, value: val }];
    assert(cmds@ =~= seq![Command { address: cmd as u16, value: val }]);
    dataPacket(id, &mut buf, INS_Write, &cmds);
    assert(buf@ =~= write_packet(id, cmd as u16, val));
    buf
}

/// A read instruction for device 1 (register 0, parameter word 0x0200),
/// with its CRC filled in.
pub fn test_packet() -> (data: [u8; 14])
    ensures
        data@ == packet(1, INS_Read, seq![Command { address: 0, value: 0x0200 }]),
{
    let mut data: [u8; 14] = [
        0xFF, 0xFF, 0xFD, 0x00, 0x01, 0x07, 0x00, 0x02, 0x00, 0x00, 0x00, 0x02, 0x00, 0x00,
    ];
    let ghost body = packet_body(1, INS_Read, seq![Command { address: 0, value: 0x0200 }]);
    proof {
        let cmds = seq![Command { address: 0, value: 0x0200 }];
        assert(cmds.drop_last() =~= Seq::<Command>::empty());
        assert(params_bytes(Seq::<Command>::empty()) =~= Seq::<u8>::empty());
        assert(params_bytes(cmds) =~= command_bytes(0, 0x0200));
        assert(length_field(1) == 7);
        assert(lo_byte(7) == 7 && hi_byte(7) == 0 && lo_byte(0) == 0 && hi_byte(0) == 0);
        assert(lo_byte(0x0200) == 0 && hi_byte(0x0200) == 2);
        assert(data@.take(12) =~= body);
    }
    let crc = update_crc(0, slice_subrange(data.as_slice(), 0, 12));
    data[12] = DM_LOBYTE(crc);
    data[13] = DM_HIBYTE(crc);
    assert(data@ =~= packet(1, INS_Read, seq![Command { address: 0, value: 0x0200 }]));
    data
}

/// Sets the colour of the LED of device `id`: 0 off, 1 red, 2 green,
/// 3 yellow, 4 blue, 5 purple, 6 cyan, 7 white.
pub fn set_led(id: u8, colour: u16) -> (buf: [u8; 14])
    ensures
        buf@ == write_packet(id, XL_LED as u16, colour),
        reads_as_write(buf@, id, XL_LED as u16, colour),
{
    dataPush(id, XL_LED, colour)
}

/// The control mode that a request for `value` sets: 1 (wheel) or 2
/// (joint) as asked, and wheel mode for any other value.
pub open spec fn joint_mode(value: u16) -> u16 {
    if value == 1 || value == 2 {
        value
    } else {
        1
    }
}

/// Mode 1 (wheel) and mode 2 (joint) are taken as asked; every other
/// value falls back to wheel mode.
pub proof fn lemma_joint_mode(value: u16)
    ensures
        value == 1 ==> joint_mode(value) == 1,
        value == 2 ==> joint_mode(value) == 2,
        value != 1 && value != 2 ==> joint_mode(value) == 1,
{
}

/// The control mode that `set_joint_mode` writes for `value`.
pub fn joint_mode_value(value: u16) -> (mode: u16)
    ensures
        mode == joint_mode(value),
        mode == 1 || mode == 2,
        value == 1 || value == 2 ==> mode == value,
        value != 1 && value != 2 ==> mode == 1,
{
    if value != 1 && value != 2 {
        1
    } else {
        value
    }
}

/// Sets the control mode of device `id`: 1 is wheel mode, 2 is joint mode;
/// any other value asks for wheel mode.
pub fn set_joint_mode(id: u8, value: u16) -> (buf: [u8; 14])
    ensures
        buf@ == write_packet(id, XL_CONTROL_MODE as u16, joint_mode(value)),
        value == 1 || value == 2 ==> reads_as_write(buf@, id, XL_CONTROL_MODE as u16, value),
        value != 1 && value != 2 ==> reads_as_write(buf@, id, XL_CONTROL_MODE as u16, 1),
{
    let mode = joint_mode_value(value);
    dataPush(id, XL_CONTROL_MODE, mode)
}

/// Sets the clockwise and counter-clockwise angle limits of device `id`
/// (0 to 1023) in one packet.
pub fn set_angle_limit(id: u8, cw: u16, ccw: u16) -> (buf: [u8; 18])
    ensures
        buf@ == packet(
            id,
            INS_Write,
            seq![
                Command { address: XL_CW_ANGLE_LIMIT_L as u16, value: cw },
                Command { address: XL_CCW_ANGLE_LIMIT_L as u16, value: ccw },
            ],
        ),
{
    let mut buf: [u8; 18] = [0; 18];
    let cmds: [Command; 2] = [
        Command { address: XL_CW_ANGLE_LIMIT_L as u16, value: cw },
        Command { address: XL_CCW_ANGLE_LIMIT_L as u16, value: ccw },
    ];
    let ghost want = seq![
        Command { address: XL_CW_ANGLE_LIMIT_L as u16, value: cw },
        Command { address: XL_CCW_ANGLE_LIMIT_L as u16, value: ccw },
    ];
    assert(cmds@ =~= want);
    dataPacket(id, &mut buf, INS_Write, &cmds);
    assert(buf@ =~= packet(id, INS_Write, want));
    buf
}

/// Sets the moving speed of device `id` to the raw register value `value`:
/// 0 to 1023 turns one way, 1024 to 2047 the other.
pub fn set_speed_raw(id: u8, value: u16) -> (buf: [u8; 14])
    ensures
        buf@ == write_packet(id, XL_GOAL_SPEED_L as u16, value),
        reads_as_write(buf@, id, XL_GOAL_SPEED_L as u16, value),
{
    dataPush(id, XL_GOAL_SPEED_L, value)
}

/// Sets the goal position of device `id` to the raw register value `value`
/// (0 to 1023 over the range of the servo).
pub fn set_pos_raw(id: u8, value: u16) -> (buf: [u8; 14])
    ensures
        buf@ == write_packet(id, XL_GOAL_POSITION_L as u16, value),
        reads_as_write(buf@, id, XL_GOAL_POSITION_L as u16, value),
{
    dataPush(id, XL_GOAL_POSITION_L, value)
}

/// Turns the torque of device `id` on (1) or off (0).
pub fn set_torque(id: u8, value: u16) -> (buf: [u8; 14])
    ensures
        buf@ == write_packet(id, XL_TORQUE_ENABLE as u16, value),
        reads_as_write(buf@, id, XL_TORQUE_ENABLE as u16, value),
{
    dataPush(id, XL_TORQUE_ENABLE, value)
}

/// Asks device `id` whether it is there.
pub fn ping(id: u8) -> (buf: [u8; 10])
    ensures
        buf@ == packet(id, INS_Ping, Seq::empty()),
{
    let mut buf: [u8; 10] = [0; 10];
    let cmds: [Command; 0] = [];
    assert(cmds@ =~= Seq::<Command>::empty());
    dataPacket(id, &mut buf, INS_Ping, &cmds);
    assert(buf@ =~= packet(id, INS_Ping, Seq::empty()));
    buf
}

} // verus!
