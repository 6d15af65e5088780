use dm2::bytes::{DM_HIBYTE, DM_LOBYTE, DM_MAKEWORD};
use dm2::control::{check_init, drive_packets, shutdown_packets, startup_packets, InitError, InitStep};
use dm2::crc::{update_crc, CRC_TABLE};
use dm2::link::{after_echo, after_status, EchoOutcome, LinkError};
use dm2::packet::{
    dataPack, dataPacket, dataPush, joint_mode_value, ping, set_angle_limit, set_joint_mode,
    set_led, set_pos_raw, set_speed_raw, set_torque, test_packet, Command,
};
use dm2::registers::{ID_Broadcast, INS_Ping, INS_Read, INS_Write, XL_LED};

/// The CRC of protocol 2.0 computed bit by bit from its polynomial.
fn crc_bitwise(init: u16, data: &[u8]) -> u16 {
    let mut crc = init;
    for &b in data {
        crc ^= (b as u16) << 8;
        for _ in 0..8 {
            crc = if crc & 0x8000 != 0 { (crc << 1) ^ 0x8005 } else { crc << 1 };
        }
    }
    crc
}

#[test]
fn bytes_of_a_word() {
    assert_eq!(DM_LOBYTE(0x1234), 0x34);
    assert_eq!(DM_HIBYTE(0x1234), 0x12);
    assert_eq!(DM_MAKEWORD(0x34, 0x12), 0x1234);
    assert_eq!(DM_LOBYTE(0xFFFF), 0xFF);
    assert_eq!(DM_HIBYTE(0x00FF), 0x00);
}

#[test]
fn word_round_trip() {
    for w in [0u16, 1, 0x00FF, 0x0100, 0xABCD, 0xFFFF] {
        assert_eq!(DM_MAKEWORD(DM_LOBYTE(w), DM_HIBYTE(w)), w);
    }
    for (a, b) in [(0u8, 0u8), (0x12, 0x34), (0xFF, 0x01), (0xFF, 0xFF)] {
        let w = DM_MAKEWORD(a, b);
        assert_eq!((DM_LOBYTE(w), DM_HIBYTE(w)), (a, b));
    }
}

#[test]
fn crc_of_manual_example() {
    // Read instruction from the protocol 2.0 manual: CRC 0x151D.
    let body = [0xFF, 0xFF, 0xFD, 0x00, 0x01, 0x07, 0x00, 0x02, 0x84, 0x00, 0x04, 0x00];
    assert_eq!(update_crc(0, &body), 0x151D);
}

#[test]
fn crc_of_nothing_is_the_start_value() {
    assert_eq!(update_crc(0, &[]), 0);
    assert_eq!(update_crc(0xBEEF, &[]), 0xBEEF);
}

#[test]
fn crc_in_two_pieces() {
    let data = [1u8, 2, 3, 4, 5];
    assert_eq!(update_crc(0, &data), 0xB059);
    assert_eq!(update_crc(update_crc(0, &data[..3]), &data[3..]), update_crc(0, &data));
}

#[test]
fn crc_matches_polynomial() {
    let data: Vec<u8> = (0..=255u8).chain([0x00, 0xFF, 0x80, 0x7F]).collect();
    for init in [0u16, 1, 0x8005, 0xFFFF] {
        assert_eq!(update_crc(init, &data), crc_bitwise(init, &data));
    }
    for i in 0..256usize {
        assert_eq!(CRC_TABLE[i], crc_bitwise(0, &[i as u8]));
    }
}

#[test]
fn ping_packet() {
    // Ping of device 1 from the protocol 2.0 manual.
    assert_eq!(ping(1), [0xFF, 0xFF, 0xFD, 0x00, 0x01, 0x03, 0x00, 0x01, 0x19, 0x4E]);
    assert_eq!(ping(2), [0xFF, 0xFF, 0xFD, 0x00, 0x02, 0x03, 0x00, 0x01, 0x19, 0x72]);
}

#[test]
fn led_packet() {
    assert_eq!(
        set_led(ID_Broadcast, 2),
        [0xFF, 0xFF, 0xFD, 0x00, 0xFE, 0x07, 0x00, 0x03, 0x19, 0x00, 0x02, 0x00, 0x7C, 0xD7]
    );
    assert_eq!(set_led(ID_Broadcast, 2), dataPush(ID_Broadcast, XL_LED, 2));
}

#[test]
fn torque_packet() {
    assert_eq!(
        set_torque(ID_Broadcast, 0),
        [0xFF, 0xFF, 0xFD, 0x00, 0xFE, 0x07, 0x00, 0x03, 0x18, 0x00, 0x00, 0x00, 0x7C, 0xCF]
    );
}

#[test]
fn angle_limit_packet() {
    assert_eq!(
        set_angle_limit(1, 0, 1023),
        [
            0xFF, 0xFF, 0xFD, 0x00, 0x01, 0x0B, 0x00, 0x03, 0x06, 0x00, 0x00, 0x00, 0x08, 0x00,
            0xFF, 0x03, 0xFE, 0x9D
        ]
    );
}

#[test]
fn joint_mode_packets() {
    assert_eq!(
        set_joint_mode(1, 2),
        [0xFF, 0xFF, 0xFD, 0x00, 0x01, 0x07, 0x00, 0x03, 0x0B, 0x00, 0x02, 0x00, 0x59, 0xCD]
    );
    let wheel = [0xFF, 0xFF, 0xFD, 0x00, 0x01, 0x07, 0x00, 0x03, 0x0B, 0x00, 0x01, 0x00, 0x59, 0xC7];
    assert_eq!(set_joint_mode(1, 1), wheel);
    assert_eq!(set_joint_mode(1, 0), wheel);
    assert_eq!(set_joint_mode(1, 7), wheel);
    assert_eq!(joint_mode_value(2), 2);
    assert_eq!(joint_mode_value(3), 1);
    assert_eq!(joint_mode_value(0xFFFF), 1);
}

#[test]
fn speed_and_position_packets() {
    assert_eq!(
        set_speed_raw(2, 1500),
        [0xFF, 0xFF, 0xFD, 0x00, 0x02, 0x07, 0x00, 0x03, 0x20, 0x00, 0xDC, 0x05, 0x4D, 0x25]
    );
    assert_eq!(
        set_pos_raw(1, 512),
        [0xFF, 0xFF, 0xFD, 0x00, 0x01, 0x07, 0x00, 0x03, 0x1E, 0x00, 0x00, 0x02, 0x53, 0xC5]
    );
}

#[test]
fn read_test_packet() {
    assert_eq!(
        test_packet(),
        [0xFF, 0xFF, 0xFD, 0x00, 0x01, 0x07, 0x00, 0x02, 0x00, 0x00, 0x00, 0x02, 0x2D, 0x5D]
    );
    let mut buf = [0u8; 14];
    let cmds = [Command { address: 0, value: 0x0200 }];
    assert_eq!(dataPacket(1, &mut buf, INS_Read, &cmds), 14);
    assert_eq!(buf, test_packet());
}

#[test]
fn data_pack_writes_four_bytes() {
    let mut buf = [9u8; 6];
    assert_eq!(dataPack(&mut buf, 0x1234, 0xABCD), 4);
    assert_eq!(buf, [0x34, 0x12, 0xCD, 0xAB, 9, 9]);
}

#[test]
fn data_packet_leaves_the_rest_of_the_buffer() {
    let mut buf = [0xAAu8; 16];
    assert_eq!(dataPacket(1, &mut buf, INS_Ping, &[]), 10);
    assert_eq!(&buf[..10], &ping(1)[..]);
    assert_eq!(&buf[10..], &[0xAA; 6][..]);
}

#[test]
fn packet_fields_read_back() {
    let cmds = [Command { address: 6, value: 300 }, Command { address: 8, value: 0xBEEF }];
    let mut buf = [0u8; 18];
    let n = dataPacket(7, &mut buf, INS_Write, &cmds);
    assert_eq!(n, 18);
    assert_eq!(&buf[..4], &[0xFF, 0xFF, 0xFD, 0x00]);
    assert_eq!(buf[4], 7);
    assert_eq!(buf[7], INS_Write);
    assert_eq!(DM_MAKEWORD(buf[5], buf[6]) as usize, n - 7);
    for (j, c) in cmds.iter().enumerate() {
        assert_eq!(DM_MAKEWORD(buf[8 + 4 * j], buf[9 + 4 * j]), c.address);
        assert_eq!(DM_MAKEWORD(buf[10 + 4 * j], buf[11 + 4 * j]), c.value);
    }
    assert_eq!(DM_MAKEWORD(buf[n - 2], buf[n - 1]), update_crc(0, &buf[..n - 2]));
}

#[test]
fn echo_outcomes() {
    let unicast = ping(1);
    let broadcast = set_led(ID_Broadcast, 2);
    assert_eq!(after_echo(0, &unicast), Err(LinkError::PacketReadFailed(0)));
    assert_eq!(after_echo(-3, &broadcast), Err(LinkError::PacketReadFailed(-3)));
    assert_eq!(after_echo(10, &unicast), Ok(EchoOutcome::AwaitStatus));
    assert_eq!(after_echo(14, &broadcast), Ok(EchoOutcome::Done));
}

#[test]
fn status_outcomes() {
    let mut status = [0u8; 32];
    assert_eq!(after_status(0, &status), Err(LinkError::StatusReadFailed(0)));
    assert_eq!(after_status(-1, &status), Err(LinkError::StatusReadFailed(-1)));
    assert_eq!(after_status(11, &status), Ok(()));
    status[9] = 0x07;
    assert_eq!(after_status(11, &status), Err(LinkError::StatusError(0x07)));
}

#[test]
fn init_checks() {
    assert_eq!(check_init(InitStep::Adc, 0), Ok(()));
    assert_eq!(check_init(InitStep::Adc, -1), Err(InitError::AdcInitFailed(-1)));
    assert_eq!(check_init(InitStep::Uart, 2), Err(InitError::UartInitFailed(2)));
    assert_eq!(check_init(InitStep::Dmp, -5), Err(InitError::DmpInitFailed(-5)));
}

#[test]
fn startup_sequence() {
    let ps = startup_packets();
    assert_eq!(ps.len(), 6);
    assert_eq!(ps[0], set_torque(ID_Broadcast, 0).to_vec());
    assert_eq!(ps[1], ping(1).to_vec());
    assert_eq!(ps[2], ping(2).to_vec());
    assert_eq!(ps[3], set_led(ID_Broadcast, 2).to_vec());
    assert_eq!(ps[4], set_joint_mode(1, 1).to_vec());
    assert_eq!(
        ps[5],
        vec![
            0xFF, 0xFF, 0xFD, 0x00, 0x01, 0x0B, 0x00, 0x03, 0x06, 0x00, 0x00, 0x00, 0x08, 0x00,
            0x00, 0x00, 0xFB, 0x1F
        ]
    );
}

#[test]
fn drive_sequence() {
    assert!(drive_packets(false, 100, 200).is_empty());
    let ps = drive_packets(true, 512, 1500);
    assert_eq!(ps.len(), 2);
    assert_eq!(ps[0], set_pos_raw(1, 512).to_vec());
    assert_eq!(ps[1], set_speed_raw(2, 1500).to_vec());
}

#[test]
fn shutdown_sequence() {
    let ps = shutdown_packets();
    assert_eq!(ps.len(), 2);
    assert_eq!(
        ps[0],
        vec![0xFF, 0xFF, 0xFD, 0x00, 0xFE, 0x07, 0x00, 0x03, 0x19, 0x00, 0x00, 0x00, 0x7F, 0x5B]
    );
    assert_eq!(
        ps[1],
        vec![0xFF, 0xFF, 0xFD, 0x00, 0xFE, 0x07, 0x00, 0x03, 0x20, 0x00, 0x00, 0x00, 0x75, 0x2F]
    );
}
