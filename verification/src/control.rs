//! The decisions of the servo control loop: the checks of the start-up
//! steps, and the packets sent at start-up, on each tick and at shut-down.
use vstd::prelude::*;
use vstd::slice::slice_to_vec;
use crate::packet::{Command, packet, write_packet, ping, set_angle_limit, set_joint_mode, set_led,
    set_pos_raw, set_speed_raw, set_torque};
use crate::registers::{ID_Broadcast, INS_Ping, INS_Write, XL_CCW_ANGLE_LIMIT_L, XL_CONTROL_MODE,
    XL_CW_ANGLE_LIMIT_L, XL_GOAL_POSITION_L, XL_GOAL_SPEED_L, XL_LED, XL_TORQUE_ENABLE};

verus! {

/// A start-up step that reports success with the code 0.
#[derive(Clone, Copy, Debug, PartialEq, Eq)]
pub enum InitStep {
    Adc,
    Uart,
    Dmp,
}

/// A start-up step that failed, with the code it returned.
#[derive(Clone, Copy, Debug, PartialEq, Eq)]
pub enum InitError {
    AdcInitFailed(i32),
    UartInitFailed(i32),
    DmpInitFailed(i32),
}

/// The error of `step` failing with `code`.
pub open spec fn init_error(step: InitStep, code: i32) -> InitError {
    match step {
        InitStep::Adc => InitError::AdcInitFailed(code),
        InitStep::Uart => InitError::UartInitFailed(code),
        InitStep::Dmp => InitError::DmpInitFailed(code),
    }
}

/// Checks the code that a start-up step returned: 0 is success.
pub fn check_init(step: InitStep, code: i32) -> (r: Result<(), InitError>)
    ensures
        code == 0 ==> r == Ok::<(), InitError>(()),
        code != 0 ==> r == Err::<(), InitError>(init_error(step, code)),
{
    if code == 0 {
        Ok(())
    } else {
        match step {
            InitStep::Adc => Err(InitError::AdcInitFailed(code)),
            InitStep::Uart => Err(InitError::UartInitFailed(code)),
            InitStep::Dmp => Err(InitError::DmpInitFailed(code)),
        }
    }
}

/// The packets that set the servos up, in the order they are sent: torque
/// off everywhere, a ping to devices 1 and 2, the LEDs green, device 1 in
/// wheel mode, and the angle limits of device 1 cleared.
pub fn startup_packets() -> (ps: Vec<Vec<u8>>)
    ensures
        ps@.len() == 6,
        ps@[0]@ == write_packet(ID_Broadcast, XL_TORQUE_ENABLE as u16, 0),
        ps@[1]@ == packet(1, INS_Ping, Seq::empty()),
        ps@[2]@ == packet(2, INS_Ping, Seq::empty()),
        ps@[3]@ == write_packet(ID_Broadcast, XL_LED as u16, 2),
        ps@[4]@ == write_packet(1, XL_CONTROL_MODE as u16, 1),
        ps@[5]@ == packet(
            1,
            INS_Write,
            seq![
                Command { address: XL_CW_ANGLE_LIMIT_L as u16, value: 0 },
                Command { address: XL_CCW_ANGLE_LIMIT_L as u16, value: 0 },
            ],
        ),
{
    let mut ps: Vec<Vec<u8>> = Vec::new();
    let torque = set_torque(ID_Broadcast, 0);
    ps.push(slice_to_vec(torque.as_slice()));
    let mut x: u8 = 1;
    while x < 3
        invariant
            1 <= x <= 3,
            ps@.len() == x,
            ps@[0]@ == write_packet(ID_Broadcast, XL_TORQUE_ENABLE as u16, 0),
            forall|k: int| 1 <= k < x ==> #[trigger] ps@[k]@ == packet(k as u8, INS_Ping, Seq::empty()),
        decreases 3 - x,
    {
        let p = ping(x);
        ps.push(slice_to_vec(p.as_slice()));
        x = x + 1;
    }
    let led = set_led(ID_Broadcast, 2);
    ps.push(slice_to_vec(led.as_slice()));
    let mode = set_joint_mode(1, 1);
    ps.push(slice_to_vec(mode.as_slice()));
    let limits = set_angle_limit(1, 0, 0);
    ps.push(slice_to_vec(limits.as_slice()));
    assert(ps@[1]@ == packet(1u8, INS_Ping, Seq::empty()));
    assert(ps@[2]@ == packet(2u8, INS_Ping, Seq::empty()));
    ps
}

/// The packets of one tick of the loop: nothing while button A is up, and
/// otherwise device 1 to position `pos` and device 2 to speed `speed`
/// (both raw register values).
pub fn drive_packets(button_a: bool, pos: u16, speed: u16) -> (ps: Vec<Vec<u8>>)
    ensures
        !button_a ==> ps@.len() == 0,
        button_a ==> ps@.len() == 2
            && ps@[0]@ == write_packet(1, XL_GOAL_POSITION_L as u16, pos)
            && ps@[1]@ == write_packet(2, XL_GOAL_SPEED_L as u16, speed),
{
    let mut ps: Vec<Vec<u8>> = Vec::new();
    if !button_a {
        return ps;
    }
    let p = set_pos_raw(1, pos);
    ps.push(slice_to_vec(p.as_slice()));
    let s = set_speed_raw(2, speed);
    ps.push(slice_to_vec(s.as_slice()));
    ps
}

/// The packets that leave the servos at rest: the LEDs off and the speed 0,
/// both sent to every device.
pub fn shutdown_packets() -> (ps: Vec<Vec<u8>>)
    ensures
        ps@.len() == 2,
        ps@[0]@ == write_packet(ID_Broadcast, XL_LED as u16, 0),
        ps@[1]@ == write_packet(ID_Broadcast, XL_GOAL_SPEED_L as u16, 0),
{
    let mut ps: Vec<Vec<u8>> = Vec::new();
    let led = set_led(ID_Broadcast, 0);
    ps.push(slice_to_vec(led.as_slice()));
    let stop = set_speed_raw(ID_Broadcast, 0);
    ps.push(slice_to_vec(stop.as_slice()));
    ps
}

} // verus!
