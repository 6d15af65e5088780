//! Addresses of the XL-320 control table, the instruction codes of
//! protocol 2.0, and the broadcast id.
use vstd::prelude::*;

verus! {

// Control table, EEPROM area.
pub const XL_MODEL_NUMBER_L: u8 = 0;
pub const XL_MODEL_NUMBER_H: u8 = 1;
pub const XL_VERSION: u8 = 2;
pub const XL_ID: u8 = 3;
pub const XL_BAUD_RATE: u8 = 4;
pub const XL_RETURN_DELAY_TIME: u8 = 5;
pub const XL_CW_ANGLE_LIMIT_L: u8 = 6;
pub const XL_CW_ANGLE_LIMIT_H: u8 = 7;
pub const XL_CCW_ANGLE_LIMIT_L: u8 = 8;
pub const XL_CCW_ANGLE_LIMIT_H: u8 = 9;
pub const XL_CONTROL_MODE: u8 = 11;
pub const XL_LIMIT_TEMPERATURE: u8 = 12;
pub const XL_DOWN_LIMIT_VOLTAGE: u8 = 13;
pub const XL_UP_LIMIT_VOLTAGE: u8 = 14;
pub const XL_MAX_TORQUE_L: u8 = 15;
pub const XL_MAX_TORQUE_H: u8 = 16;
pub const XL_RETURN_LEVEL: u8 = 17;
pub const XL_ALARM_SHUTDOWN: u8 = 18;

// Control table, RAM area.
pub const XL_TORQUE_ENABLE: u8 = 24;
pub const XL_LED: u8 = 25;
pub const XL_D_GAIN: u8 = 27;
pub const XL_I_GAIN: u8 = 28;
pub const XL_P_GAIN: u8 = 29;
pub const XL_GOAL_POSITION_L: u8 = 30;
pub const XL_GOAL_SPEED_L: u8 = 32;
pub const XL_GOAL_TORQUE: u8 = 35;
pub const XL_PRESENT_POSITION: u8 = 37;
pub const XL_PRESENT_SPEED: u8 = 39;
pub const XL_PRESENT_LOAD: u8 = 41;
pub const XL_PRESENT_VOLTAGE: u8 = 45;
pub const XL_PRESENT_TEMPERATURE: u8 = 46;
pub const XL_REGISTERED_INSTRUCTION: u8 = 47;
pub const XL_MOVING: u8 = 49;
pub const XL_HARDWARE_ERROR: u8 = 50;
pub const XL_PUNCH: u8 = 51;

/// Asks a device whether it is there.
pub const INS_Ping: u8 = 0x01;
/// Reads from the control table.
pub const INS_Read: u8 = 0x02;
/// Writes to the control table.
pub const INS_Write: u8 = 0x03;
/// Writes to the control table, held back until an action instruction.
pub const INS_RegWrite: u8 = 0x04;
/// Carries out the writes held back by register-write instructions.
pub const INS_Action: u8 = 0x05;
/// Resets the control table to its factory settings.
pub const INS_Factory: u8 = 0x06;
/// Restarts the device.
pub const INS_Reboot: u8 = 0x08;
/// Marks a status packet, the answer to an instruction.
pub const INS_StatusReturn: u8 = 0x55;
/// Reads one range of the control table from several devices.
pub const INS_SyncRead: u8 = 0x82;
/// Writes one range of the control table of several devices.
pub const INS_SyncWrite: u8 = 0x83;
/// Reads different ranges from several devices.
pub const INS_BulkRead: u8 = 0x92;
/// Writes different ranges of several devices.
pub const INS_BulkWrite: u8 = 0x93;

/// The id that addresses every device on the bus at once.
pub const ID_Broadcast: u8 = 0xFE;

} // verus!
