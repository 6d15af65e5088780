//! Packet construction for ROBOTIS Dynamixel XL-320 servos (protocol 2.0).
#![allow(non_snake_case)]
#![allow(non_upper_case_globals)]

pub mod bytes;
pub mod crc;
pub mod packet;
pub mod registers;
pub mod link;
pub mod control;
