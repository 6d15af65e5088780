//! What the bus driver decides after it has sent a packet: the packet's
//! echo comes back first, then (unless the packet was broadcast) the
//! device's status packet.
use vstd::prelude::*;
use crate::registers::ID_Broadcast;

verus! {

/// Why an exchange on the bus failed.
#[derive(Clone, Copy, Debug, PartialEq, Eq)]
pub enum LinkError {
    /// Reading back the echo of the packet gave this result (no bytes).
    PacketReadFailed(i32),
    /// Reading the status packet gave this result (no bytes).
    StatusReadFailed(i32),
    /// The status packet reported this error byte.
    StatusError(u8),
}

/// What comes after the echo of a packet.
#[derive(Clone, Copy, Debug, PartialEq, Eq)]
pub enum EchoOutcome {
    /// The packet was broadcast: no device answers, the exchange is over.
    Done,
    /// A status packet from the addressed device is to be read.
    AwaitStatus,
}

/// Decides the exchange after the echo was read into `echo`; `read` is what
/// the read returned (the number of bytes, or a negative error code).
pub fn after_echo(read: i32, echo: &[u8]) -> (r: Result<EchoOutcome, LinkError>)
    requires
        echo@.len() > 4,
    ensures
        read <= 0 ==> r == Err::<EchoOutcome, LinkError>(LinkError::PacketReadFailed(read)),
        read > 0 && echo@[4] == ID_Broadcast ==> r == Ok::<EchoOutcome, LinkError>(
            EchoOutcome::Done,
        ),
        read > 0 && echo@[4] != ID_Broadcast ==> r == Ok::<EchoOutcome, LinkError>(
            EchoOutcome::AwaitStatus,
        ),
{
    if read <= 0 {
        return Err(LinkError::PacketReadFailed(read));
    }
    if echo[4] == ID_Broadcast {
        return Ok(EchoOutcome::Done);
    }
    Ok(EchoOutcome::AwaitStatus)
}

/// Decides the exchange after the status packet was read into `status`;
/// `read` is what the read returned. Byte 9 of the status carries the
/// device's error.
pub fn after_status(read: i32, status: &[u8]) -> (r: Result<(), LinkError>)
    requires
        status@.len() > 9,
    ensures
        read <= 0 ==> r == Err::<(), LinkError>(LinkError::StatusReadFailed(read)),
        read > 0 && status@[9] != 0 ==> r == Err::<(), LinkError>(
            LinkError::StatusError(status@[9]),
        ),
        read > 0 && status@[9] == 0 ==> r == Ok::<(), LinkError>(()),
{
    if read <= 0 {
        return Err(LinkError::StatusReadFailed(read));
    }
    if status[9] != 0 {
        return Err(LinkError::StatusError(status[9]));
    }
    Ok(())
}

} // verus!
