use vstd::prelude::*;

verus! {

/// Code with which a poll reports that the completion queue is empty.
pub const ENOENT: i32 = 2;

/// Why a poll of the completion queue gave no completion.
#[derive(Debug, Clone, Copy, PartialEq, Eq)]
pub enum PollingError {
    /// The completion queue is empty: poll again.
    Enoent,
    /// The poll failed with the given code.
    Other(i32),
}

/// Largest payload of a packet on an RDMA path.
#[derive(Debug, Clone, Copy, PartialEq, Eq)]
pub enum Mtu {
    Mtu256,
    Mtu512,
    Mtu1024,
    Mtu2048,
    Mtu4096,
}

/// What the code that a poll returned means: zero a completion, `ENOENT`
/// an empty queue, any other code a failure.
pub open spec fn spec_poll_result(code: i32) -> Result<(), PollingError> {
    if code == 0 {
        Ok(())
    } else if code == ENOENT {
        Err(PollingError::Enoent)
    } else {
        Err(PollingError::Other(code))
    }
}

/// What the code that a poll returned means.
pub fn poll_result(code: i32) -> (r: Result<(), PollingError>)
    ensures
        r == spec_poll_result(code),
{
    if code == 0 {
        Ok(())
    } else if code == ENOENT {
        Err(PollingError::Enoent)
    } else {
        Err(PollingError::Other(code))
    }
}

/// The MTU with the given number in the verbs interface: 1 to 5 for 256
/// to 4096 bytes.
pub fn u32_to_mtu(mtu: u32) -> (r: Option<Mtu>)
    ensures
        r == match mtu {
            1u32 => Some(Mtu::Mtu256),
            2u32 => Some(Mtu::Mtu512),
            3u32 => Some(Mtu::Mtu1024),
            4u32 => Some(Mtu::Mtu2048),
            5u32 => Some(Mtu::Mtu4096),
            _ => None::<Mtu>,
        },
{
    match mtu {
        1 => Some(Mtu::Mtu256),
        2 => Some(Mtu::Mtu512),
        3 => Some(Mtu::Mtu1024),
        4 => Some(Mtu::Mtu2048),
        5 => Some(Mtu::Mtu4096),
        _ => None,
    }
}

} // verus!
