//! The completion port: a queue of completion entries kept by the system.
//!
//! Threads wait on the port for entries; an entry stands for a finished
//! asynchronous operation or has been posted by hand. Posting by hand is how
//! a waiting thread is woken with data of the application's choosing.
use vstd::prelude::*;

verus! {

/// The handle that stands for no handle where the system expects a file.
pub const INVALID_HANDLE_VALUE: u64 = 0xFFFF_FFFF_FFFF_FFFF;

/// The null handle.
pub const NULL_HANDLE: u64 = 0;

/// The timeout, in milliseconds, that waits without limit.
pub const INFINITE: u32 = 0xFFFF_FFFF;

/// The context record of an asynchronous operation. The port carries it
/// through and never looks inside. Whoever posts one keeps it alive until a
/// wait has handed it back.
#[derive(Copy, Clone, Debug, PartialEq, Eq, Structural)]
pub struct OVERLAPPED {
    pub Internal: u64,
    pub InternalHigh: u64,
    pub Offset: u32,
    pub OffsetHigh: u32,
    /// A handle, or zero for none.
    pub hEvent: u64,
}

/// A completion entry: what a wait hands out and what a post puts in.
#[derive(Copy, Clone, Debug, PartialEq, Eq)]
pub struct Status {
    pub byte_count: u32,
    pub completion_key: u64,
    pub overlapped: Option<OVERLAPPED>,
}

/// A call into the system's completion port interface, with every argument
/// fixed.
#[derive(Copy, Clone, Debug, PartialEq, Eq)]
pub enum PortCall {
    /// Create a port, or tie `file_handle` to `existing_port`.
    Create { file_handle: u64, existing_port: u64, completion_key: u64, max_threads: u32 },
    /// Wait on `port` for an entry, for at most `timeout_ms` milliseconds.
    GetStatus { port: u64, timeout_ms: u32 },
    /// Put an entry into the queue of `port`.
    PostStatus { port: u64, byte_count: u32, completion_key: u64, overlapped: Option<OVERLAPPED> },
    /// Close `handle`.
    Close { handle: u64 },
}

/// What the system answered to a wait.
#[derive(Copy, Clone, Debug, PartialEq, Eq)]
pub struct WaitReply {
    /// Zero when the wait failed or timed out.
    pub success: i32,
    pub byte_count: u32,
    pub completion_key: u64,
    /// The context record that came with the entry, if one did.
    pub overlapped: Option<OVERLAPPED>,
}

/// Why a port could not be had.
#[derive(Copy, Clone, Debug, PartialEq, Eq, Structural)]
pub enum PortError {
    /// The system handed back no handle.
    PortCreationFailed,
}

/// An open completion port. It owns one handle.
#[derive(Debug)]
pub struct Port {
    handle: u64,
}

impl Port {
    /// The handle that this port owns.
    pub closed spec fn handle(&self) -> u64 {
        self.handle
    }

    /// The call that creates a port tied to no file, with `max_threads`
    /// threads allowed to run at once; zero leaves that number to the system.
    pub open spec fn create_call(max_threads: u32) -> PortCall {
        PortCall::Create {
            file_handle: INVALID_HANDLE_VALUE,
            existing_port: NULL_HANDLE,
            completion_key: 0,
            max_threads,
        }
    }

    /// The call that posts `status` to the port with handle `port`.
    pub open spec fn post_call(port: u64, status: Status) -> PortCall {
        PortCall::PostStatus {
            port,
            byte_count: status.byte_count,
            completion_key: status.completion_key,
            overlapped: status.overlapped,
        }
    }

    /// What the answer to a wait means: nothing when the wait failed or
    /// timed out, which this layer does not tell apart, else the entry with
    /// its byte count, its key and the context record that came with it.
    pub open spec fn status_of(reply: WaitReply) -> Option<Status> {
        if reply.success == 0 {
            None
        } else {
            Some(
                Status {
                    byte_count: reply.byte_count,
                    completion_key: reply.completion_key,
                    overlapped: reply.overlapped,
                },
            )
        }
    }

    /// The call that creates a port and leaves the number of threads to the
    /// system.
    pub fn new() -> (call: PortCall)
        ensures
            call == Port::create_call(0),
    {
        Port::new_capped(0)
    }

    /// The call that creates a port on which at most `max_threads` threads
    /// run at once.
    pub fn new_capped(max_threads: u32) -> (call: PortCall)
        ensures
            call == Port::create_call(max_threads),
    {
        PortCall::Create {
            file_handle: INVALID_HANDLE_VALUE,
            existing_port: NULL_HANDLE,
            completion_key: 0,
            max_threads,
        }
    }

    /// Reads the answer to a create call: the null handle is a failure,
    /// any other handle becomes a port that owns it.
    pub fn opened(handle: u64) -> (port: Result<Port, PortError>)
        ensures
            port is Err <==> handle == NULL_HANDLE,
            port is Err ==> port->Err_0 == PortError::PortCreationFailed,
            port is Ok ==> port->Ok_0.handle() == handle,
    {
        if handle == NULL_HANDLE {
            Err(PortError::PortCreationFailed)
        } else {
            Ok(Port { handle })
        }
    }

    /// The call that waits for an entry without limit.
    pub fn get_status(&self) -> (call: PortCall)
        ensures
            call == (PortCall::GetStatus { port: self.handle(), timeout_ms: INFINITE }),
    {
        self.get_status_timeout(INFINITE)
    }

    /// The call that waits for an entry for at most `timeout_ms`
    /// milliseconds.
    pub fn get_status_timeout(&self, timeout_ms: u32) -> (call: PortCall)
        ensures
            call == (PortCall::GetStatus { port: self.handle(), timeout_ms }),
    {
        PortCall::GetStatus { port: self.handle, timeout_ms }
    }

    /// Reads the answer to a wait.
    pub fn retrieved(reply: WaitReply) -> (status: Option<Status>)
        ensures
            status == Port::status_of(reply),
            status is None <==> reply.success == 0,
    {
        if reply.success == 0 {
            None
        } else {
            Some(
                Status {
                    byte_count: reply.byte_count,
                    completion_key: reply.completion_key,
                    overlapped: reply.overlapped,
                },
            )
        }
    }

    /// The call that puts `status` into the queue. The entry carries the
    /// byte count, the key and the context record exactly as given.
    pub fn post_status(&self, status: Status) -> (call: PortCall)
        ensures
            call == Port::post_call(self.handle(), status),
    {
        PortCall::PostStatus {
            port: self.handle,
            byte_count: status.byte_count,
            completion_key: status.completion_key,
            overlapped: status.overlapped,
        }
    }

    /// Reads the answer to a post: true exactly when the system reports
    /// success, which it does with a number other than zero.
    pub fn posted(result: i32) -> (ok: bool)
        ensures
            ok == (result != 0),
    {
        result != 0
    }

    /// Gives the port up for the one call that closes its handle.
    pub fn close(self) -> (call: PortCall)
        ensures
            call == (PortCall::Close { handle: self.handle() }),
    {
        PortCall::Close { handle: self.handle }
    }
}

/// An entry goes through the library unchanged in both directions.
///
/// Take the call that posts `status`. If a later wait succeeds and the
/// system hands back the byte count, the key and the context record that
/// the call carried, then what the wait yields is `status` itself.
pub proof fn lemma_posted_entry_comes_back(port: u64, status: Status, reply: WaitReply)
    requires
        reply.success != 0,
        Port::post_call(port, status) == (PortCall::PostStatus {
            port,
            byte_count: reply.byte_count,
            completion_key: reply.completion_key,
            overlapped: reply.overlapped,
        }),
    ensures
        Port::status_of(reply) == Some(status),
{
}

/// A wait that the system reports as failed or timed out yields nothing,
/// whatever else the reply holds.
pub proof fn lemma_failed_wait_yields_nothing(reply: WaitReply)
    requires
        reply.success == 0,
    ensures
        Port::status_of(reply) is None,
{
}

} // verus!
