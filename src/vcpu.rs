use vstd::prelude::*;

verus! {

/// Success exit code.
pub const FC_EXIT_CODE_OK: u8 = 0;
/// Generic error exit code.
pub const FC_EXIT_CODE_GENERIC_ERROR: u8 = 1;
/// An error that sound program logic does not produce.
pub const FC_EXIT_CODE_UNEXPECTED_ERROR: u8 = 2;
/// Shut down after a restricted system call.
pub const FC_EXIT_CODE_BAD_SYSCALL: u8 = 148;
/// Shut down after `SIGBUS`.
pub const FC_EXIT_CODE_SIGBUS: u8 = 149;
/// Shut down after `SIGSEGV`.
pub const FC_EXIT_CODE_SIGSEGV: u8 = 150;
/// Bad configuration of the microVM's resources.
pub const FC_EXIT_CODE_BAD_CONFIGURATION: u8 = 151;
/// Command line arguments could not be parsed.
pub const FC_EXIT_CODE_ARG_PARSING: u8 = 152;

/// The first exit code that a vCPU reported, in vCPU order.
pub open spec fn first_exit_code(reported: Seq<Option<u8>>) -> Option<u8>
    decreases reported.len(),
{
    if reported.len() == 0 {
        None
    } else if reported[0] is Some {
        reported[0]
    } else {
        first_exit_code(reported.drop_first())
    }
}

/// The process's exit code once the exit event fired: the first code a vCPU
/// reported, else success (the guest asked to stop through the i8042
/// device).
pub fn exit_code(reported: &Vec<Option<u8>>) -> (r: u8)
    ensures
        r == match first_exit_code(reported@) {
            Some(c) => c,
            None => FC_EXIT_CODE_OK,
        },
{
    let mut i: usize = 0;
    assert(reported@.subrange(0, reported@.len() as int) =~= reported@);
    while i < reported.len()
        invariant
            i <= reported@.len(),
            first_exit_code(reported@) == first_exit_code(
                reported@.subrange(i as int, reported@.len() as int),
            ),
        decreases reported@.len() - i,
    {
        let ghost rest = reported@.subrange(i as int, reported@.len() as int);
        assert(rest.drop_first() =~= reported@.subrange(i + 1, reported@.len() as int));
        if let Some(c) = reported[i] {
            return c;
        }
        i = i + 1;
    }
    FC_EXIT_CODE_OK
}

/// The port a guest writes to when its userland has booted.
pub const MAGIC_IOPORT_SIGNAL_GUEST_BOOT_COMPLETE: u16 = 0x03f0;

/// The byte it writes there.
pub const MAGIC_VALUE_SIGNAL_GUEST_BOOT_COMPLETE: u8 = 123;

/// Why the guest's vCPU returned to the monitor, with what the policy needs
/// of the exit's data.
#[derive(Clone, Copy, Debug, PartialEq, Eq, Structural)]
pub enum VcpuExit {
    IoIn(u16),
    /// A port write: the port and the first byte written, if any.
    IoOut(u16, Option<u8>),
    MmioRead(u64),
    MmioWrite(u64),
    Hlt,
    Shutdown,
    FailEntry,
    InternalError,
    /// Any other exit reason.
    Other,
}

/// What running the vCPU gave: an exit, or an error with its errno.
#[derive(Clone, Copy, Debug, PartialEq, Eq, Structural)]
pub enum VcpuRunResult {
    Exit(VcpuExit),
    Failed(i32),
}

/// What the vCPU thread does next.
#[derive(Clone, Copy, Debug, PartialEq, Eq, Structural)]
pub enum VcpuAction {
    /// Read from the port I/O bus.
    ReadIoBus(u64),
    /// Write to the port I/O bus; `boot_complete` where the write is the
    /// guest's boot-complete signal, to be logged first.
    WriteIoBus(u64, bool),
    ReadMmioBus(u64),
    WriteMmioBus(u64),
    /// Run the vCPU again at once.
    Retry,
    /// Leave the run loop; `failure` where the exit counts as a failure.
    Stop(bool),
}

/// Relies on `libc::EAGAIN`, the errno of a call to be tried again: 11 on
/// Linux.
#[verifier::external_body]
fn errno_again() -> (r: i32)
    ensures
        r == 11,
{
    libc::EAGAIN
}

/// Relies on `libc::EINTR`, the errno of a call interrupted by a signal: 4 on
/// Linux.
#[verifier::external_body]
fn errno_interrupted() -> (r: i32)
    ensures
        r == 4,
{
    libc::EINTR
}

/// The exit policy: bus accesses are served; a halt or shutdown stops the
/// vCPU cleanly; a failed entry, an internal error, any other exit and any
/// run error but `EAGAIN` or `EINTR` stop it as a failure; those two are
/// retried.
pub open spec fn vcpu_action_spec(r: VcpuRunResult) -> VcpuAction {
    match r {
        VcpuRunResult::Exit(e) => match e {
            VcpuExit::IoIn(port) => VcpuAction::ReadIoBus(port as u64),
            VcpuExit::IoOut(port, first) => VcpuAction::WriteIoBus(
                port as u64,
                port == MAGIC_IOPORT_SIGNAL_GUEST_BOOT_COMPLETE && first == Some(
                    MAGIC_VALUE_SIGNAL_GUEST_BOOT_COMPLETE,
                ),
            ),
            VcpuExit::MmioRead(addr) => VcpuAction::ReadMmioBus(addr),
            VcpuExit::MmioWrite(addr) => VcpuAction::WriteMmioBus(addr),
            VcpuExit::Hlt => VcpuAction::Stop(false),
            VcpuExit::Shutdown => VcpuAction::Stop(false),
            _ => VcpuAction::Stop(true),
        },
        VcpuRunResult::Failed(errno) => if errno == 11 || errno == 4 {
            VcpuAction::Retry
        } else {
            VcpuAction::Stop(true)
        },
    }
}

/// Decides what to do with the result of one run of the vCPU.
pub fn vcpu_action(r: VcpuRunResult) -> (a: VcpuAction)
    ensures
        a == vcpu_action_spec(r),
{
    match r {
        VcpuRunResult::Exit(e) => match e {
            VcpuExit::IoIn(port) => VcpuAction::ReadIoBus(port as u64),
            VcpuExit::IoOut(port, first) => {
                let boot_complete = port == MAGIC_IOPORT_SIGNAL_GUEST_BOOT_COMPLETE && match first {
                    Some(b) => b == MAGIC_VALUE_SIGNAL_GUEST_BOOT_COMPLETE,
                    None => false,
                };
                VcpuAction::WriteIoBus(port as u64, boot_complete)
            },
            VcpuExit::MmioRead(addr) => VcpuAction::ReadMmioBus(addr),
            VcpuExit::MmioWrite(addr) => VcpuAction::WriteMmioBus(addr),
            VcpuExit::Hlt => VcpuAction::Stop(false),
            VcpuExit::Shutdown => VcpuAction::Stop(false),
            _ => VcpuAction::Stop(true),
        },
        VcpuRunResult::Failed(errno) => {
            if errno == errno_again() || errno == errno_interrupted() {
                VcpuAction::Retry
            } else {
                VcpuAction::Stop(true)
            }
        },
    }
}

/// The guest's boot time from the start request to the boot-complete
/// signal, in microseconds and in milliseconds.
pub fn boot_time(now_ns: u64, start_ns: u64) -> (r: (u64, u64))
    requires
        start_ns <= now_ns,
    ensures
        r.0 == (now_ns - start_ns) / 1000,
        r.1 == (now_ns - start_ns) / 1_000_000,
{
    let elapsed = now_ns - start_ns;
    (elapsed / 1000, elapsed / 1_000_000)
}

} // verus!
