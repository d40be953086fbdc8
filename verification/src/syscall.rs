//! The syscall service: decodes and executes the two supported system calls
//! on behalf of a trapped app.
//!
//! `write` is supported on standard output only; its buffer is a borrowed
//! byte range of the shared address space, which the model maps as the load
//! window, and must decode as text.  `exit` logs the code and hands control
//! to the batch driver.  Everything else is fatal to the kernel: there is no
//! generic "unsupported syscall returns an error" path.

use crate::batch::{LoadWindow, APP_BASE_ADDR, APP_SIZE_LIMIT};
use crate::console::Console;
use crate::digits::dec_rep_signed;
use vstd::prelude::*;
use vstd::string::StringSliceAdditionalSpecFns;
use vstd::utf8::valid_utf8;

verus! {

/// Syscall number of `write`.
pub const SYSCALL_WRITE: usize = 64;

/// Syscall number of `exit`.
pub const SYSCALL_EXIT: usize = 93;

/// The one file descriptor `write` supports: standard output.
pub const FD_STDOUT: usize = 1;

/// A condition the kernel cannot recover from: on the machine each of these
/// stops the whole system.  The service reports it to the dispatcher, whose
/// caller halts.
#[derive(Clone, Copy, PartialEq, Eq, Structural, Debug)]
pub enum KernelFault {
    /// A syscall number outside the supported set.
    UnknownSyscall(usize),
    /// A write to any descriptor but standard output.
    UnsupportedFd(usize),
    /// A write buffer that does not decode as UTF-8 text.
    InvalidText,
    /// A write buffer outside the load window, the only app memory the
    /// model maps; carries the buffer address.
    BadBuffer(usize),
}

/// What one syscall decided.
#[derive(Clone, Copy, PartialEq, Eq, Structural, Debug)]
pub enum SyscallOutcome {
    /// The signed value to write back into the app's return register; the
    /// trapped app resumes.
    Return(isize),
    /// The app called `exit` with this code; the batch advances past it.
    Exit(i32),
    /// A fatal-kernel condition.
    Fatal(KernelFault),
}

/// Whether `[ptr, ptr + len)` lies inside the load window.
pub open spec fn buffer_in_window(ptr: usize, len: usize) -> bool {
    APP_BASE_ADDR <= ptr && ptr - APP_BASE_ADDR + len <= APP_SIZE_LIMIT
}

/// The window bytes under the address range `[ptr, ptr + len)`.
pub open spec fn window_bytes(window: Seq<u8>, ptr: usize, len: usize) -> Seq<u8> {
    window.subrange(ptr - APP_BASE_ADDR, ptr - APP_BASE_ADDR + len)
}

/// Whether `write(fd, ptr, len)` succeeds against this window.
pub open spec fn write_ok(window: Seq<u8>, fd: usize, ptr: usize, len: usize) -> bool {
    fd == FD_STDOUT && buffer_in_window(ptr, len) && valid_utf8(window_bytes(window, ptr, len))
}

/// What `write(fd, ptr, len)` answers against this window.
pub open spec fn write_result(window: Seq<u8>, fd: usize, ptr: usize, len: usize) -> SyscallOutcome {
    if fd != FD_STDOUT {
        SyscallOutcome::Fatal(KernelFault::UnsupportedFd(fd))
    } else if !buffer_in_window(ptr, len) {
        SyscallOutcome::Fatal(KernelFault::BadBuffer(ptr))
    } else if !valid_utf8(window_bytes(window, ptr, len)) {
        SyscallOutcome::Fatal(KernelFault::InvalidText)
    } else {
        SyscallOutcome::Return(len as isize)
    }
}

/// The diagnostic line `exit` logs.
pub open spec fn exit_line(code: i32) -> Seq<u8> {
    "[kernel] Application exited with code ".spec_bytes() + dec_rep_signed(code as int)
        + "\n".spec_bytes()
}

/// What the service answers for syscall `id` with arguments `a0 a1 a2`.
pub open spec fn syscall_result(
    window: Seq<u8>,
    id: usize,
    a0: usize,
    a1: usize,
    a2: usize,
) -> SyscallOutcome {
    if id == SYSCALL_WRITE {
        write_result(window, a0, a1, a2)
    } else if id == SYSCALL_EXIT {
        SyscallOutcome::Exit(a0 as i32)
    } else {
        SyscallOutcome::Fatal(KernelFault::UnknownSyscall(id))
    }
}

/// Relies on `core::str::from_utf8`: it returns `Ok` exactly when the bytes
/// are valid UTF-8, the encoding vstd's own `valid_utf8` specifies.
#[verifier::external_body]
fn utf8_check(bytes: &[u8]) -> (r: bool)
    ensures
        r == valid_utf8(bytes@),
{
    core::str::from_utf8(bytes).is_ok()
}

/// Executes `write(fd, buffer, length)`.
///
/// Only standard output is accepted; the byte range must lie inside the load
/// window — the only app memory the model maps, and where a loaded image's
/// own data lives — and must decode as text.  On success exactly those bytes
/// land on the console and the byte count is answered; every failure is
/// fatal to the kernel and leaves the console untouched.
pub fn sys_write(
    fd: usize,
    buffer: usize,
    length: usize,
    window: &LoadWindow,
    console: &mut Console,
) -> (r: SyscallOutcome)
    requires
        window.wf(),
    ensures
        r == write_result(window@, fd, buffer, length),
        write_ok(window@, fd, buffer, length) ==> final(console)@ == old(console)@ + window_bytes(
            window@,
            buffer,
            length,
        ),
        !write_ok(window@, fd, buffer, length) ==> final(console)@ == old(console)@,
{
    if fd != FD_STDOUT {
        return SyscallOutcome::Fatal(KernelFault::UnsupportedFd(fd));
    }
    if buffer < APP_BASE_ADDR {
        return SyscallOutcome::Fatal(KernelFault::BadBuffer(buffer));
    }
    let off = buffer - APP_BASE_ADDR;
    if off > APP_SIZE_LIMIT || length > APP_SIZE_LIMIT - off {
        return SyscallOutcome::Fatal(KernelFault::BadBuffer(buffer));
    }
    let mut buf: Vec<u8> = Vec::new();
    let mut j: usize = 0;
    while j < length
        invariant
            j <= length,
            off + length <= APP_SIZE_LIMIT,
            window.data@.len() == APP_SIZE_LIMIT,
            buf@.len() == j,
            forall|k: int| 0 <= k < j ==> buf@[k] == window.data@[off + k],
        decreases length - j,
    {
        let b = window.data[off + j];
        buf.push(b);
        j = j + 1;
    }
    assert(buf@ =~= window_bytes(window@, buffer, length));
    if !utf8_check(buf.as_slice()) {
        return SyscallOutcome::Fatal(KernelFault::InvalidText);
    }
    console.write_bytes(buf.as_slice());
    SyscallOutcome::Return(length as isize)
}

/// Executes `exit(code)`: logs the exit code.  The dispatcher then advances
/// the batch — an exiting app is never resumed.
pub fn sys_exit(code: i32, console: &mut Console) -> (r: SyscallOutcome)
    ensures
        r == SyscallOutcome::Exit(code),
        final(console)@ == old(console)@ + exit_line(code),
{
    console.write_str("[kernel] Application exited with code ");
    console.write_dec_signed(code);
    console.write_str("\n");
    assert(console@ =~= old(console)@ + exit_line(code));
    SyscallOutcome::Exit(code)
}

/// Single entry point of the syscall service: decodes `syscall_id` and runs
/// the call on `args`.  An unknown number is fatal to the kernel.
pub fn syscall(
    syscall_id: usize,
    args: [usize; 3],
    window: &LoadWindow,
    console: &mut Console,
) -> (r: SyscallOutcome)
    requires
        window.wf(),
    ensures
        r == syscall_result(window@, syscall_id, args@[0], args@[1], args@[2]),
        r matches SyscallOutcome::Return(v) ==> final(console)@ == old(console)@ + window_bytes(
            window@,
            args@[1],
            args@[2],
        ),
        r matches SyscallOutcome::Exit(code) ==> final(console)@ == old(console)@ + exit_line(
            code,
        ),
        r is Fatal ==> final(console)@ == old(console)@,
{
    if syscall_id == SYSCALL_WRITE {
        sys_write(args[0], args[1], args[2], window, console)
    } else if syscall_id == SYSCALL_EXIT {
        sys_exit(args[0] as i32, console)
    } else {
        SyscallOutcome::Fatal(KernelFault::UnknownSyscall(syscall_id))
    }
}

} // verus!
