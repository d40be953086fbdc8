//! The trap dispatcher.
//!
//! Every trap lands in the external trampoline, which saves the register
//! frame on the kernel stack and calls the dispatcher with the frame and the
//! classified cause.  The dispatcher decides, and is the only place that
//! decides, whether the trapped app resumes (the returning-syscall path),
//! the batch advances past it (exit, faults, anything unrecognized), the
//! kernel shuts down cleanly (table exhausted), or the machine halts (a
//! fatal-kernel condition).  On the machine the cause and trap value come
//! from the `scause` and `stval` registers; the shell reads them and passes
//! their plain values in.

use crate::batch::{
    loading_line, run_next_app, BatchKernel, RunOutcome, APP_BASE_ADDR, USER_STACK_SIZE,
};
use crate::ctx::{initial_frame, FrameView, TrapContext, REG_A0, REG_A1, REG_A2, REG_A7};
use crate::digits::dec_rep;
use crate::syscall::{exit_line, syscall, syscall_result, window_bytes, KernelFault, SyscallOutcome};
use vstd::prelude::*;
use vstd::string::StringSliceAdditionalSpecFns;

verus! {

/// Synchronous exception causes the dispatcher distinguishes.
#[derive(Clone, Copy, PartialEq, Eq, Structural, Debug)]
pub enum Exception {
    /// An environment call from user mode: a syscall.
    UserEnvCall,
    /// A store access fault.
    StoreFault,
    /// A store page fault.
    StorePageFault,
    /// An illegal instruction.
    IllegalInstruction,
    /// Any other exception, carrying its raw cause code.
    Other(usize),
}

/// Asynchronous interrupt causes the dispatcher distinguishes.
#[derive(Clone, Copy, PartialEq, Eq, Structural, Debug)]
pub enum Interrupt {
    /// A user-mode timer interrupt.  This build arms no timer; if one ever
    /// fires it is handled by the same log-and-skip policy as any other
    /// unrecognized interrupt rather than crashing the kernel.
    UserTimer,
    /// Any other interrupt, carrying its raw cause code.
    Other(usize),
}

/// A classified trap cause: exception or interrupt first, then the cause.
#[derive(Clone, Copy, PartialEq, Eq, Structural, Debug)]
pub enum Trap {
    Exception(Exception),
    Interrupt(Interrupt),
}

/// The classification of one raw cause-register value, as the RISC-V
/// privileged specification assigns the codes.
pub open spec fn spec_classify(interrupt: bool, code: usize) -> Trap {
    if interrupt {
        if code == 4 {
            Trap::Interrupt(Interrupt::UserTimer)
        } else {
            Trap::Interrupt(Interrupt::Other(code))
        }
    } else {
        if code == 8 {
            Trap::Exception(Exception::UserEnvCall)
        } else if code == 7 {
            Trap::Exception(Exception::StoreFault)
        } else if code == 15 {
            Trap::Exception(Exception::StorePageFault)
        } else if code == 2 {
            Trap::Exception(Exception::IllegalInstruction)
        } else {
            Trap::Exception(Exception::Other(code))
        }
    }
}

impl Trap {
    /// Classifies a raw cause value: `interrupt` is the cause register's
    /// interrupt bit, `code` its cause code.
    pub fn classify(interrupt: bool, code: usize) -> (r: Trap)
        ensures
            r == spec_classify(interrupt, code),
    {
        if interrupt {
            if code == 4 {
                Trap::Interrupt(Interrupt::UserTimer)
            } else {
                Trap::Interrupt(Interrupt::Other(code))
            }
        } else {
            if code == 8 {
                Trap::Exception(Exception::UserEnvCall)
            } else if code == 7 {
                Trap::Exception(Exception::StoreFault)
            } else if code == 15 {
                Trap::Exception(Exception::StorePageFault)
            } else if code == 2 {
                Trap::Exception(Exception::IllegalInstruction)
            } else {
                Trap::Exception(Exception::Other(code))
            }
        }
    }
}

/// How the dispatcher answered a trap.  Only a syscall that returns a value
/// resumes the trapped app; every other path discards the frame.
#[derive(Clone, Copy, PartialEq, Eq, Structural, Debug)]
pub enum TrapOutcome {
    /// The mutated frame is returned to the trampoline for resumption.
    Resume,
    /// The current app is done with; the next one was loaded and launched.
    Launched,
    /// The table is exhausted: the kernel shuts down cleanly.
    Shutdown,
    /// A fatal-kernel condition: the machine halts.
    Halt(KernelFault),
}

/// The diagnostic line for a store fault that kills the current app.
pub open spec fn page_fault_line() -> Seq<u8> {
    "[kernel] PageFault in application, kernel killed it.\n".spec_bytes()
}

/// The diagnostic line for an illegal instruction that kills the current app.
pub open spec fn illegal_instruction_line() -> Seq<u8> {
    "[kernel] IllegalInstruction in application, kernel killed it.\n".spec_bytes()
}

/// The diagnostic lines for an exception the kernel does not implement.
pub open spec fn unsupported_exception_line(code: usize, tval: usize) -> Seq<u8> {
    "Unsupported trap: Exception(".spec_bytes() + dec_rep(code as nat) + "), tval: ".spec_bytes()
        + dec_rep(tval as nat)
        + ".\nKernel skips the exception as it is not implemented.\n".spec_bytes()
}

/// The diagnostic lines for an interrupt the kernel does not implement.
pub open spec fn unsupported_interrupt_line(code: usize, tval: usize) -> Seq<u8> {
    "Unsupported trap: Interrupt(".spec_bytes() + dec_rep(code as nat) + "), tval: ".spec_bytes()
        + dec_rep(tval as nat)
        + ".\nKernel skips the interrupt as it is not implemented.\n".spec_bytes()
}

/// The raw cause code of an interrupt, as the hardware numbers them.
pub open spec fn interrupt_code(intr: Interrupt) -> usize {
    match intr {
        Interrupt::UserTimer => 4,
        Interrupt::Other(code) => code,
    }
}

/// The current app was killed: after logging `line`, the batch advanced.
/// With apps left the next one is loaded and launched; with the table
/// exhausted the kernel shuts down cleanly, and never reads out of bounds.
pub open spec fn kill_step(
    pre: BatchKernel,
    post: BatchKernel,
    line: Seq<u8>,
    r: TrapOutcome,
) -> bool {
    &&& post.wf()
    &&& post.frame_env_unchanged(&pre)
    &&& if pre.cursor() < pre.napps() {
        &&& r == TrapOutcome::Launched
        &&& post.cursor() == pre.cursor() + 1
        &&& post.window@ == pre.mgr().image_in_window(&pre.store, pre.cursor() as int)
        &&& post.console@ == pre.console@ + line + loading_line(pre.cursor() as nat)
        &&& post.kernel_stack.frame is Some
        &&& post.kernel_stack.frame.unwrap()@ == initial_frame(
            APP_BASE_ADDR,
            (pre.user_stack.base + USER_STACK_SIZE) as usize,
        )
    } else {
        &&& r == TrapOutcome::Shutdown
        &&& post.cursor() == pre.cursor()
        &&& post.window@ == pre.window@
        &&& post.console@ == pre.console@ + line
        &&& post.kernel_stack == pre.kernel_stack
    }
}

/// The syscall path: the saved program counter moves past the trapping
/// instruction, the service runs on the marshalled arguments, and the
/// decision follows its outcome — resume with the return value written
/// back, advance the batch on exit, halt on a fatal condition.
pub open spec fn syscall_step(
    pre: BatchKernel,
    post: BatchKernel,
    pre_ctx: FrameView,
    post_ctx: FrameView,
    r: TrapOutcome,
) -> bool {
    let id = pre_ctx.regs[17];
    let a0 = pre_ctx.regs[10];
    let a1 = pre_ctx.regs[11];
    let a2 = pre_ctx.regs[12];
    &&& post_ctx.sepc == pre_ctx.sepc + 4
    &&& post_ctx.sstatus == pre_ctx.sstatus
    &&& match syscall_result(pre.window@, id, a0, a1, a2) {
        SyscallOutcome::Return(v) => {
            &&& r == TrapOutcome::Resume
            &&& post_ctx.regs == pre_ctx.regs.update(10, v as usize)
            &&& post.wf()
            &&& post.frame_env_unchanged(&pre)
            &&& post.cursor() == pre.cursor()
            &&& post.window@ == pre.window@
            &&& post.kernel_stack == pre.kernel_stack
            &&& post.console@ == pre.console@ + window_bytes(pre.window@, a1, a2)
        },
        SyscallOutcome::Exit(code) => {
            &&& post_ctx.regs == pre_ctx.regs
            &&& kill_step(pre, post, exit_line(code), r)
        },
        SyscallOutcome::Fatal(f) => {
            &&& r == TrapOutcome::Halt(f)
            &&& post_ctx.regs == pre_ctx.regs
            &&& post.wf()
            &&& post.frame_env_unchanged(&pre)
            &&& post.cursor() == pre.cursor()
            &&& post.window@ == pre.window@
            &&& post.console@ == pre.console@
            &&& post.kernel_stack == pre.kernel_stack
        },
    }
}

/// Handles a synchronous exception.
fn handle_exception(
    kernel: &mut BatchKernel,
    ctx: &mut TrapContext,
    exc: Exception,
    tval: usize,
) -> (r: TrapOutcome)
    requires
        old(kernel).wf(),
        old(ctx).wf(),
        exc == Exception::UserEnvCall ==> old(ctx)@.sepc + 4 <= usize::MAX,
    ensures
        final(kernel).wf(),
        final(ctx).wf(),
        final(kernel).frame_env_unchanged(old(kernel)),
        final(kernel).cursor() >= old(kernel).cursor(),
        exc == Exception::UserEnvCall ==> syscall_step(
            *old(kernel),
            *final(kernel),
            old(ctx)@,
            final(ctx)@,
            r,
        ),
        exc == Exception::StoreFault || exc == Exception::StorePageFault ==> kill_step(
            *old(kernel),
            *final(kernel),
            page_fault_line(),
            r,
        ) && final(ctx)@ == old(ctx)@,
        exc == Exception::IllegalInstruction ==> kill_step(
            *old(kernel),
            *final(kernel),
            illegal_instruction_line(),
            r,
        ) && final(ctx)@ == old(ctx)@,
        exc matches Exception::Other(code) ==> kill_step(
            *old(kernel),
            *final(kernel),
            unsupported_exception_line(code, tval),
            r,
        ) && final(ctx)@ == old(ctx)@,
{
    match exc {
        Exception::UserEnvCall => {
            ctx.sepc = ctx.sepc + 4;
            let id = ctx.reg(REG_A7);
            let a0 = ctx.reg(REG_A0);
            let a1 = ctx.reg(REG_A1);
            let a2 = ctx.reg(REG_A2);
            let args: [usize; 3] = [a0, a1, a2];
            let res = syscall(id, args, &kernel.window, &mut kernel.console);
            match res {
                SyscallOutcome::Return(v) => {
                    ctx.set_reg(REG_A0, v as usize);
                    TrapOutcome::Resume
                },
                SyscallOutcome::Exit(code) => {
                    let run = run_next_app(kernel);
                    proof {
                        if old(kernel).cursor() < old(kernel).napps() {
                            assert(kernel.console@ =~= old(kernel).console@ + exit_line(code)
                                + loading_line(old(kernel).cursor() as nat));
                        }
                    }
                    match run {
                        RunOutcome::Launched => TrapOutcome::Launched,
                        RunOutcome::Shutdown => TrapOutcome::Shutdown,
                    }
                },
                SyscallOutcome::Fatal(f) => TrapOutcome::Halt(f),
            }
        },
        Exception::StoreFault | Exception::StorePageFault => {
            kernel.console.write_str("[kernel] PageFault in application, kernel killed it.\n");
            let run = run_next_app(kernel);
            proof {
                if old(kernel).cursor() < old(kernel).napps() {
                    assert(kernel.console@ =~= old(kernel).console@ + page_fault_line()
                        + loading_line(old(kernel).cursor() as nat));
                }
            }
            match run {
                RunOutcome::Launched => TrapOutcome::Launched,
                RunOutcome::Shutdown => TrapOutcome::Shutdown,
            }
        },
        Exception::IllegalInstruction => {
            kernel.console.write_str(
                "[kernel] IllegalInstruction in application, kernel killed it.\n",
            );
            let run = run_next_app(kernel);
            proof {
                if old(kernel).cursor() < old(kernel).napps() {
                    assert(kernel.console@ =~= old(kernel).console@ + illegal_instruction_line()
                        + loading_line(old(kernel).cursor() as nat));
                }
            }
            match run {
                RunOutcome::Launched => TrapOutcome::Launched,
                RunOutcome::Shutdown => TrapOutcome::Shutdown,
            }
        },
        Exception::Other(code) => {
            kernel.console.write_str("Unsupported trap: Exception(");
            kernel.console.write_dec(code);
            kernel.console.write_str("), tval: ");
            kernel.console.write_dec(tval);
            kernel.console.write_str(".\nKernel skips the exception as it is not implemented.\n");
            assert(kernel.console@ =~= old(kernel).console@ + unsupported_exception_line(
                code,
                tval,
            ));
            let run = run_next_app(kernel);
            proof {
                if old(kernel).cursor() < old(kernel).napps() {
                    assert(kernel.console@ =~= old(kernel).console@ + unsupported_exception_line(
                        code,
                        tval,
                    ) + loading_line(old(kernel).cursor() as nat));
                }
            }
            match run {
                RunOutcome::Launched => TrapOutcome::Launched,
                RunOutcome::Shutdown => TrapOutcome::Shutdown,
            }
        },
    }
}

/// Handles an asynchronous interrupt.  No interrupt source is armed in this
/// build, the timer included, so every one is logged and the current app
/// skipped — the same graceful-degradation policy as unknown exceptions.
fn handle_interrupt(
    kernel: &mut BatchKernel,
    ctx: &mut TrapContext,
    intr: Interrupt,
    tval: usize,
) -> (r: TrapOutcome)
    requires
        old(kernel).wf(),
        old(ctx).wf(),
    ensures
        final(kernel).wf(),
        final(ctx).wf(),
        final(kernel).frame_env_unchanged(old(kernel)),
        final(kernel).cursor() >= old(kernel).cursor(),
        kill_step(
            *old(kernel),
            *final(kernel),
            unsupported_interrupt_line(interrupt_code(intr), tval),
            r,
        ),
        final(ctx)@ == old(ctx)@,
{
    let code: usize = match intr {
        Interrupt::UserTimer => 4,
        Interrupt::Other(c) => c,
    };
    kernel.console.write_str("Unsupported trap: Interrupt(");
    kernel.console.write_dec(code);
    kernel.console.write_str("), tval: ");
    kernel.console.write_dec(tval);
    kernel.console.write_str(".\nKernel skips the interrupt as it is not implemented.\n");
    assert(kernel.console@ =~= old(kernel).console@ + unsupported_interrupt_line(code, tval));
    let run = run_next_app(kernel);
    proof {
        if old(kernel).cursor() < old(kernel).napps() {
            assert(kernel.console@ =~= old(kernel).console@ + unsupported_interrupt_line(
                code,
                tval,
            ) + loading_line(old(kernel).cursor() as nat));
        }
    }
    match run {
        RunOutcome::Launched => TrapOutcome::Launched,
        RunOutcome::Shutdown => TrapOutcome::Shutdown,
    }
}

/// Routes one classified trap.
///
/// The returning-syscall path is the only one that resumes the trapped app:
/// it advances the saved program counter past the trapping instruction,
/// runs the service on the marshalled arguments and writes the result back.
/// Faults and unrecognized causes terminate the current app and advance the
/// batch; a fatal-kernel condition halts.  The cursor never moves backward.
pub fn trap_handler(kernel: &mut BatchKernel, ctx: &mut TrapContext, cause: Trap, tval: usize) -> (r:
    TrapOutcome)
    requires
        old(kernel).wf(),
        old(ctx).wf(),
        cause == Trap::Exception(Exception::UserEnvCall) ==> old(ctx)@.sepc + 4 <= usize::MAX,
    ensures
        final(kernel).wf(),
        final(ctx).wf(),
        final(kernel).frame_env_unchanged(old(kernel)),
        final(kernel).cursor() >= old(kernel).cursor(),
        cause == Trap::Exception(Exception::UserEnvCall) ==> syscall_step(
            *old(kernel),
            *final(kernel),
            old(ctx)@,
            final(ctx)@,
            r,
        ),
        cause == Trap::Exception(Exception::StoreFault) || cause == Trap::Exception(
            Exception::StorePageFault,
        ) ==> kill_step(*old(kernel), *final(kernel), page_fault_line(), r) && final(ctx)@ == old(
            ctx,
        )@,
        cause == Trap::Exception(Exception::IllegalInstruction) ==> kill_step(
            *old(kernel),
            *final(kernel),
            illegal_instruction_line(),
            r,
        ) && final(ctx)@ == old(ctx)@,
        cause matches Trap::Exception(Exception::Other(code)) ==> kill_step(
            *old(kernel),
            *final(kernel),
            unsupported_exception_line(code, tval),
            r,
        ) && final(ctx)@ == old(ctx)@,
        cause matches Trap::Interrupt(intr) ==> kill_step(
            *old(kernel),
            *final(kernel),
            unsupported_interrupt_line(interrupt_code(intr), tval),
            r,
        ) && final(ctx)@ == old(ctx)@,
{
    match cause {
        Trap::Exception(exc) => handle_exception(kernel, ctx, exc, tval),
        Trap::Interrupt(intr) => handle_interrupt(kernel, ctx, intr, tval),
    }
}

} // verus!
