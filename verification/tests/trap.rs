use batch_kernel::batch::{
    init, run_next_app, AppStore, BatchKernel, RunOutcome, APP_BASE_ADDR, USER_STACK_SIZE,
};
use batch_kernel::console::Console;
use batch_kernel::ctx::{Privilege, TrapContext, REG_A0, REG_A1, REG_A2, REG_A7, REG_SP};
use batch_kernel::syscall::{KernelFault, FD_STDOUT, SYSCALL_EXIT, SYSCALL_WRITE};
use batch_kernel::trap::{trap_handler, Exception, Interrupt, Trap, TrapOutcome};
use batch_kernel::upcell::UPCell;

fn kernel_with(app0: &[u8], app1: &[u8]) -> BatchKernel {
    let base = 0x8020_0000usize;
    let mut data = Vec::new();
    data.extend_from_slice(app0);
    data.extend_from_slice(app1);
    let table = vec![base, base + app0.len(), base + app0.len() + app1.len()];
    init(2, table, AppStore { base, data }, 0x8030_0000, 0x8031_0000)
        .expect("a well-formed layout")
}

fn launched_frame(kernel: &BatchKernel) -> TrapContext {
    let f = kernel.kernel_stack.frame.as_ref().expect("a frame awaits the trampoline");
    let mut ctx = TrapContext::new(f.sepc, 0);
    for i in 0..32 {
        ctx.set_reg(i, f.regs[i]);
    }
    ctx
}

fn cursor_of(kernel: &mut BatchKernel) -> usize {
    let g = kernel.manager.lock();
    let c = g.value.get_current_app();
    kernel.manager.unlock(g);
    c
}

#[test]
fn classify_follows_the_cause_table() {
    assert_eq!(Trap::classify(false, 8), Trap::Exception(Exception::UserEnvCall));
    assert_eq!(Trap::classify(false, 7), Trap::Exception(Exception::StoreFault));
    assert_eq!(Trap::classify(false, 15), Trap::Exception(Exception::StorePageFault));
    assert_eq!(Trap::classify(false, 2), Trap::Exception(Exception::IllegalInstruction));
    assert_eq!(Trap::classify(false, 13), Trap::Exception(Exception::Other(13)));
    assert_eq!(Trap::classify(true, 4), Trap::Interrupt(Interrupt::UserTimer));
    assert_eq!(Trap::classify(true, 9), Trap::Interrupt(Interrupt::Other(9)));
}

#[test]
fn fresh_frame_is_zeroed_user_mode() {
    let ctx = TrapContext::new(0x4000, 0x9000);
    assert_eq!(ctx.sepc, 0x4000);
    assert_eq!(ctx.sstatus.spp, Privilege::User);
    assert_eq!(ctx.reg(REG_SP), 0x9000);
    for i in 0..32 {
        if i != REG_SP {
            assert_eq!(ctx.reg(i), 0);
        }
    }
}

#[test]
fn write_syscall_resumes_with_count_and_pc_past_trap() {
    let text = b"Hello, world!\n";
    let mut kernel = kernel_with(text, &[0, 0, 0, 0]);
    assert_eq!(run_next_app(&mut kernel), RunOutcome::Launched);
    let mut ctx = launched_frame(&kernel);
    let trap_site = ctx.sepc;
    ctx.set_reg(REG_A7, SYSCALL_WRITE);
    ctx.set_reg(REG_A0, FD_STDOUT);
    ctx.set_reg(REG_A1, APP_BASE_ADDR);
    ctx.set_reg(REG_A2, text.len());
    let before = kernel.console.bytes.len();

    let r = trap_handler(&mut kernel, &mut ctx, Trap::Exception(Exception::UserEnvCall), 0);

    assert_eq!(r, TrapOutcome::Resume);
    assert_eq!(ctx.reg(REG_A0), text.len());
    assert_eq!(ctx.sepc, trap_site + 4);
    assert_eq!(&kernel.console.bytes[before..], text);
}

#[test]
fn store_fault_advances_cursor_and_never_resumes() {
    let mut kernel = kernel_with(&[1, 2], &[3, 4]);
    assert_eq!(run_next_app(&mut kernel), RunOutcome::Launched);
    assert_eq!(cursor_of(&mut kernel), 1);
    let mut ctx = launched_frame(&kernel);

    let r = trap_handler(&mut kernel, &mut ctx, Trap::Exception(Exception::StoreFault), 0xdead);

    assert_ne!(r, TrapOutcome::Resume);
    assert_eq!(r, TrapOutcome::Launched);
    assert_eq!(cursor_of(&mut kernel), 2);
    let log = String::from_utf8(kernel.console.bytes.clone()).unwrap();
    assert!(log.contains("[kernel] PageFault in application, kernel killed it.\n"));
}

#[test]
fn illegal_instruction_kills_the_app() {
    let mut kernel = kernel_with(&[1], &[2]);
    assert_eq!(run_next_app(&mut kernel), RunOutcome::Launched);
    let mut ctx = launched_frame(&kernel);
    let r = trap_handler(&mut kernel, &mut ctx, Trap::Exception(Exception::IllegalInstruction), 0);
    assert_eq!(r, TrapOutcome::Launched);
    let log = String::from_utf8(kernel.console.bytes.clone()).unwrap();
    assert!(log.contains("[kernel] IllegalInstruction in application, kernel killed it.\n"));
}

#[test]
fn unknown_exception_skips_app_without_kernel_panic() {
    let mut kernel = kernel_with(&[1], &[2]);
    assert_eq!(run_next_app(&mut kernel), RunOutcome::Launched);
    let mut ctx = launched_frame(&kernel);
    let r = trap_handler(&mut kernel, &mut ctx, Trap::Exception(Exception::Other(13)), 77);
    assert_eq!(r, TrapOutcome::Launched);
    let log = String::from_utf8(kernel.console.bytes.clone()).unwrap();
    assert!(log.contains("Unsupported trap: Exception(13), tval: 77.\n"));
    assert!(log.contains("Kernel skips the exception as it is not implemented.\n"));
}

#[test]
fn interrupts_are_logged_and_skip_the_app() {
    let mut kernel = kernel_with(&[1], &[2]);
    assert_eq!(run_next_app(&mut kernel), RunOutcome::Launched);
    let mut ctx = launched_frame(&kernel);
    let r = trap_handler(&mut kernel, &mut ctx, Trap::Interrupt(Interrupt::UserTimer), 0);
    assert_eq!(r, TrapOutcome::Launched);
    let log = String::from_utf8(kernel.console.bytes.clone()).unwrap();
    assert!(log.contains("Unsupported trap: Interrupt(4), tval: 0.\n"));
    assert!(log.contains("Kernel skips the interrupt as it is not implemented.\n"));
}

#[test]
fn unknown_syscall_number_halts_the_kernel() {
    let mut kernel = kernel_with(&[1], &[2]);
    assert_eq!(run_next_app(&mut kernel), RunOutcome::Launched);
    let mut ctx = launched_frame(&kernel);
    ctx.set_reg(REG_A7, 999);
    let r = trap_handler(&mut kernel, &mut ctx, Trap::Exception(Exception::UserEnvCall), 0);
    assert_eq!(r, TrapOutcome::Halt(KernelFault::UnknownSyscall(999)));
    // The frame still moved past the trapping instruction before the halt.
    assert_eq!(ctx.sepc, APP_BASE_ADDR + 4);
}

#[test]
fn two_app_batch_runs_end_to_end() {
    // App 0 prints a greeting and exits with code 0; app 1 store-faults at
    // once.  The kernel must print the greeting, observe the exit, load app
    // 1, log the fault, find the table exhausted and shut down cleanly —
    // and never halt on a fatal condition anywhere in the sequence.
    let text = b"Hello, world!\n";
    let mut kernel = kernel_with(text, &[0x73, 0x00, 0x00, 0x00]);

    assert_eq!(run_next_app(&mut kernel), RunOutcome::Launched);
    assert_eq!(cursor_of(&mut kernel), 1);

    // App 0, first trap: write(stdout, <greeting in its image>, 14).
    let mut ctx = launched_frame(&kernel);
    ctx.set_reg(REG_A7, SYSCALL_WRITE);
    ctx.set_reg(REG_A0, FD_STDOUT);
    ctx.set_reg(REG_A1, APP_BASE_ADDR);
    ctx.set_reg(REG_A2, text.len());
    let before = kernel.console.bytes.len();
    let r1 = trap_handler(&mut kernel, &mut ctx, Trap::Exception(Exception::UserEnvCall), 0);
    assert_eq!(r1, TrapOutcome::Resume);
    assert_eq!(&kernel.console.bytes[before..], text);

    // App 0, second trap: exit(0).  The driver loads app 1.
    ctx.set_reg(REG_A7, SYSCALL_EXIT);
    ctx.set_reg(REG_A0, 0);
    let r2 = trap_handler(&mut kernel, &mut ctx, Trap::Exception(Exception::UserEnvCall), 0);
    assert_eq!(r2, TrapOutcome::Launched);
    assert_eq!(cursor_of(&mut kernel), 2);
    assert_eq!(&kernel.window.data[..4], &[0x73, 0x00, 0x00, 0x00]);

    // App 1 store-faults; the table is exhausted: clean shutdown.
    let mut ctx = launched_frame(&kernel);
    let r3 = trap_handler(&mut kernel, &mut ctx, Trap::Exception(Exception::StoreFault), 0);
    assert_eq!(r3, TrapOutcome::Shutdown);
    assert_eq!(cursor_of(&mut kernel), 2);

    let log = String::from_utf8(kernel.console.bytes.clone()).unwrap();
    assert!(log.contains("Hello, world!\n"));
    assert!(log.contains("[kernel] Application exited with code 0\n"));
    assert!(log.contains("[kernel] Loading app_1...\n"));
    assert!(log.contains("[kernel] PageFault in application, kernel killed it.\n"));
}

#[test]
fn frame_for_each_launch_targets_window_base_and_stack_top() {
    let mut kernel = kernel_with(&[9], &[8]);
    run_next_app(&mut kernel);
    let f = kernel.kernel_stack.frame.as_ref().unwrap();
    assert_eq!(f.sepc, APP_BASE_ADDR);
    assert_eq!(f.regs[REG_SP], kernel.user_stack.base + USER_STACK_SIZE);
    assert_eq!(f.sstatus.spp, Privilege::User);
}

#[test]
fn console_writes_append_in_order() {
    let mut console = Console::new();
    console.write_byte(b'a');
    console.write_bytes(b"bc");
    console.write_str("d!");
    console.write_dec(42);
    console.write_hex(255);
    assert_eq!(console.bytes, b"abcd!420xff".to_vec());
}

#[test]
fn uniprocessor_cell_borrows_mutably() {
    let mut cell: UPCell<Vec<u32>> = UPCell::new(vec![1, 2]);
    cell.borrow_mut().push(3);
    assert_eq!(cell.borrow_mut().as_slice(), &[1, 2, 3]);
}
