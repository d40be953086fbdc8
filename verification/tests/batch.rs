use batch_kernel::batch::{
    init, print_app_info, run_next_app, AppManager, AppStore, LoadOutcome, LoadWindow, RunOutcome,
    APP_BASE_ADDR, APP_SIZE_LIMIT, KERNEL_STACK_SIZE, USER_STACK_SIZE,
};
use batch_kernel::boot::{log_info, MemoryLayout};
use batch_kernel::console::Console;

fn two_app_kernel(app0: &[u8], app1: &[u8]) -> batch_kernel::batch::BatchKernel {
    let base = 0x8020_0000usize;
    let mut data = Vec::new();
    data.extend_from_slice(app0);
    data.extend_from_slice(app1);
    let table = vec![base, base + app0.len(), base + app0.len() + app1.len()];
    let store = AppStore { base, data };
    init(2, table, store, 0x8030_0000, 0x8031_0000).expect("a well-formed layout")
}

#[test]
fn load_app_copies_image_and_zeroes_rest() {
    let manager = AppManager {
        num_app: 1,
        current_app: 0,
        app_start: vec![100, 103],
    };
    let store = AppStore { base: 100, data: vec![0xaa, 0xbb, 0xcc] };
    let mut window = LoadWindow::new();
    let mut console = Console::new();
    let r = manager.load_app(0, &store, &mut window, &mut console);
    assert_eq!(r, LoadOutcome::Loaded);
    assert_eq!(window.data.len(), APP_SIZE_LIMIT);
    assert_eq!(&window.data[..3], &[0xaa, 0xbb, 0xcc]);
    assert!(window.data[3..].iter().all(|&b| b == 0));
    assert_eq!(console.bytes, b"[kernel] Loading app_0...\n".to_vec());
}

#[test]
fn load_app_overwrites_previous_image_whole() {
    let manager = AppManager {
        num_app: 2,
        current_app: 0,
        app_start: vec![0, 4, 5],
    };
    let store = AppStore { base: 0, data: vec![9, 9, 9, 9, 1] };
    let mut window = LoadWindow::new();
    let mut console = Console::new();
    assert_eq!(manager.load_app(0, &store, &mut window, &mut console), LoadOutcome::Loaded);
    assert_eq!(&window.data[..4], &[9, 9, 9, 9]);
    assert_eq!(manager.load_app(1, &store, &mut window, &mut console), LoadOutcome::Loaded);
    // The second, shorter image leaves no residue of the first one.
    assert_eq!(window.data[0], 1);
    assert!(window.data[1..].iter().all(|&b| b == 0));
}

#[test]
fn load_past_table_end_is_terminal_and_touches_nothing() {
    let manager = AppManager {
        num_app: 1,
        current_app: 1,
        app_start: vec![10, 12],
    };
    let store = AppStore { base: 10, data: vec![1, 2] };
    let mut window = LoadWindow::new();
    let mut console = Console::new();
    let r = manager.load_app(1, &store, &mut window, &mut console);
    assert_eq!(r, LoadOutcome::Exhausted);
    assert!(window.data.iter().all(|&b| b == 0));
    assert!(console.bytes.is_empty());
}

#[test]
fn cursor_advances_once_per_launch_and_then_shuts_down() {
    let mut kernel = two_app_kernel(&[1, 2, 3], &[4]);
    let g = kernel.manager.lock();
    assert_eq!(g.value.get_current_app(), 0);
    kernel.manager.unlock(g);
    assert_eq!(run_next_app(&mut kernel), RunOutcome::Launched);
    assert_eq!(run_next_app(&mut kernel), RunOutcome::Launched);
    // Both apps consumed: the next request is the clean terminal condition.
    assert_eq!(run_next_app(&mut kernel), RunOutcome::Shutdown);
    assert_eq!(run_next_app(&mut kernel), RunOutcome::Shutdown);
}

#[test]
fn launch_builds_fresh_user_frame() {
    let mut kernel = two_app_kernel(&[1, 2], &[3]);
    let user_sp = kernel.user_stack.base + USER_STACK_SIZE;
    assert_eq!(run_next_app(&mut kernel), RunOutcome::Launched);
    let frame = kernel.kernel_stack.frame.as_ref().expect("a frame awaits the trampoline");
    assert_eq!(frame.sepc, APP_BASE_ADDR);
    assert_eq!(frame.regs[2], user_sp);
    for i in 0..32 {
        if i != 2 {
            assert_eq!(frame.regs[i], 0);
        }
    }
}

#[test]
fn kernel_stack_pointer_is_arena_top() {
    let kernel = two_app_kernel(&[1], &[2]);
    assert_eq!(
        kernel.kernel_stack.get_stack_pointer(),
        kernel.kernel_stack.base + KERNEL_STACK_SIZE
    );
    assert_eq!(
        kernel.user_stack.get_stack_pointer(),
        kernel.user_stack.base + USER_STACK_SIZE
    );
}

#[test]
fn init_logs_app_report() {
    let store = AppStore { base: 16, data: vec![5; 8] };
    let kernel = init(2, vec![16, 20, 24], store, 0, 0).expect("valid layout");
    let text = String::from_utf8(kernel.console.bytes.clone()).expect("report is text");
    let expected = "[kernel] num_app = 2\n\
                    [kernel] app_0 location: [0x10, 0x14)\n\
                    [kernel] app_1 location: [0x14, 0x18)\n";
    assert_eq!(text, expected);
}

#[test]
fn print_app_info_appends_same_report() {
    let store = AppStore { base: 16, data: vec![5; 8] };
    let mut kernel = init(1, vec![16, 24], store, 0, 0).expect("valid layout");
    let before = kernel.console.bytes.len();
    print_app_info(&mut kernel);
    let text = String::from_utf8(kernel.console.bytes[before..].to_vec()).unwrap();
    assert_eq!(text, "[kernel] num_app = 1\n[kernel] app_0 location: [0x10, 0x18)\n");
}

#[test]
fn boot_report_is_exact() {
    let layout = MemoryLayout {
        text_start: 0x80200000,
        text_end: 0x80201000,
        rodata_start: 0x80201000,
        rodata_end: 0x80202000,
        data_start: 0x80202000,
        data_end: 0x80203000,
        bss_start: 0x80204000,
        bss_end: 0x80205000,
        boot_stack_lower: 0x80203000,
        boot_stack_top: 0x80204000,
    };
    let mut console = Console::new();
    log_info(&layout, &mut console);
    let text = String::from_utf8(console.bytes).unwrap();
    let expected = "[kernel] Hello, world!\n\
                    [kernel] .text [0x80200000, 0x80201000)\n\
                    [kernel] .rodata [0x80201000, 0x80202000)\n\
                    [kernel] .data [0x80202000, 0x80203000)\n\
                    [kernel] boot_stack top=bottom=0x80204000, lower_bound=0x80203000\n\
                    [kernel] .bss [0x80204000, 0x80205000)\n";
    assert_eq!(text, expected);
}

#[test]
fn init_rejects_bad_layouts() {
    let store = || AppStore { base: 0, data: vec![0; 64] };
    // Table too short for the app count.
    assert!(init(2, vec![0, 8], store(), 0, 0).is_none());
    // Decreasing addresses.
    assert!(init(1, vec![8, 4], store(), 0, 0).is_none());
    // Image over the window limit.
    assert!(init(
        1,
        vec![0, APP_SIZE_LIMIT + 1],
        AppStore { base: 0, data: vec![0; APP_SIZE_LIMIT + 1] },
        0,
        0
    )
    .is_none());
    // Table reaching outside the store.
    assert!(init(1, vec![0, 128], store(), 0, 0).is_none());
    // Too many apps.
    assert!(init(17, (0..=17usize).collect(), store(), 0, 0).is_none());
}
