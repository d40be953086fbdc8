//! The batch app-execution driver.
//!
//! The driver owns the compiled-in app table, the execution cursor and the
//! fixed load window.  Apps run strictly in table order: each launch
//! zero-fills the window, copies one image into its prefix and hands a fresh
//! register frame to the trampoline.  When the cursor reaches the end of the
//! table the kernel shuts down cleanly.

use crate::console::Console;
use crate::ctx::{initial_frame, TrapContext};
use crate::digits::dec_rep;
use crate::digits::hex_rep_prefixed;
use crate::spin::SpinLock;
use vstd::prelude::*;
use vstd::string::StringSliceAdditionalSpecFns;

verus! {

/// Most embedded apps one table may carry.
pub const MAX_APP_NUM: usize = 16;

/// Physical base address of the load window.
pub const APP_BASE_ADDR: usize = 0x80400000;

/// Size of the load window; every image must fit in it.
pub const APP_SIZE_LIMIT: usize = 0x20000;

/// Size of the user-role stack arena.
pub const USER_STACK_SIZE: usize = 8192;

/// Size of the kernel-role stack arena.
pub const KERNEL_STACK_SIZE: usize = 8192;

/// A sequence of `n` zero bytes.
pub open spec fn zero_bytes(n: nat) -> Seq<u8> {
    Seq::new(n, |i: int| 0u8)
}

/// The diagnostic line announcing a load.
pub open spec fn loading_line(id: nat) -> Seq<u8> {
    "[kernel] Loading app_".spec_bytes() + dec_rep(id) + "...\n".spec_bytes()
}

/// The build-time storage holding the embedded app images: one contiguous
/// byte region, starting at address `base`, that the link step filled.
pub struct AppStore {
    pub base: usize,
    pub data: Vec<u8>,
}

impl AppStore {
    /// The region fits in the address space.
    pub open spec fn wf(&self) -> bool {
        self.base + self.data@.len() <= usize::MAX
    }

    /// The bytes the store holds in the address range `[lo, hi)`.
    pub open spec fn bytes_at(&self, lo: int, hi: int) -> Seq<u8> {
        self.data@.subrange(lo - self.base, hi - self.base)
    }
}

/// The fixed physical window every app is loaded into in turn.  No per-app
/// state survives a load: the window is zero-filled and rewritten whole.
pub struct LoadWindow {
    pub data: Vec<u8>,
}

impl LoadWindow {
    /// The window always spans exactly the size limit.
    pub open spec fn wf(&self) -> bool {
        self.data@.len() == APP_SIZE_LIMIT
    }

    /// A window holding only zeroes.
    pub fn new() -> (w: LoadWindow)
        ensures
            w.wf(),
            w@ == zero_bytes(APP_SIZE_LIMIT as nat),
    {
        let mut data: Vec<u8> = Vec::new();
        let mut i: usize = 0;
        while i < APP_SIZE_LIMIT
            invariant
                i <= APP_SIZE_LIMIT,
                data@.len() == i,
                forall|k: int| 0 <= k < i ==> data@[k] == 0u8,
            decreases APP_SIZE_LIMIT - i,
        {
            data.push(0u8);
            i = i + 1;
        }
        let w = LoadWindow { data };
        assert(w@ =~= zero_bytes(APP_SIZE_LIMIT as nat));
        w
    }
}

impl View for LoadWindow {
    type V = Seq<u8>;

    open spec fn view(&self) -> Seq<u8> {
        self.data@
    }
}

/// Outcome of one load request.
#[derive(Clone, Copy, PartialEq, Eq, Structural, Debug)]
pub enum LoadOutcome {
    /// The image now sits in the window's prefix.
    Loaded,
    /// The cursor is past the table: the terminal, clean-shutdown condition.
    Exhausted,
}

/// The app driver: the app table and the execution cursor.
pub struct AppManager {
    pub num_app: usize,
    pub current_app: usize,
    pub app_start: Vec<usize>,
}

impl AppManager {
    /// Table invariant: `num_app + 1` non-decreasing start addresses (the
    /// last a sentinel end), no image over the window limit, and a cursor
    /// that never leaves `[0, num_app]`.
    pub open spec fn wf(&self) -> bool {
        &&& self.num_app <= MAX_APP_NUM
        &&& self.app_start@.len() == self.num_app + 1
        &&& self.current_app <= self.num_app
        &&& forall|i: int|
            0 <= i < self.num_app ==> #[trigger] self.app_start@[i] <= self.app_start@[i + 1]
                && self.app_start@[i + 1] - self.app_start@[i] <= APP_SIZE_LIMIT
    }

    /// Size in bytes of app `i`'s image.
    pub open spec fn app_size(&self, i: int) -> int {
        self.app_start@[i + 1] - self.app_start@[i]
    }

    /// The whole table lies inside the store.
    pub open spec fn in_store(&self, store: &AppStore) -> bool {
        &&& store.wf()
        &&& store.base <= self.app_start@[0]
        &&& self.app_start@[self.num_app as int] <= store.base + store.data@.len()
    }

    /// What the window holds after app `i` is loaded: its image, then zeroes.
    pub open spec fn image_in_window(&self, store: &AppStore, i: int) -> Seq<u8> {
        store.bytes_at(self.app_start@[i] as int, self.app_start@[i + 1] as int) + zero_bytes(
            (APP_SIZE_LIMIT - self.app_size(i)) as nat,
        )
    }

    /// In a well-formed table the start addresses never decrease.
    pub proof fn lemma_table_sorted(&self, i: int, j: int)
        requires
            self.wf(),
            0 <= i <= j <= self.num_app,
        ensures
            self.app_start@[i] <= self.app_start@[j],
        decreases j - i,
    {
        if i < j {
            self.lemma_table_sorted(i, j - 1);
        }
    }

    /// Logs the app count and every image's address range.
    #[verifier::rlimit(60)]
    pub fn print_app_info(&self, console: &mut Console)
        requires
            self.wf(),
        ensures
            final(console)@ == old(console)@ + info_text(self.app_start@, self.num_app as nat),
    {
        let ghost orig: Seq<u8> = console@;
        console.write_str("[kernel] num_app = ");
        console.write_dec(self.num_app);
        console.write_str("\n");
        assert(console@ =~= orig + info_header(self.num_app as nat));
        let mut i: usize = 0;
        while i < self.num_app
            invariant
                i <= self.num_app,
                self.wf(),
                console@ == orig + info_header(self.num_app as nat) + app_lines(
                    self.app_start@,
                    i as int,
                ),
            decreases self.num_app - i,
        {
            console.write_str("[kernel] app_");
            console.write_dec(i);
            console.write_str(" location: [");
            console.write_hex(self.app_start[i]);
            console.write_str(", ");
            console.write_hex(self.app_start[i + 1]);
            console.write_str(")\n");
            i = i + 1;
            assert(console@ =~= orig + info_header(self.num_app as nat) + app_lines(
                self.app_start@,
                i as int,
            ));
        }
        assert(console@ =~= orig + info_text(self.app_start@, self.num_app as nat));
    }

    /// Reads the execution cursor.
    pub fn get_current_app(&self) -> (r: usize)
        ensures
            r == self.current_app,
    {
        self.current_app
    }

    /// Advances the cursor by one.  No bounds check happens here — the
    /// caller checks before the next load — so the cursor only ever grows.
    pub fn move_to_next_app(&mut self)
        requires
            old(self).wf(),
            old(self).current_app < old(self).num_app,
        ensures
            final(self).current_app == old(self).current_app + 1,
            final(self).num_app == old(self).num_app,
            final(self).app_start == old(self).app_start,
            final(self).wf(),
    {
        self.current_app = self.current_app + 1;
    }

    /// Loads app `app_id`: zero-fills the whole window, then copies exactly
    /// the image's bytes into its prefix.  On the machine an
    /// instruction-cache synchronization follows so the fetch unit observes
    /// the fresh code; that fence has no effect on this state.  A request at
    /// or past the end of the table is the terminal condition: nothing is
    /// touched and the caller shuts the kernel down cleanly.
    pub fn load_app(
        &self,
        app_id: usize,
        store: &AppStore,
        window: &mut LoadWindow,
        console: &mut Console,
    ) -> (r: LoadOutcome)
        requires
            self.wf(),
            self.in_store(store),
            old(window).wf(),
        ensures
            final(window).wf(),
            app_id >= self.num_app ==> r == LoadOutcome::Exhausted && final(window)@ == old(
                window,
            )@ && final(console)@ == old(console)@,
            app_id < self.num_app ==> r == LoadOutcome::Loaded && final(window)@
                == self.image_in_window(store, app_id as int) && final(console)@ == old(console)@
                + loading_line(app_id as nat),
    {
        if app_id >= self.num_app {
            return LoadOutcome::Exhausted;
        }
        console.write_str("[kernel] Loading app_");
        console.write_dec(app_id);
        console.write_str("...\n");
        assert(console@ =~= old(console)@ + loading_line(app_id as nat));

        let mut j: usize = 0;
        while j < APP_SIZE_LIMIT
            invariant
                j <= APP_SIZE_LIMIT,
                window.data@.len() == APP_SIZE_LIMIT,
                forall|k: int| 0 <= k < j ==> window.data@[k] == 0u8,
            decreases APP_SIZE_LIMIT - j,
        {
            window.data.set(j, 0u8);
            j = j + 1;
        }

        proof {
            self.lemma_table_sorted(0, app_id as int);
            self.lemma_table_sorted(app_id as int + 1, self.num_app as int);
        }
        let start = self.app_start[app_id];
        let end = self.app_start[app_id + 1];
        let len = end - start;
        let src_off = start - store.base;
        let mut j: usize = 0;
        while j < len
            invariant
                j <= len,
                len <= APP_SIZE_LIMIT,
                src_off + len <= store.data@.len(),
                store.data@.len() <= usize::MAX,
                window.data@.len() == APP_SIZE_LIMIT,
                forall|k: int| 0 <= k < j ==> window.data@[k] == store.data@[src_off + k],
                forall|k: int| j <= k < APP_SIZE_LIMIT ==> window.data@[k] == 0u8,
            decreases len - j,
        {
            let b = store.data[src_off + j];
            window.data.set(j, b);
            j = j + 1;
        }
        assert(window@ =~= self.image_in_window(store, app_id as int));
        LoadOutcome::Loaded
    }
}

/// The first diagnostic line of the app report.
pub open spec fn info_header(num: nat) -> Seq<u8> {
    "[kernel] num_app = ".spec_bytes() + dec_rep(num) + "\n".spec_bytes()
}

/// The diagnostic line giving app `i`'s address range `[lo, hi)`.
pub open spec fn app_line(i: nat, lo: usize, hi: usize) -> Seq<u8> {
    "[kernel] app_".spec_bytes() + dec_rep(i) + " location: [".spec_bytes() + hex_rep_prefixed(
        lo as nat,
    ) + ", ".spec_bytes() + hex_rep_prefixed(hi as nat) + ")\n".spec_bytes()
}

/// The address-range lines of the first `n` apps, in order.
pub open spec fn app_lines(table: Seq<usize>, n: int) -> Seq<u8>
    decreases n,
{
    if n <= 0 {
        Seq::empty()
    } else {
        app_lines(table, n - 1) + app_line((n - 1) as nat, table[n - 1], table[n])
    }
}

/// Everything the app report prints.
pub open spec fn info_text(table: Seq<usize>, num: nat) -> Seq<u8> {
    info_header(num) + app_lines(table, num as int)
}

/// The kernel-role stack arena: fixed size, allocated once, never resized.
/// The model keeps its base address and the one live register frame that
/// sits on top of it between a trap and the next resume.
pub struct KernelStack {
    pub base: usize,
    pub frame: Option<TrapContext>,
}

impl KernelStack {
    /// The arena fits in the address space.
    pub open spec fn wf(&self) -> bool {
        self.base + KERNEL_STACK_SIZE <= usize::MAX
    }

    /// The initial stack pointer: the top of the arena (stacks grow down).
    pub fn get_stack_pointer(&self) -> (r: usize)
        requires
            self.wf(),
        ensures
            r == self.base + KERNEL_STACK_SIZE,
    {
        self.base + KERNEL_STACK_SIZE
    }

    /// Places a freshly built frame atop the stack, where the trampoline
    /// finds it.  Exactly one frame is live at a time; a new push replaces
    /// whatever frame was consumed before.
    pub fn push_context(&mut self, ctx: TrapContext)
        ensures
            final(self).base == old(self).base,
            final(self).frame is Some,
            final(self).frame.unwrap()@ == ctx@,
    {
        self.frame = Some(ctx);
    }
}

/// The user-role stack arena; apps start with its top as stack pointer.
pub struct UserStack {
    pub base: usize,
}

impl UserStack {
    /// The arena fits in the address space.
    pub open spec fn wf(&self) -> bool {
        self.base + USER_STACK_SIZE <= usize::MAX
    }

    /// The initial stack pointer: the top of the arena (stacks grow down).
    pub fn get_stack_pointer(&self) -> (r: usize)
        requires
            self.wf(),
        ensures
            r == self.base + USER_STACK_SIZE,
    {
        self.base + USER_STACK_SIZE
    }
}

/// What a request to run the next app ended as.
#[derive(Clone, Copy, PartialEq, Eq, Structural, Debug)]
pub enum RunOutcome {
    /// The next app was loaded; a fresh frame awaits the trampoline, which
    /// performs the one-way transfer into user mode.
    Launched,
    /// The table is exhausted: the kernel shuts down cleanly.
    Shutdown,
}

/// All state the core owns: the driver under its lock, the image store, the
/// load window, the console sink and the two stack arenas.
pub struct BatchKernel {
    pub manager: SpinLock<AppManager>,
    pub store: AppStore,
    pub window: LoadWindow,
    pub console: Console,
    pub kernel_stack: KernelStack,
    pub user_stack: UserStack,
}

impl BatchKernel {
    /// The driver sits unlocked and unpoisoned between operations, its table
    /// well formed and inside the store, the window full-sized, the arenas
    /// inside the address space.
    pub open spec fn wf(&self) -> bool {
        &&& !self.manager.is_locked()
        &&& !self.manager.spec_poisoned()
        &&& self.manager.wf()
        &&& self.manager.stored() is Some
        &&& self.mgr().wf()
        &&& self.mgr().in_store(&self.store)
        &&& self.window.wf()
        &&& self.kernel_stack.wf()
        &&& self.user_stack.wf()
    }

    /// The driver behind the lock.
    pub open spec fn mgr(&self) -> AppManager {
        self.manager.stored().unwrap()
    }

    /// The execution cursor.
    pub open spec fn cursor(&self) -> usize {
        self.mgr().current_app
    }

    /// The number of embedded apps.
    pub open spec fn napps(&self) -> usize {
        self.mgr().num_app
    }

    /// Everything outside the driver's own state is untouched by a driver
    /// operation: store, stacks' bases and table identity.
    pub open spec fn frame_env_unchanged(&self, other: &BatchKernel) -> bool {
        &&& self.store == other.store
        &&& self.user_stack == other.user_stack
        &&& self.kernel_stack.base == other.kernel_stack.base
        &&& self.napps() == other.napps()
        &&& self.mgr().app_start@ == other.mgr().app_start@
    }
}

/// The table/store/arena layout `init` accepts: what the boot and link
/// collaborators owe the kernel.
pub open spec fn valid_layout(
    num_app: usize,
    table: Seq<usize>,
    store: &AppStore,
    kernel_stack_base: usize,
    user_stack_base: usize,
) -> bool {
    &&& num_app <= MAX_APP_NUM
    &&& table.len() == num_app + 1
    &&& forall|i: int|
        0 <= i < num_app ==> #[trigger] table[i] <= table[i + 1] && table[i + 1] - table[i]
            <= APP_SIZE_LIMIT
    &&& store.wf()
    &&& store.base <= table[0]
    &&& table[num_app as int] <= store.base + store.data@.len()
    &&& kernel_stack_base + KERNEL_STACK_SIZE <= usize::MAX
    &&& user_stack_base + USER_STACK_SIZE <= usize::MAX
}

/// Builds the kernel at its defined init point: checks the layout the boot
/// and link collaborators supplied, zero-fills the window, places the driver
/// behind its lock with the cursor at app 0, and logs the app report.
pub fn init(
    num_app: usize,
    app_start: Vec<usize>,
    store: AppStore,
    kernel_stack_base: usize,
    user_stack_base: usize,
) -> (r: Option<BatchKernel>)
    ensures
        r is Some <==> valid_layout(
            num_app,
            app_start@,
            &store,
            kernel_stack_base,
            user_stack_base,
        ),
        r matches Some(k) ==> {
            &&& k.wf()
            &&& k.napps() == num_app
            &&& k.mgr().app_start@ == app_start@
            &&& k.cursor() == 0
            &&& k.store == store
            &&& k.window@ == zero_bytes(APP_SIZE_LIMIT as nat)
            &&& k.console@ == info_text(app_start@, num_app as nat)
            &&& k.kernel_stack.frame is None
            &&& k.kernel_stack.base == kernel_stack_base
            &&& k.user_stack.base == user_stack_base
        },
{
    if num_app > MAX_APP_NUM {
        return None;
    }
    if app_start.len() != num_app + 1 {
        return None;
    }
    let mut i: usize = 0;
    while i < num_app
        invariant
            i <= num_app,
            app_start@.len() == num_app + 1,
            forall|k: int|
                0 <= k < i ==> #[trigger] app_start@[k] <= app_start@[k + 1] && app_start@[k + 1]
                    - app_start@[k] <= APP_SIZE_LIMIT,
        decreases num_app - i,
    {
        if app_start[i] > app_start[i + 1] {
            return None;
        }
        if app_start[i + 1] - app_start[i] > APP_SIZE_LIMIT {
            return None;
        }
        i = i + 1;
    }
    if store.data.len() > usize::MAX - store.base {
        return None;
    }
    if store.base > app_start[0] {
        return None;
    }
    if app_start[num_app] > store.base + store.data.len() {
        return None;
    }
    if kernel_stack_base > usize::MAX - KERNEL_STACK_SIZE {
        return None;
    }
    if user_stack_base > usize::MAX - USER_STACK_SIZE {
        return None;
    }

    let mut console = Console::new();
    let manager = AppManager { num_app, current_app: 0, app_start };
    manager.print_app_info(&mut console);
    let kernel = BatchKernel {
        manager: SpinLock::new(manager),
        store,
        window: LoadWindow::new(),
        console,
        kernel_stack: KernelStack { base: kernel_stack_base, frame: None },
        user_stack: UserStack { base: user_stack_base },
    };
    Some(kernel)
}

/// Logs the app report through the lock.
pub fn print_app_info(kernel: &mut BatchKernel)
    requires
        old(kernel).wf(),
    ensures
        final(kernel).wf(),
        final(kernel).frame_env_unchanged(old(kernel)),
        final(kernel).cursor() == old(kernel).cursor(),
        final(kernel).window@ == old(kernel).window@,
        final(kernel).kernel_stack == old(kernel).kernel_stack,
        final(kernel).console@ == old(kernel).console@ + info_text(
            old(kernel).mgr().app_start@,
            old(kernel).napps() as nat,
        ),
{
    let g = kernel.manager.lock();
    g.value.print_app_info(&mut kernel.console);
    kernel.manager.unlock(g);
}

/// Runs the next app, one way.
///
/// Under the lock: read the cursor, load that app, advance the cursor.
/// Outside the lock: build a fresh register frame for the freshly loaded
/// image and leave it atop the kernel stack for the trampoline, which then
/// performs the non-returning transfer into user mode.  When the cursor is
/// already past the table nothing is loaded and the kernel shuts down
/// cleanly — `Shutdown` is that terminal condition, never an out-of-bounds
/// read.
pub fn run_next_app(kernel: &mut BatchKernel) -> (r: RunOutcome)
    requires
        old(kernel).wf(),
    ensures
        final(kernel).wf(),
        final(kernel).frame_env_unchanged(old(kernel)),
        final(kernel).cursor() >= old(kernel).cursor(),
        old(kernel).cursor() >= old(kernel).napps() ==> {
            &&& r == RunOutcome::Shutdown
            &&& final(kernel).cursor() == old(kernel).cursor()
            &&& final(kernel).window@ == old(kernel).window@
            &&& final(kernel).console@ == old(kernel).console@
            &&& final(kernel).kernel_stack == old(kernel).kernel_stack
        },
        old(kernel).cursor() < old(kernel).napps() ==> {
            &&& r == RunOutcome::Launched
            &&& final(kernel).cursor() == old(kernel).cursor() + 1
            &&& final(kernel).window@ == old(kernel).mgr().image_in_window(
                &old(kernel).store,
                old(kernel).cursor() as int,
            )
            &&& final(kernel).console@ == old(kernel).console@ + loading_line(
                old(kernel).cursor() as nat,
            )
            &&& final(kernel).kernel_stack.frame is Some
            &&& final(kernel).kernel_stack.frame.unwrap()@ == initial_frame(
                APP_BASE_ADDR,
                (old(kernel).user_stack.base + USER_STACK_SIZE) as usize,
            )
        },
{
    let mut g = kernel.manager.lock();
    let current = g.value.get_current_app();
    let outcome = g.value.load_app(current, &kernel.store, &mut kernel.window, &mut kernel.console);
    match outcome {
        LoadOutcome::Exhausted => {
            kernel.manager.unlock(g);
            RunOutcome::Shutdown
        },
        LoadOutcome::Loaded => {
            g.value.move_to_next_app();
            kernel.manager.unlock(g);
            let sp = kernel.user_stack.get_stack_pointer();
            let ctx = TrapContext::new(APP_BASE_ADDR, sp);
            kernel.kernel_stack.push_context(ctx);
            RunOutcome::Launched
        },
    }
}

} // verus!
