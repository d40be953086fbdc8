//! Boot-time diagnostics: the memory-layout report the kernel prints right
//! after clearing its state.
//!
//! The section boundary addresses come from the boot and link collaborators;
//! the core only reads them at init and renders this report.

use crate::console::Console;
use crate::digits::hex_rep_prefixed;
use vstd::prelude::*;
use vstd::string::StringSliceAdditionalSpecFns;

verus! {

/// The section boundaries the link step hands the kernel at boot.
#[derive(Clone, Copy, PartialEq, Eq, Structural, Debug)]
pub struct MemoryLayout {
    pub text_start: usize,
    pub text_end: usize,
    pub rodata_start: usize,
    pub rodata_end: usize,
    pub data_start: usize,
    pub data_end: usize,
    pub bss_start: usize,
    pub bss_end: usize,
    pub boot_stack_lower: usize,
    pub boot_stack_top: usize,
}

/// One report line giving a section's address range `[lo, hi)`.
pub open spec fn range_line(label: &str, lo: usize, hi: usize) -> Seq<u8> {
    "[kernel] ".spec_bytes() + label.spec_bytes() + " [".spec_bytes() + hex_rep_prefixed(lo as nat)
        + ", ".spec_bytes() + hex_rep_prefixed(hi as nat) + ")\n".spec_bytes()
}

/// The boot-stack line of the report.
pub open spec fn boot_stack_line(top: usize, lower: usize) -> Seq<u8> {
    "[kernel] boot_stack top=bottom=".spec_bytes() + hex_rep_prefixed(top as nat)
        + ", lower_bound=".spec_bytes() + hex_rep_prefixed(lower as nat) + "\n".spec_bytes()
}

/// Everything the boot report prints, in order.
pub open spec fn boot_report(l: MemoryLayout) -> Seq<u8> {
    "[kernel] Hello, world!\n".spec_bytes() + range_line(".text", l.text_start, l.text_end)
        + range_line(".rodata", l.rodata_start, l.rodata_end)
        + range_line(".data", l.data_start, l.data_end)
        + boot_stack_line(l.boot_stack_top, l.boot_stack_lower)
        + range_line(".bss", l.bss_start, l.bss_end)
}

/// Writes one section's range line.
fn write_range_line(console: &mut Console, label: &str, lo: usize, hi: usize)
    ensures
        final(console)@ == old(console)@ + range_line(label, lo, hi),
{
    console.write_str("[kernel] ");
    console.write_str(label);
    console.write_str(" [");
    console.write_hex(lo);
    console.write_str(", ");
    console.write_hex(hi);
    console.write_str(")\n");
    assert(console@ =~= old(console)@ + range_line(label, lo, hi));
}

/// Logs the memory-layout report: greeting, the `.text`, `.rodata` and
/// `.data` sections, the boot stack, and the `.bss` section.
pub fn log_info(layout: &MemoryLayout, console: &mut Console)
    ensures
        final(console)@ == old(console)@ + boot_report(*layout),
{
    console.write_str("[kernel] Hello, world!\n");
    write_range_line(console, ".text", layout.text_start, layout.text_end);
    write_range_line(console, ".rodata", layout.rodata_start, layout.rodata_end);
    write_range_line(console, ".data", layout.data_start, layout.data_end);
    console.write_str("[kernel] boot_stack top=bottom=");
    console.write_hex(layout.boot_stack_top);
    console.write_str(", lower_bound=");
    console.write_hex(layout.boot_stack_lower);
    console.write_str("\n");
    write_range_line(console, ".bss", layout.bss_start, layout.bss_end);
    assert(console@ =~= old(console)@ + boot_report(*layout));
}

} // verus!
