//! Segmentation: the descriptor table with the kernel's code, data and
//! task-state segments, and the stack that double faults are handled on.

use vstd::prelude::*;
use crate::addr::{canonical, reaches, VirtAddr};

verus! {

/// Slot of the interrupt stack table that holds the double-fault stack.
pub const DOUBLE_FAULT_IST_INDEX: u16 = 0;

/// Size in bytes of the double-fault stack.
pub const STACK_SIZE: u64 = 4096 * 5;

/// Number of slots of the interrupt stack table.
pub const IST_SLOTS: usize = 7;

/// Number of 64-bit entries that a descriptor table can hold.
pub const GDT_CAPACITY: usize = 8;

/// The descriptor of the flat 64-bit kernel code segment.
pub const KERNEL_CODE64: u64 = 0x00af_9b00_0000_ffff;

/// The descriptor of the flat kernel data segment.
pub const KERNEL_DATA: u64 = 0x00cf_9300_0000_ffff;

/// `x86_64::structures::gdt::GlobalDescriptorTable`: up to eight 64-bit
/// entries, of which the first is the null descriptor.
#[verifier::external_type_specification]
#[verifier::external_body]
pub struct ExGlobalDescriptorTable(x86_64::structures::gdt::GlobalDescriptorTable);

/// The entries of a descriptor table, the null descriptor first.
pub uninterp spec fn gdt_table(gdt: x86_64::structures::gdt::GlobalDescriptorTable) -> Seq<u64>;

/// The privilege level that a descriptor carries in bits 45 and 46.
pub open spec fn privilege_level(descriptor: u64) -> u16 {
    ((descriptor >> 45) & 3) as u16
}

/// The selector of the descriptor at `index`: the index above three low bits
/// that hold the descriptor's privilege level.
pub open spec fn selector_at(index: int, descriptor: u64) -> u16 {
    (index * 8 + privilege_level(descriptor)) as u16
}

/// Calls `x86_64::structures::gdt::GlobalDescriptorTable::new`, which makes a
/// table that holds the null descriptor and nothing else.
#[verifier::external_body]
fn gdt_new() -> (gdt: x86_64::structures::gdt::GlobalDescriptorTable)
    ensures
        gdt_table(gdt) == seq![0u64],
{
    x86_64::structures::gdt::GlobalDescriptorTable::new()
}

/// Calls `x86_64::structures::gdt::GlobalDescriptorTable::add_entry` with a
/// code or data segment, which appends the descriptor and gives the selector
/// of its index with the descriptor's privilege level. It panics on a full
/// table.
#[verifier::external_body]
fn gdt_add_user_segment(gdt: &mut x86_64::structures::gdt::GlobalDescriptorTable, descriptor: u64) -> (selector: u16)
    requires
        gdt_table(*old(gdt)).len() < GDT_CAPACITY,
    ensures
        gdt_table(*final(gdt)) == gdt_table(*old(gdt)).push(descriptor),
        selector == selector_at(gdt_table(*old(gdt)).len() as int, descriptor),
{
    gdt.add_entry(x86_64::structures::gdt::Descriptor::UserSegment(descriptor)).0
}

/// Calls `x86_64::structures::gdt::GlobalDescriptorTable::add_entry` with a
/// system segment, which appends the two halves of the descriptor and gives
/// the selector of the first one's index with the privilege level of the low
/// half. It panics unless two entries are free.
#[verifier::external_body]
fn gdt_add_system_segment(gdt: &mut x86_64::structures::gdt::GlobalDescriptorTable, low: u64, high: u64) -> (selector: u16)
    requires
        gdt_table(*old(gdt)).len() + 1 < GDT_CAPACITY,
    ensures
        gdt_table(*final(gdt)) == gdt_table(*old(gdt)).push(low).push(high),
        selector == selector_at(gdt_table(*old(gdt)).len() as int, low),
{
    gdt.add_entry(x86_64::structures::gdt::Descriptor::SystemSegment(low, high)).0
}

/// Calls `x86_64::structures::gdt::Descriptor::kernel_code_segment`, which
/// gives the code segment descriptor that is made of the flags
/// `KERNEL_CODE64`.
#[verifier::external_body]
fn kernel_code_segment() -> (descriptor: u64)
    ensures
        descriptor == KERNEL_CODE64,
{
    match x86_64::structures::gdt::Descriptor::kernel_code_segment() {
        x86_64::structures::gdt::Descriptor::UserSegment(value) => value,
        x86_64::structures::gdt::Descriptor::SystemSegment(value, _) => value,
    }
}

/// Calls `x86_64::structures::gdt::Descriptor::kernel_data_segment`, which
/// gives the data segment descriptor that is made of the flags `KERNEL_DATA`.
#[verifier::external_body]
fn kernel_data_segment() -> (descriptor: u64)
    ensures
        descriptor == KERNEL_DATA,
{
    match x86_64::structures::gdt::Descriptor::kernel_data_segment() {
        x86_64::structures::gdt::Descriptor::UserSegment(value) => value,
        x86_64::structures::gdt::Descriptor::SystemSegment(value, _) => value,
    }
}

/// Calls `x86_64::structures::gdt::GlobalDescriptorTable::as_raw_slice`, which
/// shows the entries of the table.
#[verifier::external_body]
fn gdt_as_raw_slice(gdt: &x86_64::structures::gdt::GlobalDescriptorTable) -> (table: &[u64])
    ensures
        table@ == gdt_table(*gdt),
{
    gdt.as_raw_slice()
}

/// The task-state segment, as far as the kernel fills it: the interrupt stack
/// table.
#[derive(Clone, Copy, Debug)]
pub struct TaskStateSegment {
    pub interrupt_stack_table: [VirtAddr; 7],
}

/// The selectors of the three segments of the kernel.
#[derive(Clone, Copy, Debug, PartialEq, Eq, Structural)]
pub struct Selectors {
    pub code_selector: u16,
    pub data_selector: u16,
    pub tss_selector: u16,
}

/// What has to be loaded into the processor to take a descriptor table into
/// use, each selector with the register that it goes to.
#[derive(Clone, Copy, Debug, PartialEq, Eq, Structural)]
pub enum SegmentLoad {
    /// The descriptor table itself.
    Table,
    /// The code segment register.
    Cs(u16),
    /// The data segment register.
    Ds(u16),
    /// The extra segment register.
    Es(u16),
    /// The stack segment register.
    Ss(u16),
    /// The task register.
    Task(u16),
}

/// The descriptor table of the kernel with the selectors of its segments.
pub struct GdtAndSelectors {
    gdt: x86_64::structures::gdt::GlobalDescriptorTable,
    selectors: Selectors,
}

/// The address just above a stack of `STACK_SIZE` bytes that begins at
/// `stack_start`: the first stack pointer of a stack that grows downwards.
pub open spec fn stack_top(stack_start: u64) -> u64 {
    canonical((stack_start + STACK_SIZE) as u64)
}

/// The task-state segment whose double-fault slot holds the top of the stack
/// that begins at `stack_start`. All other slots are zero.
pub fn tss(stack_start: VirtAddr) -> (tss: TaskStateSegment)
    requires
        reaches(stack_start@, STACK_SIZE),
    ensures
        forall|i: int|
            0 <= i < IST_SLOTS ==> (#[trigger] tss.interrupt_stack_table@[i])@ == (if i
                == DOUBLE_FAULT_IST_INDEX {
                stack_top(stack_start@)
            } else {
                0
            }),
{
    let mut interrupt_stack_table: [VirtAddr; 7] = [VirtAddr::zero(); 7];
    let stack_end: VirtAddr = stack_start.add_offset(STACK_SIZE);
    interrupt_stack_table[DOUBLE_FAULT_IST_INDEX as usize] = stack_end;
    TaskStateSegment { interrupt_stack_table }
}

impl GdtAndSelectors {
    /// The entries of the table, the null descriptor first.
    pub closed spec fn table(self) -> Seq<u64> {
        gdt_table(self.gdt)
    }

    /// The selectors of the three segments.
    pub closed spec fn spec_selectors(self) -> Selectors {
        self.selectors
    }

    /// The table that holds, after the null descriptor, the kernel code
    /// segment, the kernel data segment and the task-state segment whose
    /// descriptor has the halves `tss_low` and `tss_high`, with the selectors
    /// that this order gives them.
    pub fn new(tss_low: u64, tss_high: u64) -> (r: GdtAndSelectors)
        ensures
            r.table() == seq![0u64, KERNEL_CODE64, KERNEL_DATA, tss_low, tss_high],
            r.spec_selectors() == (Selectors {
                code_selector: 8,
                data_selector: 16,
                tss_selector: selector_at(3, tss_low),
            }),
    {
        let mut gdt = gdt_new();
        let code: u64 = kernel_code_segment();
        let data: u64 = kernel_data_segment();
        assert(privilege_level(KERNEL_CODE64) == 0) by (bit_vector);
        assert(privilege_level(KERNEL_DATA) == 0) by (bit_vector);
        let code_selector: u16 = gdt_add_user_segment(&mut gdt, code);
        let data_selector: u16 = gdt_add_user_segment(&mut gdt, data);
        let tss_selector: u16 = gdt_add_system_segment(&mut gdt, tss_low, tss_high);
        let r = GdtAndSelectors { gdt, selectors: Selectors { code_selector, data_selector, tss_selector } };
        assert(r.table() =~= seq![0u64, KERNEL_CODE64, KERNEL_DATA, tss_low, tss_high]);
        r
    }

    /// The selectors of the three segments.
    pub fn selectors(&self) -> (selectors: Selectors)
        ensures
            selectors == self.spec_selectors(),
    {
        self.selectors
    }

    /// The entries of the table, the null descriptor first.
    pub fn entries(&self) -> (table: &[u64])
        ensures
            table@ == self.table(),
    {
        gdt_as_raw_slice(&self.gdt)
    }
}

/// What is loaded, and in which order, to take the table into use: the table,
/// then the code segment register, then the three data segment registers with
/// the data selector, and the task register last.
pub open spec fn load_order(selectors: Selectors) -> Seq<SegmentLoad> {
    seq![
        SegmentLoad::Table,
        SegmentLoad::Cs(selectors.code_selector),
        SegmentLoad::Ds(selectors.data_selector),
        SegmentLoad::Es(selectors.data_selector),
        SegmentLoad::Ss(selectors.data_selector),
        SegmentLoad::Task(selectors.tss_selector),
    ]
}

/// The loads that take the table into use, in their order.
pub fn init(table: &GdtAndSelectors) -> (loads: [SegmentLoad; 6])
    ensures
        loads@ == load_order(table.spec_selectors()),
{
    let selectors = table.selectors();
    let loads: [SegmentLoad; 6] = [
        SegmentLoad::Table,
        SegmentLoad::Cs(selectors.code_selector),
        SegmentLoad::Ds(selectors.data_selector),
        SegmentLoad::Es(selectors.data_selector),
        SegmentLoad::Ss(selectors.data_selector),
        SegmentLoad::Task(selectors.tss_selector),
    ];
    assert(loads@ =~= load_order(table.spec_selectors()));
    loads
}

} // verus!
