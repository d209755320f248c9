//! The trap dispatcher: the table that maps trap vectors to handlers, and what
//! each handler answers.

use vstd::prelude::*;
use crate::boot::Singletons;
use crate::cpu::InterruptFlag;
use crate::gdt::DOUBLE_FAULT_IST_INDEX;
use crate::keyboard::{keyboard_interrupt_handler, printed, KeyboardDecoder};
use crate::pic::{line_open, ChainedPics, PicState, LINES};

verus! {

/// First vector of the primary interrupt controller: the first one above the
/// vectors that the processor keeps for its exceptions.
pub const PIC_1_OFFSET: u8 = 32;

/// First vector of the secondary interrupt controller.
pub const PIC_2_OFFSET: u8 = PIC_1_OFFSET + 8;

/// Mask of the primary controller: all lines held back but timer and keyboard.
pub const PIC_1_MASK: u8 = 0b1111_1100;

/// Mask of the secondary controller: all lines held back.
pub const PIC_2_MASK: u8 = 0b1111_1111;

/// Vector of the breakpoint exception.
pub const BREAKPOINT_VECTOR: u8 = 3;

/// Vector of the double fault.
pub const DOUBLE_FAULT_VECTOR: u8 = 8;

/// Vector of the page fault.
pub const PAGE_FAULT_VECTOR: u8 = 14;

/// Number of vectors.
pub const VECTORS: usize = 256;

/// The character that each timer tick prints.
pub const TICK: char = '.';

/// The hardware interrupts that the kernel handles.
#[derive(Clone, Copy, Debug, PartialEq, Eq, Structural)]
pub enum InterruptIndex {
    Timer,
    Keyboard,
}

impl InterruptIndex {
    /// The vector of the interrupt: the timer is line 0 of the primary
    /// controller, the keyboard line 1.
    pub open spec fn vector(self) -> u8 {
        match self {
            InterruptIndex::Timer => PIC_1_OFFSET,
            InterruptIndex::Keyboard => (PIC_1_OFFSET + 1) as u8,
        }
    }

    /// The vector of the interrupt.
    pub fn as_u8(self) -> (vector: u8)
        ensures
            vector == self.vector(),
    {
        match self {
            InterruptIndex::Timer => PIC_1_OFFSET,
            InterruptIndex::Keyboard => PIC_1_OFFSET + 1,
        }
    }

    /// The vector of the interrupt, as an index into the table.
    pub fn as_usize(self) -> (index: usize)
        ensures
            index == self.vector(),
    {
        self.as_u8() as usize
    }
}

/// What the processor pushes when it enters a handler.
#[derive(Clone, Copy, Debug, PartialEq, Eq, Structural)]
pub struct InterruptStackFrame {
    /// Where execution goes on when the handler returns.
    pub instruction_pointer: u64,
    pub code_segment: u64,
    /// The flags register before the handler was entered.
    pub cpu_flags: u64,
    /// The stack pointer at the time of the trap.
    pub stack_pointer: u64,
    pub stack_segment: u64,
}

/// The error code of a page fault.
#[derive(Clone, Copy, Debug, PartialEq, Eq, Structural)]
pub struct PageFaultErrorCode {
    pub bits: u64,
}

/// Set where a protection violation caused the fault, clear where the page
/// was not present.
pub const PROTECTION_VIOLATION: u64 = 1;

/// Set where the access was a write.
pub const CAUSED_BY_WRITE: u64 = 2;

/// Set where the access came from user mode.
pub const USER_MODE: u64 = 4;

/// Set where a reserved bit was set in a page-table entry.
pub const MALFORMED_TABLE: u64 = 8;

/// Set where the access was an instruction fetch.
pub const INSTRUCTION_FETCH: u64 = 16;

impl PageFaultErrorCode {
    /// Whether the code has all bits of `flags` set.
    pub open spec fn has(self, flags: u64) -> bool {
        self.bits & flags == flags
    }

    /// Tells whether the code has all bits of `flags` set.
    pub fn contains(self, flags: u64) -> (r: bool)
        ensures
            r == self.has(flags),
    {
        self.bits & flags == flags
    }
}

/// The exceptions that the kernel reports.
#[derive(Clone, Copy, Debug, PartialEq, Eq, Structural)]
pub enum Exception {
    Breakpoint,
    PageFault,
    DoubleFault,
    /// A trap on a vector that no handler is installed for.
    Unhandled(u8),
}

/// What is logged of an exception.
#[derive(Clone, Copy, Debug, PartialEq, Eq, Structural)]
pub struct Diagnostic {
    pub exception: Exception,
    pub stack_frame: InterruptStackFrame,
    /// The address whose access faulted: for a page fault only.
    pub accessed_address: Option<u64>,
    /// For a page fault only.
    pub error_code: Option<PageFaultErrorCode>,
}

/// What the core does when the handler is done.
#[derive(Clone, Copy, Debug, PartialEq, Eq, Structural)]
pub enum Outcome {
    /// Execution goes on where the stack frame says.
    Resume,
    /// The core halts for good.
    Halt,
}

/// The answer of the dispatcher to one trap.
#[derive(Clone, Copy, Debug, PartialEq, Eq, Structural)]
pub struct Response {
    /// What is to be logged.
    pub diagnostic: Option<Diagnostic>,
    /// What is to be printed.
    pub output: Option<char>,
    /// The vector whose end was signalled to the interrupt controllers.
    pub end_of_interrupt: Option<u8>,
    pub outcome: Outcome,
}

/// What a handler is installed for.
#[derive(Clone, Copy, Debug, PartialEq, Eq, Structural)]
pub enum Handler {
    Breakpoint,
    PageFault,
    DoubleFault,
    HardwareInterrupt(InterruptIndex),
}

/// One slot of the table.
#[derive(Clone, Copy, Debug, PartialEq, Eq, Structural)]
pub struct Entry {
    /// The handler, if one is installed.
    pub handler: Option<Handler>,
    /// The slot of the interrupt stack table whose stack the handler runs on,
    /// if it does not run on the stack that was in use.
    pub stack_index: Option<u16>,
}

/// A trap as it reaches the dispatcher, with what its handler reads from the
/// machine.
#[derive(Clone, Copy, Debug, PartialEq, Eq, Structural)]
pub enum Trap {
    Breakpoint { stack_frame: InterruptStackFrame },
    PageFault {
        stack_frame: InterruptStackFrame,
        error_code: PageFaultErrorCode,
        /// The fault-address register.
        accessed_address: u64,
    },
    DoubleFault { stack_frame: InterruptStackFrame, code: u64 },
    Timer { stack_frame: InterruptStackFrame },
    Keyboard {
        stack_frame: InterruptStackFrame,
        /// The byte that the keyboard data port holds.
        scancode: u8,
    },
    /// A trap on any other vector.
    Other { vector: u8, stack_frame: InterruptStackFrame },
}

impl Trap {
    /// The vector that the trap arrives on.
    pub open spec fn vector(self) -> u8 {
        match self {
            Trap::Breakpoint { .. } => BREAKPOINT_VECTOR,
            Trap::PageFault { .. } => PAGE_FAULT_VECTOR,
            Trap::DoubleFault { .. } => DOUBLE_FAULT_VECTOR,
            Trap::Timer { .. } => InterruptIndex::Timer.vector(),
            Trap::Keyboard { .. } => InterruptIndex::Keyboard.vector(),
            Trap::Other { vector, .. } => vector,
        }
    }

    /// The stack frame that the processor pushed.
    pub open spec fn stack_frame(self) -> InterruptStackFrame {
        match self {
            Trap::Breakpoint { stack_frame } => stack_frame,
            Trap::PageFault { stack_frame, .. } => stack_frame,
            Trap::DoubleFault { stack_frame, .. } => stack_frame,
            Trap::Timer { stack_frame } => stack_frame,
            Trap::Keyboard { stack_frame, .. } => stack_frame,
            Trap::Other { stack_frame, .. } => stack_frame,
        }
    }
}

/// The slot of the kernel's table for `vector`: handlers for breakpoint, page
/// fault, timer and keyboard, one for the double fault that runs on the
/// double-fault stack, and nothing anywhere else.
pub open spec fn kernel_entry(vector: int) -> Entry {
    if vector == BREAKPOINT_VECTOR {
        Entry { handler: Some(Handler::Breakpoint), stack_index: None }
    } else if vector == PAGE_FAULT_VECTOR {
        Entry { handler: Some(Handler::PageFault), stack_index: None }
    } else if vector == DOUBLE_FAULT_VECTOR {
        Entry { handler: Some(Handler::DoubleFault), stack_index: Some(DOUBLE_FAULT_IST_INDEX) }
    } else if vector == InterruptIndex::Timer.vector() {
        Entry { handler: Some(Handler::HardwareInterrupt(InterruptIndex::Timer)), stack_index: None }
    } else if vector == InterruptIndex::Keyboard.vector() {
        Entry {
            handler: Some(Handler::HardwareInterrupt(InterruptIndex::Keyboard)),
            stack_index: None,
        }
    } else {
        Entry { handler: None, stack_index: None }
    }
}

/// The kernel's table: one slot for each vector.
pub open spec fn kernel_idt() -> Seq<Entry> {
    Seq::new(VECTORS as nat, |vector: int| kernel_entry(vector))
}

/// The answer to a breakpoint: the stack frame is logged and execution goes
/// on.
pub open spec fn breakpoint_response(stack_frame: InterruptStackFrame) -> Response {
    Response {
        diagnostic: Some(
            Diagnostic {
                exception: Exception::Breakpoint,
                stack_frame,
                accessed_address: None,
                error_code: None,
            },
        ),
        output: None,
        end_of_interrupt: None,
        outcome: Outcome::Resume,
    }
}

/// The answer to a page fault: the address, the error code and the stack frame
/// are logged and the core halts.
pub open spec fn page_fault_response(
    stack_frame: InterruptStackFrame,
    error_code: PageFaultErrorCode,
    accessed_address: u64,
) -> Response {
    Response {
        diagnostic: Some(
            Diagnostic {
                exception: Exception::PageFault,
                stack_frame,
                accessed_address: Some(accessed_address),
                error_code: Some(error_code),
            },
        ),
        output: None,
        end_of_interrupt: None,
        outcome: Outcome::Halt,
    }
}

/// The answer to a double fault: the stack frame is logged and the core halts.
pub open spec fn double_fault_response(stack_frame: InterruptStackFrame) -> Response {
    Response {
        diagnostic: Some(
            Diagnostic {
                exception: Exception::DoubleFault,
                stack_frame,
                accessed_address: None,
                error_code: None,
            },
        ),
        output: None,
        end_of_interrupt: None,
        outcome: Outcome::Halt,
    }
}

/// The answer to a trap that no handler is installed for: the core halts.
pub open spec fn unhandled_response(vector: u8, stack_frame: InterruptStackFrame) -> Response {
    Response {
        diagnostic: Some(
            Diagnostic {
                exception: Exception::Unhandled(vector),
                stack_frame,
                accessed_address: None,
                error_code: None,
            },
        ),
        output: None,
        end_of_interrupt: None,
        outcome: Outcome::Halt,
    }
}

/// The answer to a hardware interrupt whose handler printed `output`: the end
/// of the interrupt was signalled and execution goes on.
pub open spec fn hardware_response(index: InterruptIndex, output: Option<char>) -> Response {
    Response {
        diagnostic: None,
        output,
        end_of_interrupt: Some(index.vector()),
        outcome: Outcome::Resume,
    }
}

/// Handles a breakpoint: it is logged, and it is not fatal.
pub fn breakpoint_handler(stack_frame: InterruptStackFrame) -> (response: Response)
    ensures
        response == breakpoint_response(stack_frame),
{
    Response {
        diagnostic: Some(
            Diagnostic {
                exception: Exception::Breakpoint,
                stack_frame,
                accessed_address: None,
                error_code: None,
            },
        ),
        output: None,
        end_of_interrupt: None,
        outcome: Outcome::Resume,
    }
}

/// Handles a page fault, which is fatal: nothing is paged in.
pub fn page_fault_handler(
    stack_frame: InterruptStackFrame,
    error_code: PageFaultErrorCode,
    accessed_address: u64,
) -> (response: Response)
    ensures
        response == page_fault_response(stack_frame, error_code, accessed_address),
{
    Response {
        diagnostic: Some(
            Diagnostic {
                exception: Exception::PageFault,
                stack_frame,
                accessed_address: Some(accessed_address),
                error_code: Some(error_code),
            },
        ),
        output: None,
        end_of_interrupt: None,
        outcome: Outcome::Halt,
    }
}

/// Handles a double fault, which is always fatal. Its error code is always
/// zero and is not logged.
pub fn double_fault_handler(stack_frame: InterruptStackFrame, _error_code: u64) -> (response:
    Response)
    ensures
        response == double_fault_response(stack_frame),
{
    Response {
        diagnostic: Some(
            Diagnostic {
                exception: Exception::DoubleFault,
                stack_frame,
                accessed_address: None,
                error_code: None,
            },
        ),
        output: None,
        end_of_interrupt: None,
        outcome: Outcome::Halt,
    }
}

/// Handles a timer tick: it prints one `TICK`.
pub fn timer_interrupt_handler() -> (output: Option<char>)
    ensures
        output == Some(TICK),
{
    Some(TICK)
}

/// Ends a hardware interrupt whose handler has run and printed `output`:
/// signals the end of the interrupt to the controllers.
pub fn hardware_interrupt(pics: &mut ChainedPics, index: InterruptIndex, output: Option<char>) -> (response:
    Response)
    ensures
        final(pics)@ == old(pics)@.notified(index.vector()),
        response == hardware_response(index, output),
{
    let vector: u8 = index.as_u8();
    pics.notify_end_of_interrupt(vector);
    Response { diagnostic: None, output, end_of_interrupt: Some(vector), outcome: Outcome::Resume }
}

/// The answer that is due to `trap` where `entry` is the slot of its vector
/// and `output` is what the keyboard handler printed. A trap that finds no
/// handler, or one that cannot take it, is fatal.
pub open spec fn answer(entry: Entry, trap: Trap, output: Option<char>) -> Response {
    match (entry.handler, trap) {
        (Some(Handler::Breakpoint), Trap::Breakpoint { stack_frame }) => breakpoint_response(
            stack_frame,
        ),
        (
            Some(Handler::PageFault),
            Trap::PageFault { stack_frame, error_code, accessed_address },
        ) => page_fault_response(stack_frame, error_code, accessed_address),
        (Some(Handler::DoubleFault), Trap::DoubleFault { stack_frame, .. }) => double_fault_response(
            stack_frame,
        ),
        (
            Some(Handler::HardwareInterrupt(InterruptIndex::Timer)),
            Trap::Timer { .. },
        ) => hardware_response(InterruptIndex::Timer, Some(TICK)),
        (
            Some(Handler::HardwareInterrupt(InterruptIndex::Keyboard)),
            Trap::Keyboard { .. },
        ) => hardware_response(InterruptIndex::Keyboard, output),
        _ => unhandled_response(trap.vector(), trap.stack_frame()),
    }
}

/// What the keyboard handler prints for `trap`: the character of the key that
/// the decoder gives for the byte of a keyboard interrupt, if that key has
/// one.
pub open spec fn keyboard_output(keyboard: KeyboardDecoder, trap: Trap) -> Option<char> {
    match trap {
        Trap::Keyboard { scancode, .. } => printed(keyboard.decodes(scancode)),
        _ => None,
    }
}

/// Whether `after` is the decoder `before` once `trap` was answered: a
/// keyboard interrupt that finds the keyboard handler feeds its byte to the
/// decoder, and every other trap leaves the decoder alone.
pub open spec fn keyboard_after(
    entry: Entry,
    trap: Trap,
    before: KeyboardDecoder,
    after: KeyboardDecoder,
) -> bool {
    match (entry.handler, trap) {
        (
            Some(Handler::HardwareInterrupt(InterruptIndex::Keyboard)),
            Trap::Keyboard { scancode, .. },
        ) => before.takes(scancode, after),
        _ => after == before,
    }
}

/// The state of the interrupt controllers after a trap that was answered with
/// `response`: they were told of the end of the interrupt that the response
/// names, and of nothing where it names none.
pub open spec fn after(before: PicState, response: Response) -> PicState {
    match response.end_of_interrupt {
        Some(vector) => before.notified(vector),
        None => before,
    }
}

/// The table that maps each trap vector to its handler.
#[derive(Clone, Copy, Debug)]
pub struct InterruptDescriptorTable {
    entries: [Entry; 256],
}

impl View for InterruptDescriptorTable {
    type V = Seq<Entry>;

    closed spec fn view(&self) -> Seq<Entry> {
        self.entries@
    }
}

/// Builds the kernel's table.
pub fn create_idt() -> (idt: InterruptDescriptorTable)
    ensures
        idt@ == kernel_idt(),
{
    let mut entries: [Entry; 256] = [Entry { handler: None, stack_index: None };256];
    entries[BREAKPOINT_VECTOR as usize] = Entry {
        handler: Some(Handler::Breakpoint),
        stack_index: None,
    };
    entries[PAGE_FAULT_VECTOR as usize] = Entry { handler: Some(Handler::PageFault), stack_index: None };
    entries[DOUBLE_FAULT_VECTOR as usize] = Entry {
        handler: Some(Handler::DoubleFault),
        stack_index: Some(DOUBLE_FAULT_IST_INDEX),
    };
    entries[InterruptIndex::Timer.as_usize()] = Entry {
        handler: Some(Handler::HardwareInterrupt(InterruptIndex::Timer)),
        stack_index: None,
    };
    entries[InterruptIndex::Keyboard.as_usize()] = Entry {
        handler: Some(Handler::HardwareInterrupt(InterruptIndex::Keyboard)),
        stack_index: None,
    };
    let idt = InterruptDescriptorTable { entries };
    assert(idt@ =~= kernel_idt());
    idt
}

impl InterruptDescriptorTable {
    /// The slot of `vector`.
    pub fn entry(&self, vector: u8) -> (entry: Entry)
        ensures
            self@.len() == VECTORS,
            entry == self@[vector as int],
    {
        self.entries[vector as usize]
    }

    /// Answers one trap: looks up the slot of its vector and runs the handler
    /// that is installed there.
    pub fn handle(&self, pics: &mut ChainedPics, keyboard: &mut KeyboardDecoder, trap: Trap) -> (response:
        Response)
        ensures
            response == answer(
                self@[trap.vector() as int],
                trap,
                keyboard_output(*old(keyboard), trap),
            ),
            final(pics)@ == after(old(pics)@, response),
            keyboard_after(self@[trap.vector() as int], trap, *old(keyboard), *final(keyboard)),
    {
        match trap {
            Trap::Breakpoint { stack_frame } => {
                match self.entry(BREAKPOINT_VECTOR).handler {
                    Some(Handler::Breakpoint) => breakpoint_handler(stack_frame),
                    _ => unhandled(BREAKPOINT_VECTOR, stack_frame),
                }
            },
            Trap::PageFault { stack_frame, error_code, accessed_address } => {
                match self.entry(PAGE_FAULT_VECTOR).handler {
                    Some(Handler::PageFault) => page_fault_handler(
                        stack_frame,
                        error_code,
                        accessed_address,
                    ),
                    _ => unhandled(PAGE_FAULT_VECTOR, stack_frame),
                }
            },
            Trap::DoubleFault { stack_frame, code } => {
                match self.entry(DOUBLE_FAULT_VECTOR).handler {
                    Some(Handler::DoubleFault) => double_fault_handler(stack_frame, code),
                    _ => unhandled(DOUBLE_FAULT_VECTOR, stack_frame),
                }
            },
            Trap::Timer { stack_frame } => {
                let vector: u8 = InterruptIndex::Timer.as_u8();
                match self.entry(vector).handler {
                    Some(Handler::HardwareInterrupt(InterruptIndex::Timer)) => {
                        let output = timer_interrupt_handler();
                        hardware_interrupt(pics, InterruptIndex::Timer, output)
                    },
                    _ => unhandled(vector, stack_frame),
                }
            },
            Trap::Keyboard { stack_frame, scancode } => {
                let vector: u8 = InterruptIndex::Keyboard.as_u8();
                match self.entry(vector).handler {
                    Some(Handler::HardwareInterrupt(InterruptIndex::Keyboard)) => {
                        let output = keyboard_interrupt_handler(keyboard, scancode);
                        hardware_interrupt(pics, InterruptIndex::Keyboard, output)
                    },
                    _ => unhandled(vector, stack_frame),
                }
            },
            Trap::Other { vector, stack_frame } => unhandled(vector, stack_frame),
        }
    }
}

/// The answer to a trap that no handler takes.
fn unhandled(vector: u8, stack_frame: InterruptStackFrame) -> (response: Response)
    ensures
        response == unhandled_response(vector, stack_frame),
{
    Response {
        diagnostic: Some(
            Diagnostic {
                exception: Exception::Unhandled(vector),
                stack_frame,
                accessed_address: None,
                error_code: None,
            },
        ),
        output: None,
        end_of_interrupt: None,
        outcome: Outcome::Halt,
    }
}

/// Brings the dispatcher up: takes the trap table, which is built if it has
/// not been built before, programs the interrupt controllers, lets through
/// the lines that have a handler, and enables interrupts.
pub fn init(singletons: &mut Singletons, pics: &mut ChainedPics, flag: &mut InterruptFlag) -> (idt:
    InterruptDescriptorTable)
    ensures
        idt@ == kernel_idt(),
        final(singletons).idt_entries() == Some(kernel_idt()),
        final(singletons).idt_builds() == 1,
        final(singletons).gdt_table() == old(singletons).gdt_table(),
        final(singletons).gdt_selectors() == old(singletons).gdt_selectors(),
        final(singletons).gdt_builds() == old(singletons).gdt_builds(),
        final(pics)@ == (PicState {
            initialized: true,
            mask_1: PIC_1_MASK,
            mask_2: PIC_2_MASK,
            ..old(pics)@
        }),
        final(flag)@,
{
    let idt = singletons.idt();
    pics.initialize();
    pics.write_masks(PIC_1_MASK, PIC_2_MASK);
    flag.enable();
    idt
}

/// The state of the interrupt controllers after the kernel's table has
/// answered `n` timer interrupts one after another.
pub open spec fn after_timer_interrupts(
    before: PicState,
    stack_frame: InterruptStackFrame,
    n: nat,
) -> PicState
    decreases n,
{
    if n == 0 {
        before
    } else {
        after(
            after_timer_interrupts(before, stack_frame, (n - 1) as nat),
            answer(
                kernel_idt()[InterruptIndex::Timer.vector() as int],
                Trap::Timer { stack_frame },
                None,
            ),
        )
    }
}

/// The masks that `init` writes let through exactly the lines whose vectors
/// have a handler in the kernel's table.
pub proof fn lemma_masks_match_handlers()
    ensures
        forall|line: u8|
            line < LINES ==> (#[trigger] line_open(PIC_1_MASK, line) <==> kernel_idt()[PIC_1_OFFSET
                + line].handler.is_some()),
        forall|line: u8|
            line < LINES ==> (#[trigger] line_open(PIC_2_MASK, line) <==> kernel_idt()[PIC_2_OFFSET
                + line].handler.is_some()),
{
    assert forall|line: u8| line < LINES implies (#[trigger] line_open(PIC_1_MASK, line)
        <==> kernel_idt()[PIC_1_OFFSET + line].handler.is_some()) by {
        assert(line < 8 ==> (((0b1111_1100u8 >> line) & 1 == 0) <==> line < 2)) by (bit_vector);
    }
    assert forall|line: u8| line < LINES implies (#[trigger] line_open(PIC_2_MASK, line)
        <==> kernel_idt()[PIC_2_OFFSET + line].handler.is_some()) by {
        assert(line < 8 ==> (((0b1111_1111u8 >> line) & 1 == 0) <==> false)) by (bit_vector);
    }
}

/// A breakpoint is never fatal, and two breakpoints that were hit at
/// different instructions are logged differently.
pub proof fn lemma_breakpoints_resume(first: InterruptStackFrame, second: InterruptStackFrame)
    ensures
        answer(
            kernel_idt()[BREAKPOINT_VECTOR as int],
            Trap::Breakpoint { stack_frame: first },
            None,
        ).outcome == Outcome::Resume,
        first.instruction_pointer != second.instruction_pointer ==> answer(
            kernel_idt()[BREAKPOINT_VECTOR as int],
            Trap::Breakpoint { stack_frame: first },
            None,
        ).diagnostic != answer(
            kernel_idt()[BREAKPOINT_VECTOR as int],
            Trap::Breakpoint { stack_frame: second },
            None,
        ).diagnostic,
{
}

/// A double fault is handled on the double-fault stack and is always fatal.
pub proof fn lemma_double_fault_halts(stack_frame: InterruptStackFrame, code: u64)
    ensures
        kernel_idt()[DOUBLE_FAULT_VECTOR as int].stack_index == Some(DOUBLE_FAULT_IST_INDEX),
        answer(
            kernel_idt()[DOUBLE_FAULT_VECTOR as int],
            Trap::DoubleFault { stack_frame, code },
            None,
        ).outcome == Outcome::Halt,
{
}

/// After `n` timer interrupts the end of an interrupt has been signalled `n`
/// times more to the primary controller, which owns the timer's vector, and
/// the masks are as they were.
pub proof fn lemma_timer_interrupts_end(before: PicState, stack_frame: InterruptStackFrame, n: nat)
    requires
        before.offset_1 == PIC_1_OFFSET,
        before.ended_1 + n <= u64::MAX,
    ensures
        after_timer_interrupts(before, stack_frame, n).ended_1 == before.ended_1 + n,
        after_timer_interrupts(before, stack_frame, n).mask_1 == before.mask_1,
        after_timer_interrupts(before, stack_frame, n).mask_2 == before.mask_2,
    decreases n,
{
    if n > 0 {
        lemma_timer_interrupts_end(before, stack_frame, (n - 1) as nat);
        let previous = after_timer_interrupts(before, stack_frame, (n - 1) as nat);
        lemma_timer_interrupts_keep(before, stack_frame, (n - 1) as nat);
        assert(previous.handles_interrupt(InterruptIndex::Timer.vector()));
    }
}

proof fn lemma_timer_interrupts_keep(before: PicState, stack_frame: InterruptStackFrame, n: nat)
    ensures
        after_timer_interrupts(before, stack_frame, n).offset_1 == before.offset_1,
        after_timer_interrupts(before, stack_frame, n).offset_2 == before.offset_2,
    decreases n,
{
    if n > 0 {
        lemma_timer_interrupts_keep(before, stack_frame, (n - 1) as nat);
    }
}

} // verus!
