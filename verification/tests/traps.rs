use p_os::boot::Singletons;
use p_os::cpu::InterruptFlag;
use p_os::gdt::DOUBLE_FAULT_IST_INDEX;
use p_os::interrupts::{
    breakpoint_handler, create_idt, double_fault_handler, hardware_interrupt, init,
    page_fault_handler, timer_interrupt_handler, Diagnostic, Exception, Handler, InterruptIndex,
    InterruptStackFrame, Outcome, PageFaultErrorCode, Response, Trap, CAUSED_BY_WRITE,
    INSTRUCTION_FETCH, MALFORMED_TABLE, PIC_1_OFFSET, PIC_2_OFFSET, PROTECTION_VIOLATION,
    USER_MODE,
};
use p_os::keyboard::{keyboard_interrupt_handler, printable, DecodedKey, KeyboardDecoder};
use p_os::pic::ChainedPics;

fn frame(instruction_pointer: u64) -> InterruptStackFrame {
    InterruptStackFrame {
        instruction_pointer,
        code_segment: 8,
        cpu_flags: 0x202,
        stack_pointer: 0x7fff_0000,
        stack_segment: 0,
    }
}

#[test]
fn interrupt_indices_follow_the_first_controller() {
    assert_eq!(PIC_1_OFFSET, 32);
    assert_eq!(PIC_2_OFFSET, 40);
    assert_eq!(InterruptIndex::Timer.as_u8(), 32);
    assert_eq!(InterruptIndex::Keyboard.as_u8(), 33);
    assert_eq!(InterruptIndex::Timer.as_usize(), 32);
    assert_eq!(InterruptIndex::Keyboard.as_usize(), 33);
}

#[test]
fn the_table_holds_five_handlers() {
    let idt = create_idt();
    let mut handled = Vec::new();
    for vector in 0..=255u8 {
        let entry = idt.entry(vector);
        if let Some(handler) = entry.handler {
            handled.push((vector, handler, entry.stack_index));
        } else {
            assert_eq!(entry.stack_index, None);
        }
    }
    assert_eq!(
        handled,
        vec![
            (3, Handler::Breakpoint, None),
            (8, Handler::DoubleFault, Some(DOUBLE_FAULT_IST_INDEX)),
            (14, Handler::PageFault, None),
            (32, Handler::HardwareInterrupt(InterruptIndex::Timer), None),
            (33, Handler::HardwareInterrupt(InterruptIndex::Keyboard), None),
        ]
    );
}

#[test]
fn three_breakpoints_are_logged_and_resumed() {
    let idt = create_idt();
    let mut pics = ChainedPics::new(PIC_1_OFFSET, PIC_2_OFFSET);
    let mut keyboard = KeyboardDecoder::new();
    let mut logged = Vec::new();
    for instruction_pointer in [0x1000u64, 0x1001, 0x2040] {
        let trap = Trap::Breakpoint { stack_frame: frame(instruction_pointer) };
        let response = idt.handle(&mut pics, &mut keyboard, trap);
        assert_eq!(response.outcome, Outcome::Resume);
        assert_eq!(response.output, None);
        assert_eq!(response.end_of_interrupt, None);
        let diagnostic = response.diagnostic.expect("a breakpoint is logged");
        assert_eq!(diagnostic.exception, Exception::Breakpoint);
        assert_eq!(diagnostic.stack_frame.instruction_pointer, instruction_pointer);
        assert_eq!(diagnostic.stack_frame.cpu_flags, 0x202);
        assert_eq!(diagnostic.stack_frame.stack_pointer, 0x7fff_0000);
        logged.push(diagnostic);
    }
    assert_ne!(logged[0], logged[1]);
    assert_ne!(logged[1], logged[2]);
    assert_ne!(logged[0], logged[2]);
    assert_eq!(pics.ended(), (0, 0));
    assert_eq!(breakpoint_handler(frame(7)).outcome, Outcome::Resume);
}

#[test]
fn a_page_fault_reports_address_and_error_code_and_halts() {
    let idt = create_idt();
    let mut pics = ChainedPics::new(PIC_1_OFFSET, PIC_2_OFFSET);
    let mut keyboard = KeyboardDecoder::new();
    let error_code = PageFaultErrorCode { bits: CAUSED_BY_WRITE | PROTECTION_VIOLATION };
    let trap = Trap::PageFault {
        stack_frame: frame(0x40_0000),
        error_code,
        accessed_address: 0xdead_beaf,
    };
    let response = idt.handle(&mut pics, &mut keyboard, trap);
    let expected = Response {
        diagnostic: Some(Diagnostic {
            exception: Exception::PageFault,
            stack_frame: frame(0x40_0000),
            accessed_address: Some(0xdead_beaf),
            error_code: Some(error_code),
        }),
        output: None,
        end_of_interrupt: None,
        outcome: Outcome::Halt,
    };
    assert_eq!(response, expected);
    assert_eq!(page_fault_handler(frame(0x40_0000), error_code, 0xdead_beaf), expected);
    assert!(error_code.contains(CAUSED_BY_WRITE));
    assert!(error_code.contains(PROTECTION_VIOLATION));
    assert!(error_code.contains(CAUSED_BY_WRITE | PROTECTION_VIOLATION));
    assert!(!error_code.contains(USER_MODE));
    assert!(!error_code.contains(MALFORMED_TABLE));
    assert!(!error_code.contains(INSTRUCTION_FETCH | CAUSED_BY_WRITE));
}

#[test]
fn a_double_fault_runs_on_its_own_stack_and_halts() {
    let idt = create_idt();
    let entry = idt.entry(8);
    assert_eq!(entry.handler, Some(Handler::DoubleFault));
    assert_eq!(entry.stack_index, Some(0));
    let mut pics = ChainedPics::new(PIC_1_OFFSET, PIC_2_OFFSET);
    let mut keyboard = KeyboardDecoder::new();
    let trap = Trap::DoubleFault { stack_frame: frame(0x40_0000), code: 0 };
    let response = idt.handle(&mut pics, &mut keyboard, trap);
    assert_eq!(response.outcome, Outcome::Halt);
    assert_eq!(response.diagnostic.map(|d| d.exception), Some(Exception::DoubleFault));
    assert_eq!(response.diagnostic.map(|d| d.stack_frame), Some(frame(0x40_0000)));
    assert_eq!(response.end_of_interrupt, None);
    assert_eq!(double_fault_handler(frame(1), 0).outcome, Outcome::Halt);
}

#[test]
fn a_trap_without_a_handler_is_fatal() {
    let idt = create_idt();
    let mut pics = ChainedPics::new(PIC_1_OFFSET, PIC_2_OFFSET);
    let mut keyboard = KeyboardDecoder::new();
    let response = idt.handle(&mut pics, &mut keyboard, Trap::Other { vector: 13, stack_frame: frame(9) });
    assert_eq!(response.outcome, Outcome::Halt);
    assert_eq!(response.diagnostic.map(|d| d.exception), Some(Exception::Unhandled(13)));
    assert_eq!(response.end_of_interrupt, None);
    assert_eq!(pics.ended(), (0, 0));
}

#[test]
fn init_programs_the_controllers_and_enables_interrupts() {
    let mut pics = ChainedPics::new(PIC_1_OFFSET, PIC_2_OFFSET);
    let mut flag = InterruptFlag::new(false);
    assert_eq!(pics.read_masks(), (0xff, 0xff));
    let mut singletons = Singletons::new();
    let idt = init(&mut singletons, &mut pics, &mut flag);
    assert_eq!(singletons.builds(), (0, 1));
    init(&mut singletons, &mut pics, &mut flag);
    assert_eq!(singletons.builds(), (0, 1));
    assert!(flag.are_enabled());
    assert_eq!(pics.read_masks(), (0b1111_1100, 0b1111_1111));
    assert_eq!(idt.entry(32).handler, Some(Handler::HardwareInterrupt(InterruptIndex::Timer)));
    for line in 0..8u8 {
        let open = (pics.read_masks().0 >> line) & 1 == 0;
        assert_eq!(open, idt.entry(PIC_1_OFFSET + line).handler.is_some());
        let open = (pics.read_masks().1 >> line) & 1 == 0;
        assert_eq!(open, idt.entry(PIC_2_OFFSET + line).handler.is_some());
    }
}

#[test]
fn every_timer_interrupt_is_ended_once_and_leaves_the_masks() {
    let mut pics = ChainedPics::new(PIC_1_OFFSET, PIC_2_OFFSET);
    let mut flag = InterruptFlag::new(false);
    let idt = init(&mut Singletons::new(), &mut pics, &mut flag);
    let mut keyboard = KeyboardDecoder::new();
    let masks = pics.read_masks();
    let n = 1000u64;
    let mut ended = 0u64;
    for tick in 0..n {
        let response = idt.handle(&mut pics, &mut keyboard, Trap::Timer { stack_frame: frame(tick) });
        assert_eq!(response.outcome, Outcome::Resume);
        assert_eq!(response.output, Some('.'));
        assert_eq!(response.diagnostic, None);
        if response.end_of_interrupt == Some(32) {
            ended += 1;
        }
        assert_eq!(pics.read_masks(), masks);
    }
    assert_eq!(ended, n);
    assert_eq!(pics.ended(), (n, 0));
    assert_eq!(timer_interrupt_handler(), Some('.'));
}

#[test]
fn the_controllers_are_told_of_their_own_interrupts_only() {
    let mut pics = ChainedPics::new(32, 40);
    assert!(pics.handles_interrupt(32));
    assert!(pics.handles_interrupt(47));
    assert!(!pics.handles_interrupt(31));
    assert!(!pics.handles_interrupt(48));
    pics.notify_end_of_interrupt(31);
    pics.notify_end_of_interrupt(48);
    assert_eq!(pics.ended(), (0, 0));
    pics.notify_end_of_interrupt(39);
    assert_eq!(pics.ended(), (1, 0));
    pics.notify_end_of_interrupt(40);
    assert_eq!(pics.ended(), (2, 1));
    pics.write_masks(0x12, 0x34);
    pics.initialize();
    assert_eq!(pics.read_masks(), (0x12, 0x34));
    let response = hardware_interrupt(&mut pics, InterruptIndex::Keyboard, Some('x'));
    assert_eq!(
        response,
        Response {
            diagnostic: None,
            output: Some('x'),
            end_of_interrupt: Some(33),
            outcome: Outcome::Resume
        }
    );
    assert_eq!(pics.ended(), (3, 1));
    assert_eq!(pics.read_masks(), (0x12, 0x34));
}

#[test]
fn keyboard_interrupts_print_the_characters_of_the_keys() {
    let idt = create_idt();
    let mut pics = ChainedPics::new(PIC_1_OFFSET, PIC_2_OFFSET);
    let mut keyboard = KeyboardDecoder::new();
    // a down, a up, left shift down, a down, a up, left shift up, 1 down
    let bytes = [0x1eu8, 0x9e, 0x2a, 0x1e, 0x9e, 0xaa, 0x02];
    let mut printed = Vec::new();
    for scancode in bytes {
        let trap = Trap::Keyboard { stack_frame: frame(0), scancode };
        let response = idt.handle(&mut pics, &mut keyboard, trap);
        assert_eq!(response.outcome, Outcome::Resume);
        assert_eq!(response.end_of_interrupt, Some(33));
        assert_eq!(response.diagnostic, None);
        printed.push(response.output);
    }
    assert_eq!(printed, vec![Some('a'), None, None, Some('A'), None, None, Some('1')]);
    assert_eq!(pics.ended(), (7, 0));
}

#[test]
fn keys_without_a_character_print_nothing() {
    let mut keyboard = KeyboardDecoder::new();
    assert_eq!(keyboard_interrupt_handler(&mut keyboard, 0x1d), None);
    assert_eq!(keyboard_interrupt_handler(&mut keyboard, 0x10), Some('q'));
    let mut keyboard = KeyboardDecoder::new();
    assert!(matches!(keyboard.decode(0x3b), Some(DecodedKey::RawKey(_))));
    assert!(matches!(keyboard.decode(0x39), Some(DecodedKey::Unicode(' '))));
    assert!(keyboard.decode(0xe0).is_none());
    assert_eq!(printable(Some(DecodedKey::Unicode('z'))), Some('z'));
    assert_eq!(printable(None), None);
    let raw = KeyboardDecoder::new().decode(0x3b);
    assert_eq!(printable(raw), None);
}

#[test]
fn a_decoder_goes_by_everything_it_was_fed() {
    // The extended prefix changes what the next byte means, and a shift that
    // is held changes what the next key prints.
    let mut plain = KeyboardDecoder::new();
    assert_eq!(keyboard_interrupt_handler(&mut plain, 0x1c), Some('\n'));
    let mut extended = KeyboardDecoder::new();
    assert_eq!(keyboard_interrupt_handler(&mut extended, 0xe0), None);
    assert!(matches!(extended.decode(0x48), Some(DecodedKey::RawKey(_))));
    let mut plain = KeyboardDecoder::new();
    assert_eq!(keyboard_interrupt_handler(&mut plain, 0x48), Some('8'));

    let mut first = KeyboardDecoder::new();
    let mut second = KeyboardDecoder::new();
    let bytes = [0x36u8, 0x10, 0xb6, 0x10, 0x3a, 0x10, 0x2a, 0x10];
    let mut printed = Vec::new();
    for byte in bytes {
        let output = keyboard_interrupt_handler(&mut first, byte);
        assert_eq!(output, printable(second.decode(byte)));
        printed.push(output);
    }
    assert_eq!(
        printed,
        vec![None, Some('Q'), None, Some('q'), None, Some('Q'), None, Some('q')]
    );
}
