use p_os::print::{_print, set_print_handler, PrintHandlerCell, TryInitError};
use p_os::qemu::{emulator_status, kernel_exit_code, run_qemu, QemuExitCode, QemuOption, DEBUG_EXIT_PORT};
use p_os::terminal::{Sink, Terminal, WriteStep};

#[test]
fn the_print_handler_is_set_once() {
    let mut cell = PrintHandlerCell::uninit();
    assert_eq!(_print(&cell), None);
    assert_eq!(set_print_handler(&mut cell, 7), Ok(()));
    assert_eq!(_print(&cell), Some(7));
    assert_eq!(set_print_handler(&mut cell, 8), Err(TryInitError::AlreadyInit));
    assert_eq!(_print(&cell), Some(7));
    assert_eq!(set_print_handler(&mut cell, 7), Err(TryInitError::AlreadyInit));
    assert_eq!(_print(&cell), Some(7));
}

#[test]
fn text_goes_to_the_framebuffer_first_and_then_to_the_serial_port() {
    let terminal = Terminal::new(true, true);
    assert_eq!(terminal.write_str(), WriteStep::Write(Sink::FrameBuffer));
    assert_eq!(terminal.written(Sink::FrameBuffer, true), WriteStep::Write(Sink::SerialPort));
    assert_eq!(terminal.written(Sink::SerialPort, true), WriteStep::Written);
    assert_eq!(terminal.written(Sink::FrameBuffer, false), WriteStep::Refused);
    assert_eq!(terminal.written(Sink::SerialPort, false), WriteStep::Refused);
    terminal.flush();
}

#[test]
fn sinks_that_are_not_attached_are_left_out() {
    let terminal = Terminal::new(false, true);
    assert_eq!(terminal.write_str(), WriteStep::Write(Sink::SerialPort));
    assert_eq!(terminal.written(Sink::SerialPort, true), WriteStep::Written);
    let terminal = Terminal::new(true, false);
    assert_eq!(terminal.write_str(), WriteStep::Write(Sink::FrameBuffer));
    assert_eq!(terminal.written(Sink::FrameBuffer, true), WriteStep::Written);
    let terminal = Terminal::new(false, false);
    assert_eq!(terminal.write_str(), WriteStep::Written);
}

#[test]
fn the_emulator_status_holds_the_exit_code() {
    assert_eq!(DEBUG_EXIT_PORT, 0xf4);
    assert_eq!(QemuExitCode::Success.as_u32(), 0x10);
    assert_eq!(QemuExitCode::Failed.as_u32(), 0x11);
    assert_eq!(emulator_status(0x10), 0x21);
    assert_eq!(emulator_status(0x11), 0x23);
    assert_eq!(emulator_status(0), 1);
    assert_eq!(emulator_status(255), 511);
    assert_eq!(kernel_exit_code(0x21), Some(0));
    assert_eq!(kernel_exit_code(0x23), Some(1));
    assert_eq!(kernel_exit_code(0x20), None);
    assert_eq!(kernel_exit_code(1), None);
    assert_eq!(kernel_exit_code(-1), None);
    assert_eq!(kernel_exit_code(i32::MAX), Some((i32::MAX >> 1) - 0x10));
    for code in 0x10..=255u8 {
        assert_eq!(kernel_exit_code(emulator_status(code)), Some(code as i32 - 0x10));
    }
}

#[test]
fn the_emulator_gets_its_options_in_order() {
    assert_eq!(
        run_qemu(true, false),
        vec![QemuOption::Drive, QemuOption::Bios, QemuOption::DebugExit, QemuOption::SerialStdio]
    );
    assert_eq!(
        run_qemu(true, true),
        vec![
            QemuOption::Drive,
            QemuOption::Bios,
            QemuOption::NoDisplay,
            QemuOption::DebugExit,
            QemuOption::SerialStdio
        ]
    );
    assert_eq!(run_qemu(false, true), vec![QemuOption::Drive, QemuOption::Bios, QemuOption::NoDisplay]);
    assert_eq!(run_qemu(false, false), vec![QemuOption::Drive, QemuOption::Bios]);
}
