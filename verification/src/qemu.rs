//! The agreement with the emulator on how a test run of the kernel ends.

use vstd::prelude::*;

verus! {

/// The port of the emulator's debug-exit device.
pub const DEBUG_EXIT_PORT: u16 = 0xf4;

/// The least status of the emulator that stands for an exit code of the
/// kernel.
pub const KERNEL_STATUS_FLOOR: i32 = 0x20;

/// The exit code that the kernel reports for a test run that passed.
pub const SUCCESS_CODE: u32 = 0x10;

/// How a test run of the kernel ended.
#[derive(Clone, Copy, Debug, PartialEq, Eq, Structural)]
pub enum QemuExitCode {
    Success,
    Failed,
}

impl QemuExitCode {
    /// The code that is written to the debug-exit port.
    pub open spec fn code(self) -> u32 {
        match self {
            QemuExitCode::Success => SUCCESS_CODE,
            QemuExitCode::Failed => (SUCCESS_CODE + 1) as u32,
        }
    }

    /// The code that is written to the debug-exit port.
    pub fn as_u32(self) -> (code: u32)
        ensures
            code == self.code(),
    {
        match self {
            QemuExitCode::Success => SUCCESS_CODE,
            QemuExitCode::Failed => SUCCESS_CODE + 1,
        }
    }
}

/// The status that the emulator's process ends with after `code` was written
/// to the debug-exit port: the code moved up by one bit, with the lowest bit
/// set.
pub fn emulator_status(code: u8) -> (status: i32)
    ensures
        status == 2 * code + 1,
{
    let wide: u32 = code as u32;
    let status: u32 = (wide << 1) | 1;
    assert(status == 2 * wide + 1) by (bit_vector)
        requires
            wide < 256,
            status == (wide << 1) | 1,
    ;
    status as i32
}

/// The kernel's result that the emulator's status stands for: the code that
/// was written to the debug-exit port, counted from the code for success. A
/// status up to `KERNEL_STATUS_FLOOR` stands for none.
pub fn kernel_exit_code(exit_code: i32) -> (r: Option<i32>)
    ensures
        r == (if exit_code > KERNEL_STATUS_FLOOR {
            Some((exit_code / 2 - SUCCESS_CODE) as i32)
        } else {
            None
        }),
{
    if exit_code > KERNEL_STATUS_FLOOR {
        Some(exit_code / 2 - 0x10)
    } else {
        None
    }
}

/// What the emulator is started with.
#[derive(Clone, Copy, Debug, PartialEq, Eq, Structural)]
pub enum QemuOption {
    /// The disk image of the kernel, as a raw drive.
    Drive,
    /// The firmware image.
    Bios,
    /// No window.
    NoDisplay,
    /// The debug-exit device on `DEBUG_EXIT_PORT`.
    DebugExit,
    /// The serial port on standard input and output.
    SerialStdio,
}

/// The options of a run, in the order in which they are given.
pub open spec fn options(serial_output: bool, hide_window: bool) -> Seq<QemuOption> {
    seq![QemuOption::Drive, QemuOption::Bios] + (if hide_window {
        seq![QemuOption::NoDisplay]
    } else {
        Seq::empty()
    }) + (if serial_output {
        seq![QemuOption::DebugExit, QemuOption::SerialStdio]
    } else {
        Seq::empty()
    })
}

/// The options that the emulator is started with: drive and firmware always,
/// no window where it is hidden, and the debug-exit device and the serial
/// port where the serial output is wanted.
pub fn run_qemu(serial_output: bool, hide_window: bool) -> (r: Vec<QemuOption>)
    ensures
        r@ == options(serial_output, hide_window),
{
    let mut r: Vec<QemuOption> = Vec::new();
    r.push(QemuOption::Drive);
    r.push(QemuOption::Bios);
    if hide_window {
        r.push(QemuOption::NoDisplay);
    }
    if serial_output {
        r.push(QemuOption::DebugExit);
        r.push(QemuOption::SerialStdio);
    }
    assert(r@ =~= options(serial_output, hide_window));
    r
}

/// The status of the emulator gives back what the kernel wrote: for each code
/// from the one for success on, the kernel's result is the code counted from
/// there.
pub proof fn lemma_exit_code_comes_back(code: u8)
    requires
        code >= SUCCESS_CODE,
    ensures
        2 * code + 1 > KERNEL_STATUS_FLOOR,
        (2 * code + 1) / 2 - SUCCESS_CODE == code - SUCCESS_CODE,
{
}

} // verus!
