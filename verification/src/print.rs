//! The one place that text is printed through: a handler that is set once.

use vstd::prelude::*;

verus! {

/// Names the routine that prints: the kernel keeps the routines themselves.
pub type PrintHandler = u64;

/// The slot for the print handler: a `conquer_once::spin::OnceCell`. It is
/// empty at boot and is filled once.
#[verifier::external_body]
pub struct PrintHandlerCell {
    cell: conquer_once::spin::OnceCell<u64>,
}

/// What the slot holds: nothing before it is filled, and from then on the
/// handler that it was filled with.
pub uninterp spec fn installed_handler(cell: PrintHandlerCell) -> Option<u64>;

/// Why a slot was not filled by a call.
#[derive(Clone, Copy, Debug, PartialEq, Eq, Structural)]
pub enum TryInitError {
    /// The slot holds a handler already.
    AlreadyInit,
    /// Somebody else is filling the slot at this moment.
    WouldBlock,
}

/// Calls `conquer_once::spin::OnceCell::uninit`, which makes a cell that
/// holds nothing.
#[verifier::external_body]
fn cell_uninit() -> (cell: PrintHandlerCell)
    ensures
        installed_handler(cell).is_none(),
{
    PrintHandlerCell { cell: conquer_once::spin::OnceCell::uninit() }
}

/// Calls `conquer_once::spin::OnceCell::try_init_once` with a closure that
/// gives `handler`. A cell that holds nothing holds `handler` afterwards; one
/// that holds a value keeps it and reports `AlreadyInit`. Nobody else can be
/// initialising a cell that is borrowed exclusively.
#[verifier::external_body]
fn cell_try_init_once(cell: &mut PrintHandlerCell, handler: u64) -> (r: Option<TryInitError>)
    ensures
        installed_handler(*old(cell)).is_none() ==> r.is_none() && installed_handler(*final(cell))
            == Some(handler),
        installed_handler(*old(cell)).is_some() ==> r == Some(TryInitError::AlreadyInit)
            && installed_handler(*final(cell)) == installed_handler(*old(cell)),
{
    match cell.cell.try_init_once(|| handler) {
        Ok(()) => None,
        Err(conquer_once::TryInitError::AlreadyInit) => Some(TryInitError::AlreadyInit),
        Err(conquer_once::TryInitError::WouldBlock) => Some(TryInitError::WouldBlock),
    }
}

/// Calls `conquer_once::spin::OnceCell::get`, which gives what the cell
/// holds.
#[verifier::external_body]
fn cell_get(cell: &PrintHandlerCell) -> (r: Option<u64>)
    ensures
        r == installed_handler(*cell),
{
    cell.cell.get().copied()
}

impl PrintHandlerCell {
    /// An empty slot.
    pub fn uninit() -> (cell: PrintHandlerCell)
        ensures
            installed_handler(cell).is_none(),
    {
        cell_uninit()
    }
}

/// Makes `handler` the print handler, unless one is set already: then the
/// first one stays and the call reports `AlreadyInit`.
pub fn set_print_handler(cell: &mut PrintHandlerCell, handler: PrintHandler) -> (r: Result<
    (),
    TryInitError,
>)
    ensures
        installed_handler(*old(cell)).is_none() ==> r.is_ok() && installed_handler(*final(cell))
            == Some(handler),
        installed_handler(*old(cell)).is_some() ==> r == Err::<(), TryInitError>(
            TryInitError::AlreadyInit,
        ) && installed_handler(*final(cell)) == installed_handler(*old(cell)),
{
    match cell_try_init_once(cell, handler) {
        None => Ok(()),
        Some(error) => Err(error),
    }
}

/// The handler that text is to be handed to, or `None` while none is set:
/// then the text is dropped.
pub fn _print(cell: &PrintHandlerCell) -> (handler: Option<PrintHandler>)
    ensures
        handler == installed_handler(*cell),
{
    cell_get(cell)
}

} // verus!
