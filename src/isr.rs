//! The interrupt handlers' bodies, run on the shared state that the critical
//! section hands them. A cell is empty until boot installs its contents; an
//! interrupt before that is refused, for the caller to fail fast.
use vstd::prelude::*;
use crate::serial_buffer::{receive_spec, SerialBuffer};
use crate::timer::{compare_match_spec, on_compare_match, TimerStructure};

verus! {

/// The shared state was used before boot installed it.
#[derive(Clone, Copy, Debug, PartialEq, Eq, Structural)]
pub enum CellError {
    NotInitialized,
}

/// The compare-match interrupt: toggles the step pin.
pub fn timer1_compa(cell: &mut Option<TimerStructure>) -> (r: Result<(), CellError>)
    ensures
        (*old(cell)) is None <==> r is Err,
        r is Err ==> r == Err::<(), CellError>(CellError::NotInitialized) && *final(cell) == *old(cell),
        (*old(cell)) is Some ==> *final(cell) == Some(compare_match_spec((*old(cell))->0)),
{
    match cell {
        Some(timer) => {
            on_compare_match(timer);
            Ok(())
        },
        None => Err(CellError::NotInitialized),
    }
}

/// The receive interrupt: takes one byte into the line buffer.
pub fn usart_rx(cell: &mut Option<SerialBuffer>, byte: u8) -> (r: Result<(), CellError>)
    requires
        (*old(cell)) is Some ==> (*old(cell))->0.wf(),
    ensures
        (*old(cell)) is None <==> r is Err,
        r is Err ==> r == Err::<(), CellError>(CellError::NotInitialized) && (*old(cell)) is None && (*final(cell)) is None,
        (*old(cell)) is Some ==> (*final(cell)) is Some && (*final(cell))->0.wf() && (*final(cell))->0.view()
            == receive_spec((*old(cell))->0.view(), byte),
{
    match cell {
        Some(buffer) => {
            buffer.receive_byte(byte);
            Ok(())
        },
        None => Err(CellError::NotInitialized),
    }
}

} // verus!
