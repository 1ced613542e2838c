//! Sending an encoded command to the controller.

use crate::command::Command;
use crate::frame::{encode, spec_encode, EncodedFrame};
use display_interface::DisplayError;
use vstd::prelude::*;

verus! {

/// `display_interface::DisplayError`, the error that a transport reports.
/// Nothing is claimed of its contents: a value of it is only handed on.
#[verifier::external_type_specification]
#[verifier::external_body]
pub struct ExDisplayError(display_interface::DisplayError);

/// Encodes `command` and hands its bytes, command byte first, to `write`, the
/// transport's operation for bytes that are commands rather than pixel data.
///
/// `write` is called once, with exactly the bytes of the command's frame, and
/// what it returns is returned as it is: `Ok(())` when the transport accepted
/// the bytes, and otherwise the transport's own error. Nothing is retried.
pub fn send_command<W>(write: W, command: Command) -> (outcome: Result<(), DisplayError>) where
    W: FnOnce(&[u8]) -> Result<(), DisplayError>,

    requires
        forall|bytes: &[u8]| bytes@ == spec_encode(command)@ ==> call_requires(write, (bytes,)),
    ensures
        exists|bytes: &[u8]|
            bytes@ == spec_encode(command)@ && call_ensures(write, (bytes,), outcome),
{
    match encode(command) {
        EncodedFrame::Single(command_byte) => {
            let buffer: [u8; 1] = [command_byte];
            assert(buffer@ =~= spec_encode(command)@);
            write(buffer.as_slice())
        },
        EncodedFrame::Double(command_byte, parameter) => {
            let buffer: [u8; 2] = [command_byte, parameter];
            assert(buffer@ =~= spec_encode(command)@);
            write(buffer.as_slice())
        },
    }
}

} // verus!
