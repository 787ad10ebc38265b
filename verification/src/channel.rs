use vstd::prelude::*;
use crate::command::Command;

verus! {

#[verifier::external_type_specification]
#[verifier::external_body]
#[verifier::reject_recursive_types(T)]
pub struct ExSender<T>(std::sync::mpsc::Sender<T>);

/// The error reported when the fetch worker can no longer be reached: the
/// receiving end of the command channel is gone.
pub struct ChannelClosed;

/// Relies on std::sync::mpsc::Sender::send: it returns an error exactly
/// when the receiving end has been dropped, and otherwise queues the value
/// for the worker. Whether the worker is still alive depends on the state
/// of the process, so nothing is promised of the outcome.
#[verifier::external_body]
pub(crate) fn send_command(tx: &std::sync::mpsc::Sender<Command>, command: Command) -> (r: Result<
    (),
    ChannelClosed,
>) {
    match tx.send(command) {
        Ok(()) => Ok(()),
        Err(_) => Err(ChannelClosed),
    }
}

} // verus!
