//! What the library hands to outside crates, with a record of what was handed.
//!
//! Each record has private fields and is made only by the call that hands the
//! value over, so holding one shows that the call was made with that value.
use calloop::channel::Sender;
use smithay_client_toolkit::reexports::client::protocol::wl_output::WlOutput;
use vstd::prelude::*;

verus! {

/// The sending end of a channel whose receiving end is an event source of the loop.
#[verifier::external_type_specification]
#[verifier::external_body]
#[verifier::reject_recursive_types(T)]
pub struct ExSender<T>(calloop::channel::Sender<T>);

/// The record of a message handed to a channel.
pub struct Sent<T> {
    message: Ghost<T>,
}

impl<T> Sent<T> {
    /// The message that was handed to the channel.
    pub closed spec fn message(&self) -> T {
        self.message@
    }
}

/// Sends `message` through `sender` (`calloop::channel::Sender::send`), which
/// wakes the loop up and does not panic. Whether the receiving end still
/// exists is not known here. When it does, the message was handed to the
/// channel and the record names it; when it does not, the message comes back,
/// unchanged, as the error (the payload of `std::sync::mpsc::SendError`).
#[verifier::external_body]
pub(crate) fn channel_send<T>(sender: &Sender<T>, message: T) -> (result: Result<Sent<T>, T>)
    ensures
        match result {
            Ok(sent) => sent.message() == message,
            Err(m) => m == message,
        },
{
    let sent = Sent { message: Ghost(message) };
    match sender.send(message) {
        Ok(()) => Ok(sent),
        Err(std::sync::mpsc::SendError(m)) => Err(m),
    }
}

/// Another sending end of the same channel (`Clone` of `calloop::channel::Sender`).
/// Nothing is claimed of it: which channel a sender feeds is not visible here.
#[verifier::external_body]
pub(crate) fn clone_sender<T>(sender: &Sender<T>) -> (copy: Sender<T>) {
    sender.clone()
}

/// A handle to an output, with the record of the handle it was cloned from.
pub struct OutputHandle {
    output: WlOutput,
    source: Ghost<WlOutput>,
}

impl OutputHandle {
    /// The handle this one was cloned from.
    pub closed spec fn source(&self) -> WlOutput {
        self.source@
    }

    /// The handle held.
    pub closed spec fn held(&self) -> WlOutput {
        self.output
    }

    /// The handle held.
    pub fn output(&self) -> (output: &WlOutput)
        ensures
            *output == self.held(),
    {
        &self.output
    }
}

/// Another handle to the same output (`Clone` of `WlOutput`). The clone is
/// detached from any event queue, so it need not equal `output` as a value;
/// the record says which handle it was cloned from, and nothing more is claimed.
#[verifier::external_body]
pub(crate) fn clone_output(output: &WlOutput) -> (copy: OutputHandle)
    ensures
        copy.source() == *output,
{
    OutputHandle { output: output.clone(), source: Ghost(*output) }
}

} // verus!
