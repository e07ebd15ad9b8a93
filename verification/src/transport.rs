//! The sending half of the transport channel to the core: an in-memory
//! queue end that never blocks the caller, together with the history of
//! every message handed to it, which the contracts upstream speak of.

use vstd::prelude::*;

verus! {

/// The sending end of a standard in-memory channel, declared so the
/// library can hold one in a field and call it.
#[verifier::external_type_specification]
#[verifier::external_body]
#[verifier::reject_recursive_types(T)]
pub struct ExSender<T>(std::sync::mpsc::Sender<T>);

/// The channel end messages to the core are handed to. Its view is the
/// sequence of messages sent through it so far, oldest first.
pub struct XiPeer {
    tx: std::sync::mpsc::Sender<String>,
    sent: Ghost<Seq<Seq<char>>>,
}

impl View for XiPeer {
    type V = Seq<Seq<char>>;

    closed spec fn view(&self) -> Seq<Seq<char>> {
        self.sent@
    }
}

impl XiPeer {
    /// Wrap the sending end of a channel whose receiving end the core-facing
    /// thread reads from.
    pub fn new(tx: std::sync::mpsc::Sender<String>) -> (p: XiPeer)
        ensures
            p@ == Seq::<Seq<char>>::empty(),
    {
        XiPeer { tx, sent: Ghost(Seq::empty()) }
    }

    /// Hand one message to the channel. Fire-and-forget: the call never
    /// blocks, and if the receiving end has been torn down the message is
    /// silently dropped.
    ///
    /// Relies on std::sync::mpsc::Sender::send, which does not block and
    /// whose only failure is a disconnected receiver.
    #[verifier::external_body]
    pub fn send(&mut self, s: String)
        ensures
            final(self)@ == old(self)@.push(s@),
    {
        let _ = self.tx.send(s);
    }
}

} // verus!
