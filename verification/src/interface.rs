//! Capability contracts the driver consumes from the host platform.
//!
//! The driver itself never touches a bus or a pin: it talks to a
//! [`Transport`] (a tagged command/data byte sink), an [`OutputLine`]
//! (the reset line) and a [`Delay`]. Each trait carries a ghost history
//! of what has been asked of it, so the driver's contracts can state
//! exactly which transactions a call emits and in which order.

use vstd::prelude::*;

verus! {

/// The ways a driver operation can fail.
///
/// Failures are surfaced unchanged to the caller: the driver never
/// retries, since a failed bus write leaves the controller state
/// indeterminate and a silent retry could mask a wiring fault.
#[derive(Clone, Copy, Debug, PartialEq, Eq, Structural)]
pub enum DisplayError {
    /// A bus write (command or data transaction) failed.
    BusWriteError,
    /// The reset output line failed to change state.
    PinError,
}

/// One transaction on the bus: a byte sequence tagged as either
/// control information or pixel data. Tags are never mixed within a
/// single transaction.
#[verifier::ext_equal]
pub enum Transaction {
    Command(Seq<u8>),
    Data(Seq<u8>),
}

/// A write-only command/data bus.
///
/// `log` is the ghost history of the transactions carried out so far;
/// a failed write must leave it unchanged. Implementors promise
/// nothing about when a write succeeds, only how the history moves.
pub trait Transport {
    /// The transactions successfully carried out so far, oldest first.
    ///
    /// The default history is empty, which satisfies no write's
    /// contract: an implementor whose callers reason about the
    /// history overrides this with its own record.
    open spec fn log(&self) -> Seq<Transaction> {
        Seq::empty()
    }

    /// Sends one command transaction: `bytes` as a whole, tagged as
    /// control information.
    fn send_commands(&mut self, bytes: &Vec<u8>) -> (r: Result<(), DisplayError>)
        ensures
            r is Ok ==> final(self).log() == old(self).log().push(
                Transaction::Command(bytes@),
            ),
            r is Err ==> final(self).log() == old(self).log(),
    ;

    /// Sends one data transaction: `bytes` as a whole, tagged as
    /// pixel data.
    fn send_data(&mut self, bytes: &Vec<u8>) -> (r: Result<(), DisplayError>)
        ensures
            r is Ok ==> final(self).log() == old(self).log().push(Transaction::Data(bytes@)),
            r is Err ==> final(self).log() == old(self).log(),
    ;
}

/// A fallible digital output line (the controller's reset input).
///
/// `levels` is the ghost history of the levels successfully driven
/// onto the line, oldest first; a failed change must leave it
/// unchanged.
pub trait OutputLine {
    /// The levels driven so far: `true` for high, `false` for low.
    ///
    /// Defaults to an empty history; an implementor whose callers
    /// reason about the history overrides it.
    open spec fn levels(&self) -> Seq<bool> {
        Seq::empty()
    }

    /// Drives the line high.
    fn set_high(&mut self) -> (r: Result<(), DisplayError>)
        ensures
            r is Ok ==> final(self).levels() == old(self).levels().push(true),
            r is Err ==> final(self).levels() == old(self).levels(),
    ;

    /// Drives the line low.
    fn set_low(&mut self) -> (r: Result<(), DisplayError>)
        ensures
            r is Ok ==> final(self).levels() == old(self).levels().push(false),
            r is Err ==> final(self).levels() == old(self).levels(),
    ;
}

/// A blocking, non-fallible delay primitive.
///
/// `delays` is the ghost history of the pauses performed, in
/// nanoseconds, oldest first.
pub trait Delay {
    /// The pauses performed so far, in nanoseconds, oldest first.
    ///
    /// Defaults to an empty history; an implementor whose callers
    /// reason about the history overrides it.
    open spec fn delays(&self) -> Seq<u32> {
        Seq::empty()
    }

    /// Blocks for at least `ns` nanoseconds.
    fn delay_ns(&mut self, ns: u32)
        ensures
            final(self).delays() == old(self).delays().push(ns),
    ;
}

} // verus!
