//! Verified recording doubles for the platform capabilities.
//!
//! Each double records what is asked of it and always succeeds; its
//! ghost history is exactly its record. They serve tests that check
//! which transactions a driver call emits and in what order.

use crate::interface::{Delay, DisplayError, OutputLine, Transaction, Transport};
use vstd::prelude::*;

verus! {

/// Copies a byte vector element by element.
fn copy_bytes(src: &Vec<u8>) -> (r: Vec<u8>)
    ensures
        r@ == src@,
{
    let mut out: Vec<u8> = Vec::new();
    let mut i: usize = 0;
    while i < src.len()
        invariant
            i <= src@.len(),
            out@ == src@.take(i as int),
        decreases src@.len() - i,
    {
        let b = src[i];
        out.push(b);
        proof {
            assert(src@.take(i as int + 1) =~= src@.take(i as int).push(src@[i as int]));
        }
        i += 1;
    }
    proof {
        assert(src@.take(src@.len() as int) =~= src@);
    }
    out
}

/// A bus double: records every transaction, tagged `true` for a
/// command write and `false` for a data write, and always succeeds.
pub struct RecordingTransport {
    /// The writes carried out, oldest first: the tag and the bytes.
    pub writes: Vec<(bool, Vec<u8>)>,
}

impl RecordingTransport {
    /// A recorder with an empty history.
    pub fn new() -> (r: RecordingTransport)
        ensures
            r.log() == Seq::<Transaction>::empty(),
    {
        let r = RecordingTransport { writes: Vec::new() };
        proof {
            assert(r.log() =~= Seq::<Transaction>::empty());
        }
        r
    }
}

impl Transport for RecordingTransport {
    open spec fn log(&self) -> Seq<Transaction> {
        self.writes@.map(
            |i: int, w: (bool, Vec<u8>)|
                if w.0 {
                    Transaction::Command(w.1@)
                } else {
                    Transaction::Data(w.1@)
                },
        )
    }

    fn send_commands(&mut self, bytes: &Vec<u8>) -> (r: Result<(), DisplayError>) {
        let copy = copy_bytes(bytes);
        self.writes.push((true, copy));
        proof {
            assert(self.log() =~= old(self).log().push(Transaction::Command(bytes@)));
        }
        Ok(())
    }

    fn send_data(&mut self, bytes: &Vec<u8>) -> (r: Result<(), DisplayError>) {
        let copy = copy_bytes(bytes);
        self.writes.push((false, copy));
        proof {
            assert(self.log() =~= old(self).log().push(Transaction::Data(bytes@)));
        }
        Ok(())
    }
}

/// A reset-line double: records every level driven and always
/// succeeds.
pub struct RecordingPin {
    /// The levels driven, oldest first: `true` for high.
    pub history: Vec<bool>,
}

impl RecordingPin {
    /// A recorder with an empty history.
    pub fn new() -> (r: RecordingPin)
        ensures
            r.levels() == Seq::<bool>::empty(),
    {
        let r = RecordingPin { history: Vec::new() };
        proof {
            assert(r.levels() =~= Seq::<bool>::empty());
        }
        r
    }
}

impl OutputLine for RecordingPin {
    open spec fn levels(&self) -> Seq<bool> {
        self.history@
    }

    fn set_high(&mut self) -> (r: Result<(), DisplayError>) {
        self.history.push(true);
        Ok(())
    }

    fn set_low(&mut self) -> (r: Result<(), DisplayError>) {
        self.history.push(false);
        Ok(())
    }
}

/// A delay double: records every pause asked for, in nanoseconds, and
/// returns at once.
pub struct RecordingDelay {
    /// The pauses asked for, in nanoseconds, oldest first.
    pub history: Vec<u32>,
}

impl RecordingDelay {
    /// A recorder with an empty history.
    pub fn new() -> (r: RecordingDelay)
        ensures
            r.delays() == Seq::<u32>::empty(),
    {
        let r = RecordingDelay { history: Vec::new() };
        proof {
            assert(r.delays() =~= Seq::<u32>::empty());
        }
        r
    }
}

impl Delay for RecordingDelay {
    open spec fn delays(&self) -> Seq<u32> {
        self.history@
    }

    fn delay_ns(&mut self, ns: u32) {
        self.history.push(ns);
    }
}

} // verus!
