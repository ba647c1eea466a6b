//! The per-call shared result buffer: the only channel through which a
//! host import invoked by guest code can deposit a final result for the
//! supervisor to read.

use vstd::prelude::*;

verus! {

/// A write-once result buffer. One slot is created per call, empty; a host
/// import may fill it at most once while the guest runs; the supervisor reads
/// it once after the execution unit has completed. A second deposit is
/// refused rather than overwriting the first, so the buffer is written at
/// most once by construction.
pub struct ResultSlot {
    written: bool,
    buffer: Vec<u8>,
}

impl ResultSlot {
    /// The bytes deposited so far: `None` until a deposit happens, then
    /// `Some` of the deposited bytes, forever.
    pub closed spec fn view(&self) -> Option<Seq<u8>> {
        if self.written {
            Some(self.buffer@)
        } else {
            None
        }
    }

    /// An unwritten slot holds no bytes.
    #[verifier::type_invariant]
    spec fn well_formed(self) -> bool {
        !self.written ==> self.buffer@ == Seq::<u8>::empty()
    }

    /// A fresh, empty slot. Every call constructs its own; no slot is ever
    /// shared between two calls.
    pub fn new() -> (slot: ResultSlot)
        ensures
            slot@ is None,
    {
        ResultSlot { written: false, buffer: Vec::new() }
    }

    /// Deposits the call's result bytes. The first deposit fills the slot and
    /// returns true; any later deposit leaves the slot unchanged and returns
    /// false.
    pub fn deposit(&mut self, bytes: Vec<u8>) -> (accepted: bool)
        ensures
            old(self)@ is None ==> accepted && final(self)@ == Some(bytes@),
            old(self)@ is Some ==> !accepted && final(self)@ == old(self)@,
    {
        proof {
            use_type_invariant(&*self);
        }
        if self.written {
            false
        } else {
            self.written = true;
            self.buffer = bytes;
            true
        }
    }

    /// The bytes the supervisor reports for this call: the deposited bytes,
    /// or no bytes at all when the guest never deposited any.
    pub fn contents(&self) -> (bytes: Vec<u8>)
        ensures
            bytes@ == match self@ {
                Some(deposited) => deposited,
                None => Seq::<u8>::empty(),
            },
    {
        proof {
            use_type_invariant(self);
        }
        let mut copy: Vec<u8> = Vec::new();
        let mut i: usize = 0;
        while i < self.buffer.len()
            invariant
                i <= self.buffer.len(),
                copy@ == self.buffer@.subrange(0, i as int),
            decreases self.buffer.len() - i,
        {
            copy.push(self.buffer[i]);
            i = i + 1;
            proof {
                assert(copy@ =~= self.buffer@.subrange(0, i as int));
            }
        }
        proof {
            assert(self.buffer@.subrange(0, self.buffer@.len() as int) =~= self.buffer@);
        }
        copy
    }
}

} // verus!
