//! What the engine is told about the call it serves: the time on the ledger
//! clock, who signed, and how the external call it asked for ended.

use vstd::prelude::*;
use crate::address::Address;

verus! {

/// How an external call ended.
#[derive(Clone, Copy, Debug, PartialEq, Eq, Structural)]
pub enum CallOutcome {
    /// The call returned normally.
    Completed,
    /// The call failed.
    Failed,
}

/// The facts about one call into the engine that the engine cannot find out
/// by itself.
#[derive(Debug, PartialEq, Eq)]
pub struct Invocation {
    /// The time on the ledger clock, in seconds.
    pub timestamp: u64,
    /// The identities that authorized this call.
    pub signers: Vec<Address>,
}

/// An [`Invocation`] as a mathematical value.
pub struct InvocationView {
    pub timestamp: u64,
    pub signers: Set<Seq<char>>,
}

impl View for Invocation {
    type V = InvocationView;

    open spec fn view(&self) -> InvocationView {
        InvocationView {
            timestamp: self.timestamp,
            signers: Set::new(
                |key: Seq<char>|
                    exists|i: int| 0 <= i < self.signers@.len() && self.signers@[i]@ == key,
            ),
        }
    }
}

impl Invocation {
    /// A call at the given time that nobody has signed.
    pub fn new(timestamp: u64) -> (call: Invocation)
        ensures
            call@.timestamp == timestamp,
            call@.signers == Set::<Seq<char>>::empty(),
    {
        let call = Invocation { timestamp, signers: Vec::new() };
        assert(call@.signers =~= Set::<Seq<char>>::empty());
        call
    }

    /// Records that `signer` authorized this call.
    pub fn authorize(&mut self, signer: Address)
        ensures
            final(self)@.timestamp == old(self)@.timestamp,
            final(self)@.signers == old(self)@.signers.insert(signer@),
    {
        let ghost before = self.signers@;
        self.signers.push(signer);
        proof {
            let after = self.signers@;
            assert forall|key: Seq<char>|
                self@.signers.contains(key) == old(self)@.signers.insert(signer@).contains(
                    key,
                ) by {
                if old(self)@.signers.insert(signer@).contains(key) {
                    if key == signer@ {
                        assert(after[before.len() as int]@ == key);
                    } else {
                        let i = choose|i: int| 0 <= i < before.len() && before[i]@ == key;
                        assert(after[i]@ == key);
                    }
                }
                if self@.signers.contains(key) {
                    let i = choose|i: int| 0 <= i < after.len() && after[i]@ == key;
                    if i < before.len() {
                        assert(before[i]@ == key);
                    }
                }
            }
            assert(self@.signers =~= old(self)@.signers.insert(signer@));
        }
    }

    /// Whether `who` authorized this call.
    pub fn authorized_by(&self, who: &Address) -> (authorized: bool)
        ensures
            authorized == self@.signers.contains(who@),
    {
        let mut i: usize = 0;
        while i < self.signers.len()
            invariant
                i <= self.signers.len(),
                forall|j: int| 0 <= j < i ==> self.signers@[j]@ != who@,
            decreases self.signers.len() - i,
        {
            if self.signers[i].same(who) {
                return true;
            }
            i += 1;
        }
        false
    }
}

} // verus!
