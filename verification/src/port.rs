//! Byte-transfer port under the transaction orchestrator.
//!
//! A port moves a buffer of bytes across the serial link inside one
//! chip-select window: every byte shifted out has a byte shifted in. The
//! trait pins each implementation to a deterministic model over its view:
//! which transfers succeed, what comes back, and how the port state moves.
//!
//! [`ScriptedPort`] is the verified simulator: it answers transfers from a
//! scripted byte sequence and logs everything transmitted, which is what the
//! orchestrator's tests run against.

use vstd::prelude::*;

verus! {

/// A full-duplex byte-transfer port with a deterministic model.
pub trait SpiPort: Sized + View {
    type Error;

    /// Whether a transfer of these bytes succeeds from this state.
    spec fn spec_ok(v: Self::V, tx: Seq<u8>) -> bool;

    /// The bytes shifted in during a successful transfer of `tx`.
    spec fn spec_rx(v: Self::V, tx: Seq<u8>) -> Seq<u8>;

    /// The port state after a successful transfer of `tx`.
    spec fn spec_next(v: Self::V, tx: Seq<u8>) -> Self::V;

    /// One byte comes back for every byte sent.
    proof fn lemma_rx_len(v: Self::V, tx: Seq<u8>)
        ensures
            Self::spec_rx(v, tx).len() == tx.len(),
    ;

    /// Shift `tx` out and the reply in, all inside one chip-select window.
    /// A failed transfer leaves the port state as it was.
    fn transfer(&mut self, tx: &Vec<u8>) -> (r: Result<Vec<u8>, Self::Error>)
        ensures
            r is Ok <==> Self::spec_ok(old(self)@, tx@),
            Self::spec_ok(old(self)@, tx@) ==> final(self)@ == Self::spec_next(old(self)@, tx@),
            !Self::spec_ok(old(self)@, tx@) ==> final(self)@ == old(self)@,
            (r matches Ok(rx) ==> rx@ == Self::spec_rx(old(self)@, tx@)),
    ;
}

/// The error of a [`ScriptedPort`]: the script has no bytes left for the
/// requested transfer.
#[derive(Clone, Copy, Debug, PartialEq, Eq, Structural)]
pub struct ScriptRanOut;

/// Ghost model of a [`ScriptedPort`]: the scripted reply bytes, how many of
/// them were already consumed, and everything transmitted so far.
pub ghost struct ScriptModel {
    pub script: Seq<u8>,
    pub cursor: int,
    pub sent: Seq<u8>,
}

/// A simulated serial engine answering each transferred byte with the next
/// scripted byte, and keeping a log of the bytes it was handed.
pub struct ScriptedPort {
    /// The bytes the simulated device will shift out, in order.
    pub script: Vec<u8>,
    /// How many script bytes were consumed already.
    pub cursor: usize,
    /// Every byte shifted out through this port, in order.
    pub sent: Vec<u8>,
}

impl View for ScriptedPort {
    type V = ScriptModel;

    open spec fn view(&self) -> ScriptModel {
        ScriptModel { script: self.script@, cursor: self.cursor as int, sent: self.sent@ }
    }
}

impl ScriptedPort {
    /// A port that will answer transfers with the given bytes.
    pub fn new(script: Vec<u8>) -> (r: Self)
        ensures
            r@.script == script@,
            r@.cursor == 0,
            r@.sent == Seq::<u8>::empty(),
    {
        ScriptedPort { script, cursor: 0, sent: Vec::new() }
    }
}

impl SpiPort for ScriptedPort {
    type Error = ScriptRanOut;

    open spec fn spec_ok(v: ScriptModel, tx: Seq<u8>) -> bool {
        0 <= v.cursor && v.cursor + tx.len() <= v.script.len()
    }

    open spec fn spec_rx(v: ScriptModel, tx: Seq<u8>) -> Seq<u8> {
        Seq::new(tx.len(), |i: int| v.script[v.cursor + i])
    }

    open spec fn spec_next(v: ScriptModel, tx: Seq<u8>) -> ScriptModel {
        ScriptModel { script: v.script, cursor: v.cursor + tx.len(), sent: v.sent + tx }
    }

    proof fn lemma_rx_len(v: ScriptModel, tx: Seq<u8>) {
    }

    fn transfer(&mut self, tx: &Vec<u8>) -> (r: Result<Vec<u8>, ScriptRanOut>) {
        if tx.len() <= self.script.len() && self.cursor <= self.script.len() - tx.len() {
            let mut rx: Vec<u8> = Vec::new();
            let mut i: usize = 0;
            while i < tx.len()
                invariant
                    i <= tx@.len(),
                    self.cursor + tx@.len() <= self.script@.len(),
                    self.script@.len() <= usize::MAX,
                    self.script@ == old(self).script@,
                    self.cursor == old(self).cursor,
                    rx@ == Seq::new(i as nat, |j: int| self.script@[self.cursor + j]),
                    self.sent@ == old(self).sent@ + tx@.take(i as int),
                decreases tx@.len() - i,
            {
                proof {
                    assert(old(self).sent@ + tx@.take(i as int + 1) =~= (old(self).sent@
                        + tx@.take(i as int)).push(tx@[i as int]));
                    assert(Seq::new((i + 1) as nat, |j: int| self.script@[self.cursor + j])
                        =~= Seq::new(i as nat, |j: int| self.script@[self.cursor + j]).push(
                        self.script@[self.cursor + i],
                    ));
                }
                rx.push(self.script[self.cursor + i]);
                self.sent.push(tx[i]);
                i = i + 1;
            }
            self.cursor = self.cursor + tx.len();
            proof {
                assert(rx@ =~= Self::spec_rx(old(self)@, tx@));
                assert(old(self).sent@ + tx@.take(tx@.len() as int) =~= old(self).sent@ + tx@);
                assert(self@ == Self::spec_next(old(self)@, tx@));
            }
            Ok(rx)
        } else {
            Err(ScriptRanOut)
        }
    }
}

} // verus!
