//! What the background reader keeps of the child's output.
use vstd::prelude::*;
use crate::lifecycle::Event;

verus! {

/// The outcome of one read from the controlling side.
#[derive(Clone, Debug, PartialEq, Eq)]
pub enum ReadOutcome {
    /// These bytes were read.
    Data(Vec<u8>),
    /// The read was interrupted before anything arrived; read again.
    Interrupted,
    /// End-of-stream: nothing more will arrive.
    End,
    /// The read failed.
    Failed(String),
}

/// The bytes read so far, in the order they arrived.
#[derive(Clone, Debug)]
pub struct Drain {
    bytes: Vec<u8>,
}

/// What a drain does after one read.
#[derive(Debug)]
pub enum DrainStep {
    /// Read again, with these bytes kept.
    More(Drain),
    /// Stop, and hand this event to the run.
    Over(Event),
}

impl View for Drain {
    type V = Seq<u8>;

    closed spec fn view(&self) -> Seq<u8> {
        self.bytes@
    }
}

impl Drain {
    /// A drain that has read nothing.
    pub fn new() -> (r: Drain)
        ensures
            r@ == Seq::<u8>::empty(),
    {
        Drain { bytes: Vec::new() }
    }

    /// Takes the outcome of one read. Bytes read are kept after those before;
    /// an interrupted read changes nothing; at end-of-stream every byte kept
    /// is handed over at once; a failed read discards them and reports it.
    pub fn absorb(self, outcome: ReadOutcome) -> (r: DrainStep)
        ensures
            outcome matches ReadOutcome::Data(chunk) ==> (r matches DrainStep::More(d) && d@ == self@ + chunk@),
            outcome is Interrupted ==> (r matches DrainStep::More(d) && d@ == self@),
            outcome is End ==> (r matches DrainStep::Over(Event::DrainFinished(out)) && out@ == self@),
            outcome matches ReadOutcome::Failed(m) ==> r == DrainStep::Over(Event::DrainBroke(m)),
    {
        match outcome {
            ReadOutcome::Data(chunk) => {
                let mut bytes = self.bytes;
                let ghost before = bytes@;
                let mut i: usize = 0;
                while i < chunk.len()
                    invariant
                        i <= chunk@.len(),
                        bytes@ == before + chunk@.take(i as int),
                    decreases chunk@.len() - i,
                {
                    bytes.push(chunk[i]);
                    assert(chunk@.take(i + 1) =~= chunk@.take(i as int).push(chunk@[i as int]));
                    i = i + 1;
                }
                assert(chunk@.take(chunk@.len() as int) =~= chunk@);
                DrainStep::More(Drain { bytes })
            },
            ReadOutcome::Interrupted => DrainStep::More(self),
            ReadOutcome::End => DrainStep::Over(Event::DrainFinished(self.bytes)),
            ReadOutcome::Failed(m) => DrainStep::Over(Event::DrainBroke(m)),
        }
    }
}

} // verus!
