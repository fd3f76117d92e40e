//! The double-buffered instruction queue that decouples changes to the scene
//! from the construction of a frame.
//!
//! Changes are appended to the producer side at any time. A frame begins by
//! swapping the sides and then drains the consumer side, in the order in
//! which the instructions were appended.

use vstd::prelude::*;

verus! {

/// What the two sides of a queue hold, oldest instruction first.
pub struct Streams<I> {
    pub producer: Seq<I>,
    pub consumer: Seq<I>,
}

impl<I> Streams<I> {
    /// Appending one instruction to the producer side.
    pub open spec fn push(self, instruction: I) -> Self {
        Streams { producer: self.producer.push(instruction), consumer: self.consumer }
    }

    /// Appending a batch of instructions, one after another.
    pub open spec fn push_all(self, batch: Seq<I>) -> Self
        decreases batch.len(),
    {
        if batch.len() == 0 {
            self
        } else {
            self.push_all(batch.drop_last()).push(batch.last())
        }
    }

    /// Exchanging the two sides.
    pub open spec fn swap(self) -> Self {
        Streams { producer: self.consumer, consumer: self.producer }
    }

    /// The queue after the consumer side was drained.
    pub open spec fn drained(self) -> Self {
        Streams { producer: self.producer, consumer: Seq::empty() }
    }
}

/// Appending a batch leaves the consumer side alone and puts the batch, in
/// its order, behind what the producer side held.
pub proof fn lemma_push_all<I>(streams: Streams<I>, batch: Seq<I>)
    ensures
        streams.push_all(batch).producer == streams.producer + batch,
        streams.push_all(batch).consumer == streams.consumer,
    decreases batch.len(),
{
    if batch.len() == 0 {
        assert(streams.producer + batch =~= streams.producer);
    } else {
        lemma_push_all(streams, batch.drop_last());
        assert((streams.producer + batch.drop_last()).push(batch.last()) =~= streams.producer
            + batch);
    }
}

/// A frame drains what was appended before its swap, in append order, and
/// nothing that is appended after the swap: with the consumer side empty,
/// appending `batch`, swapping and appending `late` leaves exactly what the
/// producer side held followed by `batch` to be drained, and `late` waiting
/// on the producer side.
pub proof fn lemma_drain_in_append_order<I>(streams: Streams<I>, batch: Seq<I>, late: Seq<I>)
    requires
        streams.consumer.len() == 0,
    ensures
        streams.push_all(batch).swap().push_all(late).consumer == streams.producer + batch,
        streams.push_all(batch).swap().push_all(late).drained().producer == late,
        forall|i: int, j: int|
            0 <= i < j < batch.len() ==> streams.push_all(batch).swap().consumer[streams.producer.len()
                + i] == batch[i] && streams.push_all(batch).swap().consumer[streams.producer.len()
                + j] == batch[j],
{
    lemma_push_all(streams, batch);
    let swapped = streams.push_all(batch).swap();
    lemma_push_all(swapped, late);
    assert(swapped.producer + late =~= late);
}

/// The two sides of the instruction queue.
#[derive(Debug)]
pub struct InstructionStreamPair<I> {
    pub producer: Vec<I>,
    pub consumer: Vec<I>,
}

impl<I> View for InstructionStreamPair<I> {
    type V = Streams<I>;

    open spec fn view(&self) -> Streams<I> {
        Streams { producer: self.producer@, consumer: self.consumer@ }
    }
}

impl<I> InstructionStreamPair<I> {
    /// Creates a queue with both sides empty.
    pub fn new() -> (pair: Self)
        ensures
            pair@.producer == Seq::<I>::empty(),
            pair@.consumer == Seq::<I>::empty(),
    {
        InstructionStreamPair { producer: Vec::new(), consumer: Vec::new() }
    }

    /// Appends an instruction to the producer side.
    pub fn push(&mut self, instruction: I)
        ensures
            final(self)@ == old(self)@.push(instruction),
    {
        self.producer.push(instruction);
    }

    /// Exchanges the two sides: what was appended so far becomes what the
    /// frame drains.
    pub fn swap(&mut self)
        ensures
            final(self)@ == old(self)@.swap(),
    {
        std::mem::swap(&mut self.producer, &mut self.consumer);
    }

    /// Takes everything off the consumer side, oldest instruction first.
    pub fn drain(&mut self) -> (instructions: Vec<I>)
        ensures
            instructions@ == old(self)@.consumer,
            final(self)@ == old(self)@.drained(),
    {
        let mut instructions: Vec<I> = Vec::new();
        std::mem::swap(&mut self.consumer, &mut instructions);
        instructions
    }
}

} // verus!
