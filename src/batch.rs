//! A fixed-capacity batch of tokens submitted together for one decode step.
use vstd::prelude::*;

verus! {

/// A reusable buffer of tokens, each with its position index and a flag that
/// says whether the decode step produces logits for it.
///
/// The three arrays always have the same length, which never exceeds the
/// capacity fixed at construction.
pub struct SessionBatch {
    tokens: Vec<i32>,
    positions: Vec<u32>,
    logits: Vec<bool>,
    capacity: u32,
    embedding_size: u32,
    max_sequence_ids: u32,
}

impl SessionBatch {
    /// The token ids, in the order they were appended.
    pub closed spec fn token_seq(&self) -> Seq<i32> {
        self.tokens@
    }

    /// The position index given with each token.
    pub closed spec fn position_seq(&self) -> Seq<u32> {
        self.positions@
    }

    /// Whether each token produces logits.
    pub closed spec fn logit_seq(&self) -> Seq<bool> {
        self.logits@
    }

    /// The number of tokens the batch can hold.
    pub closed spec fn spec_capacity(&self) -> nat {
        self.capacity as nat
    }

    pub closed spec fn spec_embedding_size(&self) -> u32 {
        self.embedding_size
    }

    pub closed spec fn spec_max_sequence_ids(&self) -> u32 {
        self.max_sequence_ids
    }

    /// The two batches hold the same tokens, positions, flags and sizes.
    pub open spec fn same_contents(&self, other: Self) -> bool {
        &&& self.token_seq() == other.token_seq()
        &&& self.position_seq() == other.position_seq()
        &&& self.logit_seq() == other.logit_seq()
        &&& self.spec_capacity() == other.spec_capacity()
        &&& self.spec_embedding_size() == other.spec_embedding_size()
        &&& self.spec_max_sequence_ids() == other.spec_max_sequence_ids()
    }

    /// The current number of tokens.
    pub open spec fn spec_len(&self) -> nat {
        self.token_seq().len()
    }

    /// The three arrays agree in length and fit within the capacity.
    pub closed spec fn wf(&self) -> bool {
        &&& self.positions@.len() == self.tokens@.len()
        &&& self.logits@.len() == self.tokens@.len()
        &&& self.tokens@.len() <= self.capacity
    }

    /// Creates an empty batch with room for `token_capacity` tokens.
    pub fn new(token_capacity: u32, embedding_size: u32, max_sequence_ids: u32) -> (r: Self)
        ensures
            r.wf(),
            r.spec_len() == 0,
            r.token_seq() == Seq::<i32>::empty(),
            r.position_seq() == Seq::<u32>::empty(),
            r.logit_seq() == Seq::<bool>::empty(),
            r.spec_capacity() == token_capacity,
            r.spec_embedding_size() == embedding_size,
            r.spec_max_sequence_ids() == max_sequence_ids,
    {
        SessionBatch {
            tokens: Vec::with_capacity(token_capacity as usize),
            positions: Vec::with_capacity(token_capacity as usize),
            logits: Vec::with_capacity(token_capacity as usize),
            capacity: token_capacity,
            embedding_size,
            max_sequence_ids,
        }
    }

    /// The current number of tokens.
    pub fn len(&self) -> (r: usize)
        requires
            self.wf(),
        ensures
            r == self.spec_len(),
            r == self.position_seq().len(),
            r == self.logit_seq().len(),
    {
        self.tokens.len()
    }

    /// Appends a token with its position index and logit flag.
    ///
    /// The batch must not be full.
    pub fn add_token(&mut self, token: i32, index: u32, logits: bool)
        requires
            old(self).wf(),
            old(self).spec_len() < old(self).spec_capacity(),
        ensures
            final(self).wf(),
            final(self).spec_len() == old(self).spec_len() + 1,
            final(self).token_seq() == old(self).token_seq().push(token),
            final(self).position_seq() == old(self).position_seq().push(index),
            final(self).logit_seq() == old(self).logit_seq().push(logits),
            final(self).spec_capacity() == old(self).spec_capacity(),
            final(self).spec_embedding_size() == old(self).spec_embedding_size(),
            final(self).spec_max_sequence_ids() == old(self).spec_max_sequence_ids(),
    {
        self.tokens.push(token);
        self.positions.push(index);
        self.logits.push(logits);
    }

    /// Appends a token when the batch has room for it, and reports whether it did.
    /// A full batch is left as it is.
    pub fn try_add_token(&mut self, token: i32, index: u32, logits: bool) -> (added: bool)
        requires
            old(self).wf(),
        ensures
            final(self).wf(),
            added == (old(self).spec_len() < old(self).spec_capacity()),
            added ==> {
                &&& final(self).token_seq() == old(self).token_seq().push(token)
                &&& final(self).position_seq() == old(self).position_seq().push(index)
                &&& final(self).logit_seq() == old(self).logit_seq().push(logits)
            },
            !added ==> *final(self) == *old(self),
            final(self).spec_capacity() == old(self).spec_capacity(),
            final(self).spec_embedding_size() == old(self).spec_embedding_size(),
            final(self).spec_max_sequence_ids() == old(self).spec_max_sequence_ids(),
    {
        if self.tokens.len() < self.capacity as usize {
            self.add_token(token, index, logits);
            true
        } else {
            false
        }
    }

    /// Empties the batch, keeping its capacity for reuse.
    pub fn clear(&mut self)
        requires
            old(self).wf(),
        ensures
            final(self).wf(),
            final(self).spec_len() == 0,
            final(self).token_seq() == Seq::<i32>::empty(),
            final(self).position_seq() == Seq::<u32>::empty(),
            final(self).logit_seq() == Seq::<bool>::empty(),
            final(self).spec_capacity() == old(self).spec_capacity(),
            final(self).spec_embedding_size() == old(self).spec_embedding_size(),
            final(self).spec_max_sequence_ids() == old(self).spec_max_sequence_ids(),
            old(self).spec_len() == 0 ==> final(self).same_contents(*old(self)),
    {
        self.tokens.clear();
        self.positions.clear();
        self.logits.clear();
        proof {
            if old(self).spec_len() == 0 {
                assert(self.tokens@ =~= old(self).tokens@);
                assert(self.positions@ =~= old(self).positions@);
                assert(self.logits@ =~= old(self).logits@);
            }
        }
    }

    /// The token ids, one per token in the batch.
    pub fn tokens(&self) -> (r: &[i32])
        requires
            self.wf(),
        ensures
            r@ == self.token_seq(),
    {
        self.tokens.as_slice()
    }

    /// Mutable access to the token ids; the batch keeps its length.
    pub fn tokens_mut(&mut self) -> (r: &mut [i32])
        requires
            old(self).wf(),
        ensures
            r@ == old(self).token_seq(),
            final(self).token_seq() == final(r)@,
            final(self).position_seq() == old(self).position_seq(),
            final(self).logit_seq() == old(self).logit_seq(),
            final(self).spec_capacity() == old(self).spec_capacity(),
            final(self).spec_embedding_size() == old(self).spec_embedding_size(),
            final(self).spec_max_sequence_ids() == old(self).spec_max_sequence_ids(),
            final(r)@.len() == r@.len() ==> final(self).wf(),
    {
        self.tokens.as_mut_slice()
    }
    /// The logit flags, one per token in the batch.
    pub fn logits(&self) -> (r: &[bool])
        requires
            self.wf(),
        ensures
            r@ == self.logit_seq(),
    {
        self.logits.as_slice()
    }

    /// Mutable access to the logit flags; the batch keeps its length.
    pub fn logits_mut(&mut self) -> (r: &mut [bool])
        requires
            old(self).wf(),
        ensures
            r@ == old(self).logit_seq(),
            final(self).logit_seq() == final(r)@,
            final(self).token_seq() == old(self).token_seq(),
            final(self).position_seq() == old(self).position_seq(),
            final(self).spec_capacity() == old(self).spec_capacity(),
            final(self).spec_embedding_size() == old(self).spec_embedding_size(),
            final(self).spec_max_sequence_ids() == old(self).spec_max_sequence_ids(),
            final(r)@.len() == r@.len() ==> final(self).wf(),
    {
        self.logits.as_mut_slice()
    }

    /// The position index of each token in the batch.
    pub fn positions(&self) -> (r: &[u32])
        requires
            self.wf(),
        ensures
            r@ == self.position_seq(),
    {
        self.positions.as_slice()
    }

    /// The number of tokens the batch can hold.
    pub fn capacity(&self) -> (r: u32)
        ensures
            r == self.spec_capacity(),
    {
        self.capacity
    }

    /// The embedding size the batch was created with.
    pub fn embedding_size(&self) -> (r: u32)
        ensures
            r == self.spec_embedding_size(),
    {
        self.embedding_size
    }

    /// The number of sequence ids each token may carry.
    pub fn max_sequence_ids(&self) -> (r: u32)
        ensures
            r == self.spec_max_sequence_ids(),
    {
        self.max_sequence_ids
    }
}

} // verus!
