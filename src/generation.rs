//! The generation loop as a state machine.
//!
//! A generation decodes the prompt, then repeatedly samples a token, accepts it
//! into the sampler's history and feeds it back as the next single-token batch,
//! until a fixed number of positions is filled. The native work (decode, sample,
//! accept, detokenize) is done by whoever runs the machine: it asks for the
//! [`Action`] the machine names and reports back the matching [`Event`].
use vstd::prelude::*;

use crate::batch::SessionBatch;

verus! {

/// The capacity of the batch a generation decodes through.
pub const BATCH_CAPACITY: u32 = 512;

/// The number of positions, prompt and generated tokens together, that a
/// generation fills before it stops.
pub const POSITION_LIMIT: u32 = 100;

/// Where a generation stands in its decode, sample, accept cycle.
#[derive(PartialEq, Eq, Structural, Clone, Copy, Debug)]
pub enum Phase {
    /// The batch waits to be decoded.
    Decoding,
    /// The latest decode produced logits; a token is to be sampled from them.
    Sampling,
    /// The token sampled last is to be accepted into the sampler's history.
    Accepting(i32),
    /// Every position is filled; the generated tokens are ready.
    Done,
}

/// The native work that a generation asks for next.
#[derive(PartialEq, Eq, Structural, Clone, Copy, Debug)]
pub enum Action {
    /// Decode the generation's batch.
    Decode,
    /// Sample one token from the logits of the latest decode.
    Sample,
    /// Accept this token into the sampler's history.
    Accept(i32),
    /// Turn the generated tokens into text.
    Detokenize,
}

/// What the native layer reports back after performing an action.
#[derive(PartialEq, Eq, Structural, Clone, Copy, Debug)]
pub enum Event {
    /// The batch was decoded.
    Decoded,
    /// This token was sampled.
    Sampled(i32),
    /// The token was accepted.
    Accepted,
}

/// The action that a generation in phase `p` asks for.
pub open spec fn action_of(p: Phase) -> Action {
    match p {
        Phase::Decoding => Action::Decode,
        Phase::Sampling => Action::Sample,
        Phase::Accepting(t) => Action::Accept(t),
        Phase::Done => Action::Detokenize,
    }
}

/// Whether `e` is the report that completes the action asked for in phase `p`.
pub open spec fn completes(p: Phase, e: Event) -> bool {
    match (p, e) {
        (Phase::Decoding, Event::Decoded) => true,
        (Phase::Sampling, Event::Sampled(_)) => true,
        (Phase::Accepting(_), Event::Accepted) => true,
        _ => false,
    }
}

/// How many tokens a prompt of `prompt_len` tokens leaves room to generate.
pub open spec fn budget(prompt_len: nat) -> nat {
    if prompt_len < POSITION_LIMIT {
        (POSITION_LIMIT - prompt_len) as nat
    } else {
        0
    }
}

/// The positions `0, 1, ..., n - 1`.
pub open spec fn prompt_positions(n: nat) -> Seq<u32> {
    Seq::new(n, |j: int| j as u32)
}

/// Logit flags for a prompt of `n` tokens: only the last one produces logits.
pub open spec fn prompt_flags(n: nat) -> Seq<bool> {
    Seq::new(n, |j: int| j == n - 1)
}

/// A generation in progress: its batch, the tokens generated so far, the
/// position the next accepted token takes, and its phase.
pub struct Generation {
    batch: SessionBatch,
    generated: Vec<i32>,
    position: u32,
    phase: Phase,
    prompt: Ghost<Seq<i32>>,
}

impl Generation {
    /// The batch that the next decode reads.
    pub closed spec fn spec_batch(&self) -> SessionBatch {
        self.batch
    }

    /// The tokens generated so far, in order.
    pub closed spec fn generated_seq(&self) -> Seq<i32> {
        self.generated@
    }

    /// The position the next accepted token takes.
    pub closed spec fn spec_position(&self) -> nat {
        self.position as nat
    }

    pub closed spec fn spec_phase(&self) -> Phase {
        self.phase
    }

    /// The prompt the generation started from.
    pub closed spec fn prompt_seq(&self) -> Seq<i32> {
        self.prompt@
    }

    /// The number of actions left before the generation is done: one decode,
    /// one sample and one accept for each token still to come.
    pub open spec fn steps_left(&self) -> nat {
        let cycles = if self.spec_position() < POSITION_LIMIT {
            (POSITION_LIMIT - self.spec_position()) as nat
        } else {
            0
        };
        match self.spec_phase() {
            Phase::Decoding => 3 * cycles,
            Phase::Sampling => (3 * cycles - 1) as nat,
            Phase::Accepting(_) => (3 * cycles - 2) as nat,
            Phase::Done => 0,
        }
    }

    /// The batch holds what the next decode must see: the whole prompt at
    /// positions from 0 with only its last token producing logits, or, once a
    /// token was generated, that token alone at the position before the next.
    pub open spec fn batch_ready(&self) -> bool {
        let b = self.spec_batch();
        let n = self.prompt_seq().len();
        if self.generated_seq().len() == 0 {
            &&& b.token_seq() == self.prompt_seq()
            &&& b.position_seq() == prompt_positions(n)
            &&& b.logit_seq() == prompt_flags(n)
        } else {
            &&& b.token_seq() == seq![self.generated_seq().last()]
            &&& b.position_seq() == seq![(self.spec_position() - 1) as u32]
            &&& b.logit_seq() == seq![true]
        }
    }

    /// The generation's invariant.
    pub open spec fn wf(&self) -> bool {
        let n = self.prompt_seq().len();
        &&& self.spec_batch().wf()
        &&& self.spec_batch().spec_capacity() == BATCH_CAPACITY
        &&& 1 <= n <= BATCH_CAPACITY
        &&& self.spec_position() == n + self.generated_seq().len()
        &&& self.generated_seq().len() <= budget(n)
        &&& (self.spec_phase() == Phase::Done <==> self.spec_position() >= POSITION_LIMIT)
        &&& self.batch_ready()
    }
    /// Begins a generation from `prompt`: the prompt fills a fresh batch at
    /// positions from 0, and only its last token produces logits. A prompt that
    /// already reaches the position limit leaves nothing to generate.
    pub fn start(prompt: &[i32]) -> (g: Self)
        requires
            1 <= prompt@.len() <= BATCH_CAPACITY,
        ensures
            g.wf(),
            g.prompt_seq() == prompt@,
            g.generated_seq() == Seq::<i32>::empty(),
            g.spec_position() == prompt@.len(),
            g.spec_phase() == (if prompt@.len() < POSITION_LIMIT {
                Phase::Decoding
            } else {
                Phase::Done
            }),
            g.spec_batch().token_seq() == prompt@,
            g.spec_batch().position_seq() == prompt_positions(prompt@.len()),
            g.spec_batch().logit_seq() == prompt_flags(prompt@.len()),
            g.steps_left() == 3 * budget(prompt@.len()),
    {
        let mut batch = SessionBatch::new(BATCH_CAPACITY, 0, 1);
        let n = prompt.len();
        let mut i: usize = 0;
        while i < n
            invariant
                n == prompt@.len() <= BATCH_CAPACITY,
                i <= n,
                batch.wf(),
                batch.spec_capacity() == BATCH_CAPACITY,
                batch.token_seq() == prompt@.subrange(0, i as int),
                batch.position_seq() == prompt_positions(i as nat),
                batch.logit_seq() == Seq::new(i as nat, |j: int| false),
            decreases n - i,
        {
            batch.add_token(prompt[i], i as u32, false);
            i = i + 1;
            assert(batch.token_seq() =~= prompt@.subrange(0, i as int));
            assert(batch.position_seq() =~= prompt_positions(i as nat));
            assert(batch.logit_seq() =~= Seq::new(i as nat, |j: int| false));
        }
        let flags = batch.logits_mut();
        flags[n - 1] = true;
        assert(batch.token_seq() =~= prompt@);
        assert(batch.logit_seq() =~= prompt_flags(n as nat));
        let phase = if n < POSITION_LIMIT as usize {
            Phase::Decoding
        } else {
            Phase::Done
        };
        Generation {
            batch,
            generated: Vec::new(),
            position: n as u32,
            phase,
            prompt: Ghost(prompt@),
        }
    }
    /// The native work the generation asks for now.
    pub fn action(&self) -> (a: Action)
        ensures
            a == action_of(self.spec_phase()),
    {
        match self.phase {
            Phase::Decoding => Action::Decode,
            Phase::Sampling => Action::Sample,
            Phase::Accepting(t) => Action::Accept(t),
            Phase::Done => Action::Detokenize,
        }
    }

    /// Whether `event` reports the completion of the action asked for now.
    pub fn expects(&self, event: Event) -> (r: bool)
        ensures
            r == completes(self.spec_phase(), event),
    {
        match (self.phase, event) {
            (Phase::Decoding, Event::Decoded) => true,
            (Phase::Sampling, Event::Sampled(_)) => true,
            (Phase::Accepting(_), Event::Accepted) => true,
            _ => false,
        }
    }

    /// Advances the generation by the report of the action it asked for, and
    /// returns the action it asks for next.
    ///
    /// A decode leads to sampling, a sampled token to its acceptance. Accepting
    /// a token appends it to the generated tokens and makes it the batch's only
    /// token, at the next position and producing logits; the generation is done
    /// once that position reaches the limit.
    pub fn step(&mut self, event: Event) -> (a: Action)
        requires
            old(self).wf(),
            completes(old(self).spec_phase(), event),
        ensures
            final(self).wf(),
            a == action_of(final(self).spec_phase()),
            final(self).prompt_seq() == old(self).prompt_seq(),
            final(self).steps_left() + 1 == old(self).steps_left(),
            match (old(self).spec_phase(), event) {
                (Phase::Decoding, Event::Decoded) => {
                    &&& final(self).spec_phase() == Phase::Sampling
                    &&& final(self).generated_seq() == old(self).generated_seq()
                    &&& final(self).spec_position() == old(self).spec_position()
                    &&& final(self).spec_batch() == old(self).spec_batch()
                },
                (Phase::Sampling, Event::Sampled(t)) => {
                    &&& final(self).spec_phase() == Phase::Accepting(t)
                    &&& final(self).generated_seq() == old(self).generated_seq()
                    &&& final(self).spec_position() == old(self).spec_position()
                    &&& final(self).spec_batch() == old(self).spec_batch()
                },
                (Phase::Accepting(t), Event::Accepted) => {
                    &&& final(self).generated_seq() == old(self).generated_seq().push(t)
                    &&& final(self).spec_position() == old(self).spec_position() + 1
                    &&& final(self).spec_batch().token_seq() == seq![t]
                    &&& final(self).spec_batch().position_seq() == seq![
                        old(self).spec_position() as u32,
                    ]
                    &&& final(self).spec_batch().logit_seq() == seq![true]
                    &&& final(self).spec_phase() == (if final(self).spec_position()
                        < POSITION_LIMIT {
                        Phase::Decoding
                    } else {
                        Phase::Done
                    })
                },
                _ => false,
            },
    {
        match (self.phase, event) {
            (Phase::Decoding, Event::Decoded) => {
                self.phase = Phase::Sampling;
            },
            (Phase::Sampling, Event::Sampled(t)) => {
                self.phase = Phase::Accepting(t);
            },
            (Phase::Accepting(t), _) => {
                let index = self.position;
                self.batch.clear();
                self.batch.add_token(t, index, true);
                self.generated.push(t);
                self.position = index + 1;
                self.phase = if self.position < POSITION_LIMIT {
                    Phase::Decoding
                } else {
                    Phase::Done
                };
                assert(self.spec_batch().token_seq() =~= seq![t]);
                assert(self.spec_batch().position_seq() =~= seq![index]);
                assert(self.spec_batch().logit_seq() =~= seq![true]);
            },
            _ => {},
        }
        self.action()
    }

    /// The batch that the next decode reads.
    pub fn batch(&self) -> (r: &SessionBatch)
        ensures
            *r == self.spec_batch(),
    {
        &self.batch
    }

    /// The tokens generated so far, in order.
    pub fn generated(&self) -> (r: &[i32])
        ensures
            r@ == self.generated_seq(),
    {
        self.generated.as_slice()
    }

    /// Ends the generation and hands over the generated tokens.
    pub fn into_generated(self) -> (r: Vec<i32>)
        ensures
            r@ == self.generated_seq(),
    {
        self.generated
    }

    /// The position the next accepted token takes.
    pub fn position(&self) -> (r: u32)
        ensures
            r == self.spec_position(),
    {
        self.position
    }

    /// Where the generation stands.
    pub fn phase(&self) -> (r: Phase)
        ensures
            r == self.spec_phase(),
    {
        self.phase
    }
}

/// A finished generation holds exactly as many tokens as its prompt left room
/// for: the position limit less the prompt's length, or none when the prompt
/// reaches the limit.
pub proof fn lemma_done_generated_count(g: Generation)
    requires
        g.wf(),
        g.spec_phase() == Phase::Done,
    ensures
        g.generated_seq().len() == budget(g.prompt_seq().len()),
{
}

/// A generation is done exactly when no steps are left. Since every step takes
/// one off, a generation started from a prompt of `n` tokens is done after
/// exactly `3 * budget(n)` steps: one decode, one sample and one accept for each
/// generated token.
pub proof fn lemma_done_iff_no_steps_left(g: Generation)
    requires
        g.wf(),
    ensures
        g.spec_phase() == Phase::Done <==> g.steps_left() == 0,
{
}

/// Every batch handed to a decode is non-empty, has exactly one token that
/// produces logits, its last, and carries consecutive positions that end just
/// before the position the next accepted token takes.
pub proof fn lemma_decode_batch_shape(g: Generation)
    requires
        g.wf(),
        g.spec_phase() == Phase::Decoding,
    ensures
        ({
            let b = g.spec_batch();
            let len = b.spec_len();
            &&& len > 0
            &&& forall|j: int| 0 <= j < len ==> (#[trigger] b.logit_seq()[j] <==> j == len - 1)
            &&& forall|j: int|
                0 <= j < len ==> #[trigger] b.position_seq()[j] == g.spec_position() - len + j
        }),
{
}

} // verus!
