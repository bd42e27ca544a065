use llama::{Action, Event, Generation, Phase};

/// What a run of a generation against a stand-in native layer did.
struct Run {
    generated: Vec<i32>,
    decoded_batches: Vec<(Vec<i32>, Vec<u32>, Vec<bool>)>,
    samples: usize,
    accepted: Vec<i32>,
    detokenized: Vec<Vec<i32>>,
}

/// Runs a generation to the end; the stand-in sampler hands out 1000, 1001, ...
fn run(prompt: &[i32]) -> Run {
    let mut generation = Generation::start(prompt);
    let mut out = Run {
        generated: Vec::new(),
        decoded_batches: Vec::new(),
        samples: 0,
        accepted: Vec::new(),
        detokenized: Vec::new(),
    };
    let mut action = generation.action();
    loop {
        let event = match action {
            Action::Decode => {
                let batch = generation.batch();
                out.decoded_batches.push((
                    batch.tokens().to_vec(),
                    batch.positions().to_vec(),
                    batch.logits().to_vec(),
                ));
                Event::Decoded
            }
            Action::Sample => {
                let token = 1000 + out.samples as i32;
                out.samples += 1;
                Event::Sampled(token)
            }
            Action::Accept(token) => {
                out.accepted.push(token);
                Event::Accepted
            }
            Action::Detokenize => {
                out.detokenized.push(generation.generated().to_vec());
                break;
            }
        };
        assert!(generation.expects(event));
        action = generation.step(event);
    }
    out.generated = generation.into_generated();
    out
}

#[test]
fn three_token_prompt_generates_ninety_seven() {
    let out = run(&[1, 2, 3]);
    assert_eq!(out.generated.len(), 97);
    assert_eq!(out.detokenized.len(), 1);
    assert_eq!(out.detokenized[0].len(), 97);
    assert_eq!(out.decoded_batches.len(), 97);
    assert_eq!(out.samples, 97);
    assert_eq!(out.accepted, out.generated);
    assert_eq!(out.generated[0], 1000);
    assert_eq!(out.generated[96], 1096);
    let first = &out.decoded_batches[0];
    assert_eq!(first.0, vec![1, 2, 3]);
    assert_eq!(first.1, vec![0, 1, 2]);
    assert_eq!(first.2, vec![false, false, true]);
    for (k, batch) in out.decoded_batches.iter().enumerate().skip(1) {
        assert_eq!(batch.0, vec![1000 + k as i32 - 1]);
        assert_eq!(batch.1, vec![3 + k as u32 - 1]);
        assert_eq!(batch.2, vec![true]);
    }
}

#[test]
fn short_prompts_fill_the_position_limit() {
    for len in [1usize, 10, 50, 99] {
        let prompt: Vec<i32> = (0..len as i32).collect();
        let out = run(&prompt);
        assert_eq!(out.generated.len(), 100 - len);
        assert_eq!(out.decoded_batches.len(), 100 - len);
        assert_eq!(out.samples, 100 - len);
        assert_eq!(out.accepted.len(), 100 - len);
    }
}

#[test]
fn long_prompt_generates_nothing() {
    for len in [100usize, 150, 512] {
        let prompt: Vec<i32> = (0..len as i32).collect();
        let generation = Generation::start(&prompt);
        assert_eq!(generation.phase(), Phase::Done);
        assert_eq!(generation.action(), Action::Detokenize);
        let out = run(&prompt);
        assert!(out.generated.is_empty());
        assert_eq!(out.detokenized, vec![Vec::<i32>::new()]);
        assert!(out.decoded_batches.is_empty());
    }
}

#[test]
fn one_cycle_per_token() {
    let mut generation = Generation::start(&[5, 6]);
    assert_eq!(generation.position(), 2);
    assert_eq!(generation.action(), Action::Decode);
    assert_eq!(generation.step(Event::Decoded), Action::Sample);
    assert_eq!(generation.step(Event::Sampled(42)), Action::Accept(42));
    assert_eq!(generation.step(Event::Accepted), Action::Decode);
    assert_eq!(generation.generated(), &[42]);
    assert_eq!(generation.position(), 3);
    assert_eq!(generation.batch().tokens(), &[42]);
    assert_eq!(generation.batch().positions(), &[2]);
    assert_eq!(generation.batch().logits(), &[true]);
    assert_eq!(generation.batch().capacity(), 512);
}

#[test]
fn out_of_turn_events_are_not_expected() {
    let mut generation = Generation::start(&[5]);
    assert!(!generation.expects(Event::Accepted));
    assert!(!generation.expects(Event::Sampled(1)));
    assert!(generation.expects(Event::Decoded));
    generation.step(Event::Decoded);
    assert!(!generation.expects(Event::Decoded));
    assert!(generation.expects(Event::Sampled(1)));
    generation.step(Event::Sampled(1));
    assert_eq!(generation.phase(), Phase::Accepting(1));
    assert!(generation.expects(Event::Accepted));
}

#[test]
fn last_position_ends_the_generation() {
    let prompt: Vec<i32> = (0..99).collect();
    let mut generation = Generation::start(&prompt);
    generation.step(Event::Decoded);
    generation.step(Event::Sampled(7));
    assert_eq!(generation.step(Event::Accepted), Action::Detokenize);
    assert_eq!(generation.phase(), Phase::Done);
    assert_eq!(generation.position(), 100);
    assert_eq!(generation.generated(), &[7]);
}
