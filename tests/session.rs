use std::cell::RefCell;
use std::rc::Rc;

use llama::Session;

/// A stand-in native resource that records when it is released.
struct Released {
    name: &'static str,
    log: Rc<RefCell<Vec<&'static str>>>,
}

impl Drop for Released {
    fn drop(&mut self) {
        self.log.borrow_mut().push(self.name);
    }
}

/// A stand-in model whose detokenizer writes each token as a decimal number.
struct Model {
    separator: char,
}

impl Model {
    fn detokenize(&self, tokens: &[i32], out: &mut String) {
        for token in tokens {
            out.push_str(&token.to_string());
            out.push(self.separator);
        }
    }
}

fn session(log: &Rc<RefCell<Vec<&'static str>>>) -> Session<Model, Released, Released> {
    Session::new(
        Released { name: "context", log: log.clone() },
        Released { name: "sampler", log: log.clone() },
        Model { separator: ' ' },
    )
}

#[test]
fn into_model_releases_context_then_sampler_once() {
    let log = Rc::new(RefCell::new(Vec::new()));
    let session = session(&log);
    assert_eq!(session.model().separator, ' ');
    let model = session.into_model();
    assert_eq!(*log.borrow(), vec!["context", "sampler"]);
    let mut text = String::new();
    model.detokenize(&[1, 2], &mut text);
    assert_eq!(text, "1 2 ");
    drop(model);
    assert_eq!(*log.borrow(), vec!["context", "sampler"]);
}

#[test]
fn dropping_a_session_releases_context_then_sampler() {
    let log = Rc::new(RefCell::new(Vec::new()));
    drop(session(&log));
    assert_eq!(*log.borrow(), vec!["context", "sampler"]);
}

#[test]
fn native_mut_reaches_the_same_session() {
    let log = Rc::new(RefCell::new(Vec::new()));
    let mut session = session(&log);
    {
        let (context, sampler) = session.native_mut();
        context.name = "context*";
        sampler.name = "sampler*";
    }
    drop(session);
    assert_eq!(*log.borrow(), vec!["context*", "sampler*"]);
}
