//! A session: the exclusive owner of a native execution context, a sampler
//! bound to it, and the model they run against.
use vstd::prelude::*;

verus! {

/// An inference session over a model `M`, with its execution context `C` and
/// sampler `S`.
///
/// The session is the sole owner of all three. The context is released before
/// the sampler, both when the session is dropped and when [`Session::into_model`]
/// gives the model back.
pub struct Session<M, C, S> {
    context: C,
    sampler: S,
    model: M,
}

impl<M, C, S> Session<M, C, S> {
    /// The model the session owns.
    pub closed spec fn spec_model(&self) -> M {
        self.model
    }

    /// The session's execution context.
    pub closed spec fn spec_context(&self) -> C {
        self.context
    }

    /// The session's sampler.
    pub closed spec fn spec_sampler(&self) -> S {
        self.sampler
    }

    /// Binds a context and a sampler built for `model` into a session that owns
    /// all three.
    pub fn new(context: C, sampler: S, model: M) -> (r: Self)
        ensures
            r.spec_context() == context,
            r.spec_sampler() == sampler,
            r.spec_model() == model,
    {
        Session { context, sampler, model }
    }

    /// Read access to the model, which the session keeps.
    pub fn model(&self) -> (r: &M)
        ensures
            *r == self.spec_model(),
    {
        &self.model
    }

    /// Ends the session: its context and sampler are released, in that order,
    /// and the model is handed back.
    pub fn into_model(self) -> (r: M)
        ensures
            r == self.spec_model(),
    {
        self.model
    }

    /// Mutable access to the context and the sampler together, as sampling and
    /// accepting a token need both of the same session.
    pub fn native_mut(&mut self) -> (r: (&mut C, &mut S))
        ensures
            *r.0 == old(self).spec_context(),
            *r.1 == old(self).spec_sampler(),
            final(self).spec_context() == *final(r.0),
            final(self).spec_sampler() == *final(r.1),
            final(self).spec_model() == old(self).spec_model(),
    {
        (&mut self.context, &mut self.sampler)
    }
}

} // verus!
