//! Tables of tools, prompts and resources, each under its name.

pub mod prompt;
pub mod resource;
pub mod tool;

use vstd::prelude::*;
use vstd::string::*;
use crate::assoc::{distinct, find, has_key, lemma_absent, lemma_position, position, put, remove};
use crate::error::Error;

verus! {

/// Handlers under their names, in the order in which the names were first
/// registered. No name occurs twice.
pub struct HandlerRegistry<Handler> {
    handlers: Vec<(String, Handler)>,
}

impl<Handler> View for HandlerRegistry<Handler> {
    type V = Seq<(Seq<char>, Handler)>;

    closed spec fn view(&self) -> Seq<(Seq<char>, Handler)> {
        Seq::new(self.handlers.len() as nat, |i: int| (self.handlers[i].0@, self.handlers[i].1))
    }
}

impl<Handler> HandlerRegistry<Handler> {
    /// The registry's invariant: no name occurs twice.
    pub open spec fn wf(&self) -> bool {
        distinct(self@)
    }

    /// The empty registry.
    pub fn new() -> (r: Self)
        ensures
            r.wf(),
            r@ == Seq::<(Seq<char>, Handler)>::empty(),
    {
        let r = HandlerRegistry { handlers: Vec::new() };
        assert(r@ =~= Seq::empty());
        r
    }

    /// How many handlers are registered.
    pub fn len(&self) -> (n: usize)
        ensures
            n == self@.len(),
    {
        self.handlers.len()
    }

    /// Where `name` stands, if it is registered.
    fn index_of(&self, name: &str) -> (r: Option<usize>)
        requires
            self.wf(),
        ensures
            match r {
                Some(i) => i < self@.len() && self@[i as int].0 == name@ && has_key(self@, name@)
                    && position(self@, name@) == i,
                None => !has_key(self@, name@),
            },
    {
        let mut i: usize = 0;
        while i < self.handlers.len()
            invariant
                0 <= i <= self.handlers.len(),
                distinct(self@),
                forall|k: int| 0 <= k < i ==> (#[trigger] self@[k]).0 != name@,
            decreases self.handlers.len() - i,
        {
            if *self.handlers[i].0.as_str() == *name {
                proof {
                    lemma_position(self@, name@, i as int);
                }
                return Some(i);
            }
            i += 1;
        }
        proof {
            lemma_absent(self@, name@);
        }
        None
    }

    /// Puts `handler` under `name`. A handler that stood under that name is
    /// replaced and keeps its place; a new name goes to the end.
    pub fn register(&mut self, name: String, handler: Handler)
        requires
            old(self).wf(),
        ensures
            final(self).wf(),
            final(self)@ == put(old(self)@, name@, handler),
            find(final(self)@, name@) == Some(handler),
            forall|other: Seq<char>|
                other != name@ ==> find(final(self)@, other) == find(old(self)@, other),
    {
        proof {
            crate::assoc::lemma_put(self@, name@, handler);
        }
        match self.index_of(name.as_str()) {
            Some(i) => {
                let ghost before = self@;
                self.handlers.set(i, (name, handler));
                assert(self@ =~= before.update(i as int, (name@, handler)));
            },
            None => {
                let ghost before = self@;
                self.handlers.push((name, handler));
                assert(self@ =~= before.push((name@, handler)));
            },
        }
    }

    /// The handler under `name`.
    pub fn get(&self, name: &str) -> (r: Option<&Handler>)
        requires
            self.wf(),
        ensures
            match r {
                Some(h) => find(self@, name@) == Some(*h),
                None => find(self@, name@) is None,
            },
    {
        match self.index_of(name) {
            Some(i) => Some(&self.handlers[i].1),
            None => None,
        }
    }

    /// Whether a handler stands under `name`.
    pub fn contains(&self, name: &str) -> (r: bool)
        requires
            self.wf(),
        ensures
            r == has_key(self@, name@),
    {
        self.index_of(name).is_some()
    }

    /// The handler under `name`, or the error 404 with the message
    /// `Handler '<name>' not found`.
    pub fn call(&self, name: &str) -> (r: Result<&Handler, Error>)
        requires
            self.wf(),
        ensures
            match r {
                Ok(h) => find(self@, name@) == Some(*h),
                Err(e) => find(self@, name@) is None && e@ == Error::not_found_view(
                    "Handler"@,
                    name@,
                ),
            },
    {
        match self.get(name) {
            Some(h) => Ok(h),
            None => Err(Error::not_found("Handler", name)),
        }
    }

    /// Takes the handler under `name` out of the registry and returns it.
    pub fn unregister(&mut self, name: &str) -> (r: Option<Handler>)
        requires
            old(self).wf(),
        ensures
            final(self).wf(),
            final(self)@ == remove(old(self)@, name@),
            r == find(old(self)@, name@),
    {
        proof {
            crate::assoc::lemma_remove(self@, name@);
        }
        match self.index_of(name) {
            Some(i) => {
                let ghost before = self@;
                let entry = self.handlers.remove(i);
                assert(self@ =~= before.remove(i as int));
                Some(entry.1)
            },
            None => None,
        }
    }

    /// Every name with its handler, in the registry's order.
    pub fn handlers_iter(&self) -> (r: Vec<(&String, &Handler)>)
        ensures
            r.len() == self@.len(),
            forall|i: int|
                0 <= i < r.len() ==> (#[trigger] r[i]).0@ == self@[i].0 && *r[i].1 == self@[i].1,
    {
        let mut out: Vec<(&String, &Handler)> = Vec::new();
        let mut i: usize = 0;
        while i < self.handlers.len()
            invariant
                0 <= i <= self.handlers.len(),
                out.len() == i,
                forall|k: int|
                    0 <= k < i ==> (#[trigger] out[k]).0@ == self@[k].0 && *out[k].1 == self@[k].1,
            decreases self.handlers.len() - i,
        {
            out.push((&self.handlers[i].0, &self.handlers[i].1));
            i += 1;
        }
        out
    }
}

impl<Handler> Default for HandlerRegistry<Handler> {
    fn default() -> (r: Self)
        ensures
            r.wf(),
            r@ == Seq::<(Seq<char>, Handler)>::empty(),
    {
        HandlerRegistry::new()
    }
}

} // verus!
