//! The ordered collection of sinks that messages are published to.

use vstd::prelude::*;

use crate::msg::{LogMessage, MessageView};
use crate::sink::{delivered, Emission, Sink};

verus! {

/// Sinks in the order in which they were registered. Sinks are only ever
/// added.
pub struct Registry<S: Sink> {
    sinks: Vec<S>,
}

impl<S: Sink> View for Registry<S> {
    type V = Seq<S>;

    /// The registered sinks, the first registered first.
    closed spec fn view(&self) -> Seq<S> {
        self.sinks@
    }
}

/// What publishing `msg` does to the sinks `before`: each sink is offered the
/// message through its filter, and `outs` holds what each handed back, in the
/// order of the sinks.
pub open spec fn published<S: Sink>(
    before: Seq<S>,
    msg: MessageView,
    after: Seq<S>,
    outs: Seq<Emission>,
) -> bool {
    &&& after.len() == before.len()
    &&& outs.len() == before.len()
    &&& forall|i: int|
        0 <= i < before.len() ==> delivered(&before[i], msg, &after[i], #[trigger] outs[i]@)
}

impl<S: Sink> Registry<S> {
    /// A registry without sinks.
    pub fn new() -> (registry: Self)
        ensures
            registry@ == Seq::<S>::empty(),
    {
        Registry { sinks: Vec::new() }
    }

    /// Adds `sink` behind the sinks registered so far.
    pub fn register(&mut self, sink: S)
        ensures
            final(self)@ == old(self)@.push(sink),
    {
        self.sinks.push(sink);
    }

    /// The number of registered sinks.
    pub fn len(&self) -> (n: usize)
        ensures
            n == self@.len(),
    {
        self.sinks.len()
    }

    /// Offers `msg` to every sink, in the order of registration, and returns
    /// what each sink handed back, in the same order.
    pub fn publish(&mut self, msg: &LogMessage) -> (outs: Vec<Emission>)
        ensures
            published(old(self)@, msg@, final(self)@, outs@),
    {
        let mut outs: Vec<Emission> = Vec::new();
        let n = self.sinks.len();
        let mut i: usize = 0;
        while i < n
            invariant
                i <= n,
                n == old(self)@.len(),
                self@.len() == n,
                outs@.len() == i,
                forall|k: int| 0 <= k < i ==> delivered(&old(self)@[k], msg@, &self@[k], #[trigger] outs@[k]@),
                forall|k: int| i <= k < n ==> self@[k] == old(self)@[k],
            decreases n - i,
        {
            let out = self.sinks[i].log_filtered(msg);
            outs.push(out);
            i = i + 1;
        }
        outs
    }
}

} // verus!
