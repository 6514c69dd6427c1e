//! Recent governance event messages, kept as a bounded log: the newest
//! messages, at most twenty, oldest first.
use vstd::prelude::*;

verus! {

/// Most messages the log keeps.
pub const GOVERNANCE_LOG_CAPACITY: usize = 20;

/// The log after appending `message`: the newest `GOVERNANCE_LOG_CAPACITY`
/// messages of `messages` followed by `message`.
pub open spec fn logged_after_push<M>(messages: Seq<M>, message: M) -> Seq<M> {
    let all = messages.push(message);
    if all.len() > GOVERNANCE_LOG_CAPACITY {
        all.subrange(all.len() - GOVERNANCE_LOG_CAPACITY, all.len() as int)
    } else {
        all
    }
}

/// Bounded log of governance messages.
#[derive(Debug)]
pub struct GovernanceLog<M> {
    messages: Vec<M>,
}

impl<M> View for GovernanceLog<M> {
    type V = Seq<M>;

    closed spec fn view(&self) -> Seq<M> {
        self.messages@
    }
}

impl<M> GovernanceLog<M> {
    #[verifier::type_invariant]
    spec fn bounded(self) -> bool {
        self.messages@.len() <= GOVERNANCE_LOG_CAPACITY
    }

    pub fn new() -> (r: Self)
        ensures
            r@ == Seq::<M>::empty(),
    {
        GovernanceLog { messages: Vec::new() }
    }

    /// The logged messages, oldest first.
    pub fn messages(&self) -> (r: &[M])
        ensures
            r@ == self@,
            r@.len() <= GOVERNANCE_LOG_CAPACITY,
    {
        proof {
            use_type_invariant(self);
        }
        self.messages.as_slice()
    }

    /// Appends a message, dropping the oldest when more than
    /// `GOVERNANCE_LOG_CAPACITY` would be kept.
    pub fn push(&mut self, message: M)
        ensures
            final(self)@ == logged_after_push(old(self)@, message),
    {
        proof {
            use_type_invariant(&*self);
        }
        let mut messages = Vec::new();
        std::mem::swap(&mut messages, &mut self.messages);
        let ghost before = messages@;
        messages.push(message);
        if messages.len() > GOVERNANCE_LOG_CAPACITY {
            messages.remove(0);
            assert(messages@ =~= logged_after_push(before, message));
        }
        self.messages = messages;
    }
}

/// The log never holds more than its capacity, and a push keeps the message
/// just pushed as the newest entry.
pub proof fn lemma_push_keeps_newest_within_capacity<M>(messages: Seq<M>, message: M)
    requires
        messages.len() <= GOVERNANCE_LOG_CAPACITY,
    ensures
        logged_after_push(messages, message).len() <= GOVERNANCE_LOG_CAPACITY,
        logged_after_push(messages, message).last() == message,
        messages.len() < GOVERNANCE_LOG_CAPACITY ==> logged_after_push(messages, message)
            == messages.push(message),
        messages.len() == GOVERNANCE_LOG_CAPACITY ==> logged_after_push(messages, message)
            == messages.drop_first().push(message),
{
    if messages.len() == GOVERNANCE_LOG_CAPACITY {
        assert(logged_after_push(messages, message) =~= messages.drop_first().push(message));
    }
}

} // verus!
