use std::collections::HashMap;
use vstd::prelude::*;

use crate::session::{accepts, CompletedRecord, Inbound, Outcome, Session, Stage, SurveyRecord};

verus! {

broadcast use vstd::std_specs::hash::group_hash_axioms;

/// An outbound action for the messaging gateway or the record sink.
#[derive(Clone, Debug)]
pub enum Effect {
    /// Send the prompt of the stage: its question with its choice keyboard,
    /// or a contact request for the contact question.
    Ask(Stage),
    /// Send the completion acknowledgement.
    Acknowledge,
    /// Hand the completed record to the record sink.
    Store(CompletedRecord),
}

impl SurveyRecord {
    /// The completed form of a record whose five fields are all set.
    pub open spec fn spec_completed(self) -> CompletedRecord {
        CompletedRecord {
            age: self.age->0,
            investment_status: self.investment_status->0,
            instrument: self.instrument->0,
            funding: self.funding->0,
            contact: self.contact->0,
        }
    }
}

/// The effects of one inbound message on session `s`: the next prompt after a
/// valid answer, the acknowledgement and the record after the last one, the
/// same prompt again after an invalid one, and nothing once complete.
pub open spec fn effects_for(s: Session, input: Inbound) -> Seq<Effect> {
    if accepts(s.stage, input) {
        if s.stage == Stage::AwaitingContact {
            seq![Effect::Acknowledge, Effect::Store(s.after(input).record.spec_completed())]
        } else {
            seq![Effect::Ask(s.stage.next())]
        }
    } else if s.stage == Stage::Complete {
        seq![]
    } else {
        seq![Effect::Ask(s.stage)]
    }
}

/// Maps what `advance` reported to the effects to perform.
pub fn outcome_effects(out: Outcome) -> (r: Vec<Effect>)
    ensures
        r@ == match out {
            Outcome::Rejected(None) => Seq::<Effect>::empty(),
            Outcome::Rejected(Some(stage)) => seq![Effect::Ask(stage)],
            Outcome::Advanced(stage) => seq![Effect::Ask(stage)],
            Outcome::Finished(c) => seq![Effect::Acknowledge, Effect::Store(c)],
        },
{
    match out {
        Outcome::Rejected(None) => Vec::new(),
        Outcome::Rejected(Some(stage)) => vec![Effect::Ask(stage)],
        Outcome::Advanced(stage) => vec![Effect::Ask(stage)],
        Outcome::Finished(c) => vec![Effect::Acknowledge, Effect::Store(c)],
    }
}

/// One session per user id, kept for the life of the process.
pub struct SessionStore {
    sessions: HashMap<u64, Session>,
}

impl View for SessionStore {
    type V = Map<u64, Session>;

    closed spec fn view(&self) -> Map<u64, Session> {
        self.sessions@
    }
}

impl SessionStore {
    /// Every stored session is well formed and stored under its own user id.
    pub open spec fn wf(&self) -> bool {
        forall|k: u64| #[trigger]
            self@.contains_key(k) ==> self@[k].wf() && self@[k].user_id == k
    }

    /// The session of `user_id`: the stored one, or a fresh one if none is.
    pub open spec fn current(&self, user_id: u64) -> Session {
        if self@.contains_key(user_id) {
            self@[user_id]
        } else {
            Session::spec_new(user_id)
        }
    }

    /// An empty store.
    pub fn new() -> (r: SessionStore)
        ensures
            r.wf(),
            r@ == Map::<u64, Session>::empty(),
    {
        SessionStore { sessions: HashMap::new() }
    }

    /// The stored session of `user_id`, if there is one.
    pub fn session(&self, user_id: u64) -> (r: Option<&Session>)
        ensures
            match r {
                Some(s) => self@.contains_key(user_id) && *s == self@[user_id],
                None => !self@.contains_key(user_id),
            },
    {
        self.sessions.get(&user_id)
    }

    /// Takes the session of `user_id` out of the store, or creates a fresh one.
    fn take_or_create(&mut self, user_id: u64) -> (s: Session)
        requires
            old(self).wf(),
        ensures
            s == old(self).current(user_id),
            s.wf(),
            final(self).wf(),
            final(self)@ == old(self)@.remove(user_id),
    {
        match self.sessions.remove(&user_id) {
            Some(s) => s,
            None => Session::new(user_id),
        }
    }

    /// Applies one inbound message of `user_id` to that user's session, which
    /// is created on the user's first message, and returns what to do next.
    pub fn handle_inbound(&mut self, user_id: u64, input: &Inbound) -> (effects: Vec<Effect>)
        requires
            old(self).wf(),
        ensures
            final(self).wf(),
            final(self)@ == old(self)@.insert(user_id, old(self).current(user_id).after(*input)),
            effects@ == effects_for(old(self).current(user_id), *input),
    {
        let mut s = self.take_or_create(user_id);
        let out = s.advance(input);
        let effects = outcome_effects(out);
        self.sessions.insert(user_id, s);
        proof {
            let c = old(self).current(user_id);
            if accepts(c.stage, *input) && c.stage == Stage::AwaitingContact {
                assert(effects@ =~= effects_for(c, *input));
            }
            assert(final(self)@ =~= old(self)@.insert(user_id, c.after(*input)));
        }
        effects
    }
}

/// Once a user's session is complete, a further message changes nothing in
/// the store's view of it and yields no effect at all: no prompt and no call
/// of the record sink.
pub proof fn complete_session_is_inert(store: SessionStore, user_id: u64, input: Inbound)
    requires
        store.wf(),
        store.current(user_id).stage == Stage::Complete,
    ensures
        store.current(user_id).after(input) == store.current(user_id),
        effects_for(store.current(user_id), input) == Seq::<Effect>::empty(),
        store@.insert(user_id, store.current(user_id).after(input)) == store@,
{
    assert(store@.contains_key(user_id));
    assert(store@.insert(user_id, store.current(user_id).after(input)) =~= store@);
}

} // verus!
