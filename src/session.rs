use vstd::prelude::*;

use crate::answers::{
    age_for, funding_for, instrument_for, parse_age, parse_funding, parse_instrument,
    parse_status, status_for, AgeRange, FundingStatus, InvestmentInstrument, InvestmentStatus,
};

verus! {

/// Which question a session is waiting on; `Complete` once every answer is in.
#[derive(Clone, Copy, Debug, PartialEq, Eq, Structural)]
pub enum Stage {
    AwaitingAge,
    AwaitingInvestmentStatus,
    AwaitingInstrument,
    AwaitingFundingCapacity,
    AwaitingContact,
    Complete,
}

impl Stage {
    /// Position of the stage in the fixed question order; also the number of
    /// record fields filled while the session sits in it.
    pub open spec fn index(self) -> nat {
        match self {
            Stage::AwaitingAge => 0,
            Stage::AwaitingInvestmentStatus => 1,
            Stage::AwaitingInstrument => 2,
            Stage::AwaitingFundingCapacity => 3,
            Stage::AwaitingContact => 4,
            Stage::Complete => 5,
        }
    }

    /// The stage that follows this one; `Complete` has none and maps to itself.
    pub open spec fn next(self) -> Stage {
        match self {
            Stage::AwaitingAge => Stage::AwaitingInvestmentStatus,
            Stage::AwaitingInvestmentStatus => Stage::AwaitingInstrument,
            Stage::AwaitingInstrument => Stage::AwaitingFundingCapacity,
            Stage::AwaitingFundingCapacity => Stage::AwaitingContact,
            Stage::AwaitingContact => Stage::Complete,
            Stage::Complete => Stage::Complete,
        }
    }
}

/// A contact shared by the user.
#[derive(Clone, Debug)]
pub struct Contact {
    pub phone_number: String,
}

/// One inbound message: its text, if any, and an attached contact, if any.
#[derive(Clone, Debug)]
pub struct Inbound {
    pub text: Option<String>,
    pub contact: Option<Contact>,
}

/// The answers collected so far, filled strictly in question order.
#[derive(Clone, Debug)]
pub struct SurveyRecord {
    pub age: Option<AgeRange>,
    pub investment_status: Option<InvestmentStatus>,
    pub instrument: Option<InvestmentInstrument>,
    pub funding: Option<FundingStatus>,
    pub contact: Option<String>,
}

/// A record with all five answers present, as handed to the record sink.
#[derive(Clone, Debug)]
pub struct CompletedRecord {
    pub age: AgeRange,
    pub investment_status: InvestmentStatus,
    pub instrument: InvestmentInstrument,
    pub funding: FundingStatus,
    pub contact: String,
}

impl SurveyRecord {
    /// Whether the `i`-th field (in question order) holds an answer.
    pub open spec fn is_set(self, i: nat) -> bool {
        if i == 0 {
            self.age is Some
        } else if i == 1 {
            self.investment_status is Some
        } else if i == 2 {
            self.instrument is Some
        } else if i == 3 {
            self.funding is Some
        } else if i == 4 {
            self.contact is Some
        } else {
            false
        }
    }

    /// Whether the `i`-th field is the same in both records.
    pub open spec fn same_field(self, other: SurveyRecord, i: nat) -> bool {
        if i == 0 {
            self.age == other.age
        } else if i == 1 {
            self.investment_status == other.investment_status
        } else if i == 2 {
            self.instrument == other.instrument
        } else if i == 3 {
            self.funding == other.funding
        } else if i == 4 {
            self.contact == other.contact
        } else {
            true
        }
    }

    /// Exactly the first `n` fields hold answers.
    pub open spec fn filled_upto(self, n: nat) -> bool {
        forall|i: nat| i < 5 ==> (#[trigger] self.is_set(i) <==> i < n)
    }

    /// `c` carries exactly the answers of this record.
    pub open spec fn completes_to(self, c: CompletedRecord) -> bool {
        &&& self.age == Some(c.age)
        &&& self.investment_status == Some(c.investment_status)
        &&& self.instrument == Some(c.instrument)
        &&& self.funding == Some(c.funding)
        &&& self.contact == Some(c.contact)
    }

    pub open spec fn spec_empty() -> SurveyRecord {
        SurveyRecord {
            age: None,
            investment_status: None,
            instrument: None,
            funding: None,
            contact: None,
        }
    }

    /// A record with no answers.
    pub fn empty() -> (r: SurveyRecord)
        ensures
            r == SurveyRecord::spec_empty(),
    {
        SurveyRecord {
            age: None,
            investment_status: None,
            instrument: None,
            funding: None,
            contact: None,
        }
    }
}

/// Whether `input` is a valid answer to the question of `stage`: a text equal
/// to one of its labels, or for the contact question an attached contact with
/// a non-empty phone number. Nothing is accepted once the survey is complete.
pub open spec fn accepts(stage: Stage, input: Inbound) -> bool {
    match stage {
        Stage::AwaitingAge => input.text is Some && age_for(input.text->0@) is Some,
        Stage::AwaitingInvestmentStatus => input.text is Some && status_for(input.text->0@) is Some,
        Stage::AwaitingInstrument => input.text is Some && instrument_for(input.text->0@) is Some,
        Stage::AwaitingFundingCapacity => input.text is Some && funding_for(input.text->0@) is Some,
        Stage::AwaitingContact => input.contact is Some && input.contact->0.phone_number@.len() > 0,
        Stage::Complete => false,
    }
}

/// The record with the field of `stage` set from an accepted `input`.
pub open spec fn fill(stage: Stage, rec: SurveyRecord, input: Inbound) -> SurveyRecord {
    match stage {
        Stage::AwaitingAge => SurveyRecord { age: age_for(input.text->0@), ..rec },
        Stage::AwaitingInvestmentStatus => SurveyRecord {
            investment_status: status_for(input.text->0@),
            ..rec
        },
        Stage::AwaitingInstrument => SurveyRecord {
            instrument: instrument_for(input.text->0@),
            ..rec
        },
        Stage::AwaitingFundingCapacity => SurveyRecord {
            funding: funding_for(input.text->0@),
            ..rec
        },
        Stage::AwaitingContact => SurveyRecord {
            contact: Some(input.contact->0.phone_number),
            ..rec
        },
        Stage::Complete => rec,
    }
}

/// What one call of `advance` reports.
#[derive(Clone, Debug)]
pub enum Outcome {
    /// The input was not valid; the prompt of the given stage is to be sent
    /// again (`None` once the survey is complete: nothing is sent).
    Rejected(Option<Stage>),
    /// The answer was recorded; the prompt of the given stage comes next.
    Advanced(Stage),
    /// The last answer was recorded; the record is complete.
    Finished(CompletedRecord),
}

/// One user's survey: the question pending and the answers so far.
#[derive(Clone, Debug)]
pub struct Session {
    pub user_id: u64,
    pub stage: Stage,
    pub record: SurveyRecord,
}

impl Session {
    /// The pending stage always points at the first unanswered field.
    pub open spec fn wf(self) -> bool {
        self.record.filled_upto(self.stage.index())
    }

    /// The session after one inbound message.
    pub open spec fn after(self, input: Inbound) -> Session {
        if accepts(self.stage, input) {
            Session {
                user_id: self.user_id,
                stage: self.stage.next(),
                record: fill(self.stage, self.record, input),
            }
        } else {
            self
        }
    }

    pub open spec fn spec_new(user_id: u64) -> Session {
        Session { user_id, stage: Stage::AwaitingAge, record: SurveyRecord::spec_empty() }
    }

    /// A fresh session, waiting for the first answer.
    pub fn new(user_id: u64) -> (s: Session)
        ensures
            s == Session::spec_new(user_id),
            s.wf(),
    {
        Session { user_id, stage: Stage::AwaitingAge, record: SurveyRecord::empty() }
    }

    /// Feeds one inbound message to the session.
    pub fn advance(&mut self, input: &Inbound) -> (out: Outcome)
        requires
            old(self).wf(),
        ensures
            final(self).wf(),
            *final(self) == old(self).after(*input),
            accepts(old(self).stage, *input) && old(self).stage != Stage::AwaitingContact ==> out
                == Outcome::Advanced(final(self).stage),
            accepts(old(self).stage, *input) && old(self).stage == Stage::AwaitingContact ==> (
            match out {
                Outcome::Finished(c) => final(self).record.completes_to(c),
                _ => false,
            }),
            !accepts(old(self).stage, *input) ==> out == Outcome::Rejected(
                if old(self).stage == Stage::Complete {
                    None
                } else {
                    Some(old(self).stage)
                },
            ),
    {
        proof {
            transitions_follow_order(*self, *input);
        }
        let stage = self.stage;
        match stage {
            Stage::AwaitingAge => {
                if let Some(t) = &input.text {
                    if let Some(a) = parse_age(t) {
                        self.record.age = Some(a);
                        self.stage = Stage::AwaitingInvestmentStatus;
                        return Outcome::Advanced(self.stage);
                    }
                }
                Outcome::Rejected(Some(stage))
            },
            Stage::AwaitingInvestmentStatus => {
                if let Some(t) = &input.text {
                    if let Some(v) = parse_status(t) {
                        self.record.investment_status = Some(v);
                        self.stage = Stage::AwaitingInstrument;
                        return Outcome::Advanced(self.stage);
                    }
                }
                Outcome::Rejected(Some(stage))
            },
            Stage::AwaitingInstrument => {
                if let Some(t) = &input.text {
                    if let Some(v) = parse_instrument(t) {
                        self.record.instrument = Some(v);
                        self.stage = Stage::AwaitingFundingCapacity;
                        return Outcome::Advanced(self.stage);
                    }
                }
                Outcome::Rejected(Some(stage))
            },
            Stage::AwaitingFundingCapacity => {
                if let Some(t) = &input.text {
                    if let Some(v) = parse_funding(t) {
                        self.record.funding = Some(v);
                        self.stage = Stage::AwaitingContact;
                        return Outcome::Advanced(self.stage);
                    }
                }
                Outcome::Rejected(Some(stage))
            },
            Stage::AwaitingContact => {
                proof {
                    assert(self.record.is_set(0));
                    assert(self.record.is_set(1));
                    assert(self.record.is_set(2));
                    assert(self.record.is_set(3));
                }
                if let Some(c) = &input.contact {
                    if !c.phone_number.as_str().is_empty() {
                        let phone = c.phone_number.clone();
                        self.record.contact = Some(c.phone_number.clone());
                        self.stage = Stage::Complete;
                        let done = CompletedRecord {
                            age: self.record.age.unwrap(),
                            investment_status: self.record.investment_status.unwrap(),
                            instrument: self.record.instrument.unwrap(),
                            funding: self.record.funding.unwrap(),
                            contact: phone,
                        };
                        return Outcome::Finished(done);
                    }
                }
                Outcome::Rejected(Some(stage))
            },
            Stage::Complete => Outcome::Rejected(None),
        }
    }
}

/// A message that is not a valid answer to the pending question leaves the
/// session, its stage and its record, exactly as it was.
pub proof fn rejected_input_changes_nothing(s: Session, input: Inbound)
    requires
        s.wf(),
        !accepts(s.stage, input),
    ensures
        s.after(input) == s,
{
}

/// A valid answer moves the session exactly one stage forward and sets the
/// one field of the stage it was in, which was unset before; every other
/// field, among them all that were set before, stays as it was.
pub proof fn accepted_input_fills_one_field(s: Session, input: Inbound)
    requires
        s.wf(),
        accepts(s.stage, input),
    ensures
        s.stage != Stage::Complete,
        s.after(input).stage == s.stage.next(),
        s.after(input).stage.index() == s.stage.index() + 1,
        !s.record.is_set(s.stage.index()),
        s.after(input).record.is_set(s.stage.index()),
        forall|i: nat|
            i != s.stage.index() ==> #[trigger] s.after(input).record.same_field(s.record, i),
        s.after(input).wf(),
{
    let n = s.stage.index();
    let r = s.after(input).record;
    assert(s.record.is_set(n) <==> n < n);
    assert forall|i: nat| i < 5 implies (#[trigger] r.is_set(i) <==> i < n + 1) by {
        assert(s.record.is_set(i) <==> i < n);
    }
}

/// Every message either leaves the stage where it is or moves it to the next
/// one in the fixed order `AwaitingAge`, `AwaitingInvestmentStatus`,
/// `AwaitingInstrument`, `AwaitingFundingCapacity`, `AwaitingContact`,
/// `Complete`: no stage is skipped and none is returned to.
pub proof fn transitions_follow_order(s: Session, input: Inbound)
    requires
        s.wf(),
    ensures
        s.after(input).stage == s.stage || (s.stage != Stage::Complete && s.after(input).stage
            == s.stage.next() && s.after(input).stage.index() == s.stage.index() + 1),
        s.after(input).stage.index() >= s.stage.index(),
        s.after(input).wf(),
{
    if accepts(s.stage, input) {
        accepted_input_fills_one_field(s, input);
    }
}

/// A complete session accepts no message and never changes again.
pub proof fn complete_is_terminal(s: Session, input: Inbound)
    requires
        s.stage == Stage::Complete,
    ensures
        !accepts(s.stage, input),
        s.after(input) == s,
{
}

} // verus!
