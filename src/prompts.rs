use vstd::prelude::*;

use crate::answers::{
    age_for, funding_for, instrument_for, status_for, AgeRange, FundingStatus,
    InvestmentInstrument, InvestmentStatus,
};
use crate::session::{CompletedRecord, Stage};

verus! {

/// The question asked at `stage`; empty for `Complete`, which asks nothing.
pub open spec fn spec_prompt_text(stage: Stage) -> &'static str {
    match stage {
        Stage::AwaitingAge => "Добрый день!\nСколько вам лет?",
        Stage::AwaitingInvestmentStatus =>
            "Отлично, если вы занимались инвестициями, каких результатов вы добились на 2023 год?",
        Stage::AwaitingInstrument =>
            "Какой инструмент вы использовали?\nЕсли не было опыта - выберите наиболее привлекательный.",
        Stage::AwaitingFundingCapacity => "Какой суммой вы готовы инвестировать?",
        Stage::AwaitingContact => "Отправьте нам ваш контакт для дальнейшего взаимодействия!",
        Stage::Complete => "",
    }
}

/// The text sent once the last answer is in.
pub open spec fn spec_acknowledgement() -> &'static str {
    "Ожидайте, с вами свяжется наш представитель!"
}

/// The labels offered as a keyboard at `stage`, in display order; the
/// contact question and `Complete` offer none.
pub open spec fn spec_choices(stage: Stage) -> Seq<&'static str> {
    match stage {
        Stage::AwaitingAge => seq![
            AgeRange::EighteenToTwentyFive.spec_label(),
            AgeRange::TwentyfiveToFourty.spec_label(),
            AgeRange::FourtyToFifty.spec_label(),
            AgeRange::FiftyPlus.spec_label(),
        ],
        Stage::AwaitingInvestmentStatus => seq![
            InvestmentStatus::NoExperience.spec_label(),
            InvestmentStatus::Minus.spec_label(),
            InvestmentStatus::Zero.spec_label(),
            InvestmentStatus::Plus.spec_label(),
            InvestmentStatus::BigPlus.spec_label(),
        ],
        Stage::AwaitingInstrument => seq![
            InvestmentInstrument::Stocks.spec_label(),
            InvestmentInstrument::RealEstate.spec_label(),
            InvestmentInstrument::CryptoCurrency.spec_label(),
            InvestmentInstrument::BankDeposits.spec_label(),
        ],
        Stage::AwaitingFundingCapacity => seq![
            FundingStatus::LessThanMillion.spec_label(),
            FundingStatus::MillionToFiveMillion.spec_label(),
            FundingStatus::FiveMillionToTenMillion.spec_label(),
            FundingStatus::TenMillionPlus.spec_label(),
        ],
        Stage::AwaitingContact => seq![],
        Stage::Complete => seq![],
    }
}

/// Whether the validator of `stage` takes the text `s` as an answer.
pub open spec fn text_accepted(stage: Stage, s: Seq<char>) -> bool {
    match stage {
        Stage::AwaitingAge => age_for(s) is Some,
        Stage::AwaitingInvestmentStatus => status_for(s) is Some,
        Stage::AwaitingInstrument => instrument_for(s) is Some,
        Stage::AwaitingFundingCapacity => funding_for(s) is Some,
        _ => false,
    }
}

/// The keyboard and the validator never drift apart: a text is accepted at a
/// stage exactly when it is one of the labels that stage offers.
pub proof fn choices_match_validator(stage: Stage, s: Seq<char>)
    ensures
        text_accepted(stage, s) <==> exists|i: int|
            0 <= i < spec_choices(stage).len() && #[trigger] spec_choices(stage)[i]@ == s,
{
    let c = spec_choices(stage);
    if text_accepted(stage, s) {
        if s == c[0]@ {
        } else if s == c[1]@ {
        } else if s == c[2]@ {
        } else if s == c[3]@ {
        } else {
            assert(s == c[4]@);
        }
    }
}

/// The question to send at `stage`.
pub fn prompt_text(stage: Stage) -> (r: &'static str)
    ensures
        r == spec_prompt_text(stage),
{
    match stage {
        Stage::AwaitingAge => "Добрый день!\nСколько вам лет?",
        Stage::AwaitingInvestmentStatus =>
            "Отлично, если вы занимались инвестициями, каких результатов вы добились на 2023 год?",
        Stage::AwaitingInstrument =>
            "Какой инструмент вы использовали?\nЕсли не было опыта - выберите наиболее привлекательный.",
        Stage::AwaitingFundingCapacity => "Какой суммой вы готовы инвестировать?",
        Stage::AwaitingContact => "Отправьте нам ваш контакт для дальнейшего взаимодействия!",
        Stage::Complete => "",
    }
}

/// The text sent once the last answer is in.
pub fn acknowledgement() -> (r: &'static str)
    ensures
        r == spec_acknowledgement(),
{
    "Ожидайте, с вами свяжется наш представитель!"
}

/// The labels to offer as a keyboard at `stage`.
pub fn choices(stage: Stage) -> (r: Vec<&'static str>)
    ensures
        r@ == spec_choices(stage),
{
    let r = match stage {
        Stage::AwaitingAge => vec![
            AgeRange::EighteenToTwentyFive.label(),
            AgeRange::TwentyfiveToFourty.label(),
            AgeRange::FourtyToFifty.label(),
            AgeRange::FiftyPlus.label(),
        ],
        Stage::AwaitingInvestmentStatus => vec![
            InvestmentStatus::NoExperience.label(),
            InvestmentStatus::Minus.label(),
            InvestmentStatus::Zero.label(),
            InvestmentStatus::Plus.label(),
            InvestmentStatus::BigPlus.label(),
        ],
        Stage::AwaitingInstrument => vec![
            InvestmentInstrument::Stocks.label(),
            InvestmentInstrument::RealEstate.label(),
            InvestmentInstrument::CryptoCurrency.label(),
            InvestmentInstrument::BankDeposits.label(),
        ],
        Stage::AwaitingFundingCapacity => vec![
            FundingStatus::LessThanMillion.label(),
            FundingStatus::MillionToFiveMillion.label(),
            FundingStatus::FiveMillionToTenMillion.label(),
            FundingStatus::TenMillionPlus.label(),
        ],
        _ => Vec::new(),
    };
    proof {
        assert(r@ =~= spec_choices(stage));
    }
    r
}

impl CompletedRecord {
    /// The block appended to the record sink: five `Label:value` lines, each
    /// ending in a newline, in the order age, status, instrument, budget,
    /// contact.
    pub open spec fn spec_render(self) -> Seq<char> {
        "Возраст:"@ + self.age.spec_label()@ + "\n"@ + "Статус:"@
            + self.investment_status.spec_label()@ + "\n"@ + "Инструмент:"@
            + self.instrument.spec_label()@ + "\n"@ + "Бюджет:"@ + self.funding.spec_label()@
            + "\n"@ + "Контакт:"@ + self.contact@ + "\n"@
    }

    /// Renders the record as the block the sink appends.
    pub fn render(&self) -> (r: String)
        ensures
            r@ == self.spec_render(),
    {
        let mut r = String::from_str("Возраст:");
        r.append(self.age.label());
        r.append("\n");
        r.append("Статус:");
        r.append(self.investment_status.label());
        r.append("\n");
        r.append("Инструмент:");
        r.append(self.instrument.label());
        r.append("\n");
        r.append("Бюджет:");
        r.append(self.funding.label());
        r.append("\n");
        r.append("Контакт:");
        r.append(self.contact.as_str());
        r.append("\n");
        r
    }
}

} // verus!
