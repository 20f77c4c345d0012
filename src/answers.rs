use vstd::prelude::*;

verus! {

/// The age bracket a respondent picks.
#[derive(Clone, Copy, Debug, PartialEq, Eq, Structural)]
pub enum AgeRange {
    EighteenToTwentyFive,
    TwentyfiveToFourty,
    FourtyToFifty,
    FiftyPlus,
}

/// How past investments turned out.
#[derive(Clone, Copy, Debug, PartialEq, Eq, Structural)]
pub enum InvestmentStatus {
    NoExperience,
    Minus,
    Zero,
    Plus,
    BigPlus,
}

/// The instrument a respondent used (or finds most attractive).
/// `NoInstrument` is part of the domain but is never offered as a choice.
#[derive(Clone, Copy, Debug, PartialEq, Eq, Structural)]
pub enum InvestmentInstrument {
    NoInstrument,
    Stocks,
    RealEstate,
    CryptoCurrency,
    BankDeposits,
}

/// The budget a respondent is able to invest.
#[derive(Clone, Copy, Debug, PartialEq, Eq, Structural)]
pub enum FundingStatus {
    LessThanMillion,
    MillionToFiveMillion,
    FiveMillionToTenMillion,
    TenMillionPlus,
}

impl AgeRange {
    pub open spec fn spec_label(self) -> &'static str {
        match self {
            AgeRange::EighteenToTwentyFive => "18-25",
            AgeRange::TwentyfiveToFourty => "25-40",
            AgeRange::FourtyToFifty => "40-50",
            AgeRange::FiftyPlus => "50+",
        }
    }

    /// The label shown on the keyboard and written to the stored record.
    pub fn label(&self) -> (r: &'static str)
        ensures
            r == self.spec_label(),
    {
        match self {
            AgeRange::EighteenToTwentyFive => "18-25",
            AgeRange::TwentyfiveToFourty => "25-40",
            AgeRange::FourtyToFifty => "40-50",
            AgeRange::FiftyPlus => "50+",
        }
    }
}

impl InvestmentStatus {
    pub open spec fn spec_label(self) -> &'static str {
        match self {
            InvestmentStatus::NoExperience => "Не было опыта",
            InvestmentStatus::Minus => "Минус",
            InvestmentStatus::Zero => "В нуле",
            InvestmentStatus::Plus => "Плюс",
            InvestmentStatus::BigPlus => "Большой плюс",
        }
    }

    /// The label shown on the keyboard and written to the stored record.
    pub fn label(&self) -> (r: &'static str)
        ensures
            r == self.spec_label(),
    {
        match self {
            InvestmentStatus::NoExperience => "Не было опыта",
            InvestmentStatus::Minus => "Минус",
            InvestmentStatus::Zero => "В нуле",
            InvestmentStatus::Plus => "Плюс",
            InvestmentStatus::BigPlus => "Большой плюс",
        }
    }
}

impl InvestmentInstrument {
    pub open spec fn spec_label(self) -> &'static str {
        match self {
            InvestmentInstrument::NoInstrument => "Нет",
            InvestmentInstrument::Stocks => "Акции",
            InvestmentInstrument::RealEstate => "Недвижимость",
            InvestmentInstrument::CryptoCurrency => "Криптовалюта",
            InvestmentInstrument::BankDeposits => "Вклады",
        }
    }

    /// The label shown on the keyboard and written to the stored record.
    pub fn label(&self) -> (r: &'static str)
        ensures
            r == self.spec_label(),
    {
        match self {
            InvestmentInstrument::NoInstrument => "Нет",
            InvestmentInstrument::Stocks => "Акции",
            InvestmentInstrument::RealEstate => "Недвижимость",
            InvestmentInstrument::CryptoCurrency => "Криптовалюта",
            InvestmentInstrument::BankDeposits => "Вклады",
        }
    }
}

impl FundingStatus {
    pub open spec fn spec_label(self) -> &'static str {
        match self {
            FundingStatus::LessThanMillion => "<1 миллиона",
            FundingStatus::MillionToFiveMillion => "1-5 миллионов",
            FundingStatus::FiveMillionToTenMillion => "5-10 миллионов",
            FundingStatus::TenMillionPlus => "Более 10 миллионов",
        }
    }

    /// The label shown on the keyboard and written to the stored record.
    pub fn label(&self) -> (r: &'static str)
        ensures
            r == self.spec_label(),
    {
        match self {
            FundingStatus::LessThanMillion => "<1 миллиона",
            FundingStatus::MillionToFiveMillion => "1-5 миллионов",
            FundingStatus::FiveMillionToTenMillion => "5-10 миллионов",
            FundingStatus::TenMillionPlus => "Более 10 миллионов",
        }
    }
}

/// The age whose label is exactly `s`, if any.
pub open spec fn age_for(s: Seq<char>) -> Option<AgeRange> {
    if s == AgeRange::EighteenToTwentyFive.spec_label()@ {
        Some(AgeRange::EighteenToTwentyFive)
    } else if s == AgeRange::TwentyfiveToFourty.spec_label()@ {
        Some(AgeRange::TwentyfiveToFourty)
    } else if s == AgeRange::FourtyToFifty.spec_label()@ {
        Some(AgeRange::FourtyToFifty)
    } else if s == AgeRange::FiftyPlus.spec_label()@ {
        Some(AgeRange::FiftyPlus)
    } else {
        None
    }
}

/// The investment status whose label is exactly `s`, if any.
pub open spec fn status_for(s: Seq<char>) -> Option<InvestmentStatus> {
    if s == InvestmentStatus::NoExperience.spec_label()@ {
        Some(InvestmentStatus::NoExperience)
    } else if s == InvestmentStatus::Minus.spec_label()@ {
        Some(InvestmentStatus::Minus)
    } else if s == InvestmentStatus::Zero.spec_label()@ {
        Some(InvestmentStatus::Zero)
    } else if s == InvestmentStatus::Plus.spec_label()@ {
        Some(InvestmentStatus::Plus)
    } else if s == InvestmentStatus::BigPlus.spec_label()@ {
        Some(InvestmentStatus::BigPlus)
    } else {
        None
    }
}

/// The offered instrument whose label is exactly `s`, if any.
pub open spec fn instrument_for(s: Seq<char>) -> Option<InvestmentInstrument> {
    if s == InvestmentInstrument::Stocks.spec_label()@ {
        Some(InvestmentInstrument::Stocks)
    } else if s == InvestmentInstrument::RealEstate.spec_label()@ {
        Some(InvestmentInstrument::RealEstate)
    } else if s == InvestmentInstrument::CryptoCurrency.spec_label()@ {
        Some(InvestmentInstrument::CryptoCurrency)
    } else if s == InvestmentInstrument::BankDeposits.spec_label()@ {
        Some(InvestmentInstrument::BankDeposits)
    } else {
        None
    }
}

/// The funding bracket whose label is exactly `s`, if any.
pub open spec fn funding_for(s: Seq<char>) -> Option<FundingStatus> {
    if s == FundingStatus::LessThanMillion.spec_label()@ {
        Some(FundingStatus::LessThanMillion)
    } else if s == FundingStatus::MillionToFiveMillion.spec_label()@ {
        Some(FundingStatus::MillionToFiveMillion)
    } else if s == FundingStatus::FiveMillionToTenMillion.spec_label()@ {
        Some(FundingStatus::FiveMillionToTenMillion)
    } else if s == FundingStatus::TenMillionPlus.spec_label()@ {
        Some(FundingStatus::TenMillionPlus)
    } else {
        None
    }
}

/// Exact, case-sensitive comparison of an input with a label.
fn matches_label(text: &String, label: &'static str) -> (r: bool)
    ensures
        r == (text@ == label@),
{
    let l = String::from_str(label);
    *text == l
}

/// Maps an answer text to an age bracket; `None` when it matches no label.
pub fn parse_age(text: &String) -> (r: Option<AgeRange>)
    ensures
        r == age_for(text@),
{
    if matches_label(text, AgeRange::EighteenToTwentyFive.label()) {
        Some(AgeRange::EighteenToTwentyFive)
    } else if matches_label(text, AgeRange::TwentyfiveToFourty.label()) {
        Some(AgeRange::TwentyfiveToFourty)
    } else if matches_label(text, AgeRange::FourtyToFifty.label()) {
        Some(AgeRange::FourtyToFifty)
    } else if matches_label(text, AgeRange::FiftyPlus.label()) {
        Some(AgeRange::FiftyPlus)
    } else {
        None
    }
}

/// Maps an answer text to an investment status; `None` when it matches no label.
pub fn parse_status(text: &String) -> (r: Option<InvestmentStatus>)
    ensures
        r == status_for(text@),
{
    if matches_label(text, InvestmentStatus::NoExperience.label()) {
        Some(InvestmentStatus::NoExperience)
    } else if matches_label(text, InvestmentStatus::Minus.label()) {
        Some(InvestmentStatus::Minus)
    } else if matches_label(text, InvestmentStatus::Zero.label()) {
        Some(InvestmentStatus::Zero)
    } else if matches_label(text, InvestmentStatus::Plus.label()) {
        Some(InvestmentStatus::Plus)
    } else if matches_label(text, InvestmentStatus::BigPlus.label()) {
        Some(InvestmentStatus::BigPlus)
    } else {
        None
    }
}

/// Maps an answer text to an offered instrument; `None` when it matches no label.
pub fn parse_instrument(text: &String) -> (r: Option<InvestmentInstrument>)
    ensures
        r == instrument_for(text@),
{
    if matches_label(text, InvestmentInstrument::Stocks.label()) {
        Some(InvestmentInstrument::Stocks)
    } else if matches_label(text, InvestmentInstrument::RealEstate.label()) {
        Some(InvestmentInstrument::RealEstate)
    } else if matches_label(text, InvestmentInstrument::CryptoCurrency.label()) {
        Some(InvestmentInstrument::CryptoCurrency)
    } else if matches_label(text, InvestmentInstrument::BankDeposits.label()) {
        Some(InvestmentInstrument::BankDeposits)
    } else {
        None
    }
}

/// Maps an answer text to a funding bracket; `None` when it matches no label.
pub fn parse_funding(text: &String) -> (r: Option<FundingStatus>)
    ensures
        r == funding_for(text@),
{
    if matches_label(text, FundingStatus::LessThanMillion.label()) {
        Some(FundingStatus::LessThanMillion)
    } else if matches_label(text, FundingStatus::MillionToFiveMillion.label()) {
        Some(FundingStatus::MillionToFiveMillion)
    } else if matches_label(text, FundingStatus::FiveMillionToTenMillion.label()) {
        Some(FundingStatus::FiveMillionToTenMillion)
    } else if matches_label(text, FundingStatus::TenMillionPlus.label()) {
        Some(FundingStatus::TenMillionPlus)
    } else {
        None
    }
}

} // verus!
