use survey_bot::answers::{
    parse_age, parse_funding, parse_instrument, parse_status, AgeRange, FundingStatus,
    InvestmentInstrument, InvestmentStatus,
};
use survey_bot::prompts::{acknowledgement, choices, prompt_text};
use survey_bot::session::{CompletedRecord, Contact, Inbound, Outcome, Session, Stage, SurveyRecord};
use survey_bot::store::{outcome_effects, Effect, SessionStore};

fn text(s: &str) -> Inbound {
    Inbound { text: Some(s.to_string()), contact: None }
}

fn contact(phone: &str) -> Inbound {
    Inbound { text: None, contact: Some(Contact { phone_number: phone.to_string() }) }
}

fn empty_record(r: &SurveyRecord) -> bool {
    r.age.is_none()
        && r.investment_status.is_none()
        && r.instrument.is_none()
        && r.funding.is_none()
        && r.contact.is_none()
}

fn at_contact_question() -> Session {
    let mut s = Session::new(7);
    for t in ["18-25", "Не было опыта", "Акции", "Более 10 миллионов"] {
        assert!(matches!(s.advance(&text(t)), Outcome::Advanced(_)));
    }
    assert_eq!(s.stage, Stage::AwaitingContact);
    s
}

#[test]
fn full_survey_finishes_with_one_record() {
    let mut s = Session::new(1);
    assert!(matches!(s.advance(&text("18-25")), Outcome::Advanced(Stage::AwaitingInvestmentStatus)));
    assert!(matches!(s.advance(&text("Не было опыта")), Outcome::Advanced(Stage::AwaitingInstrument)));
    assert!(matches!(s.advance(&text("Акции")), Outcome::Advanced(Stage::AwaitingFundingCapacity)));
    assert!(matches!(
        s.advance(&text("Более 10 миллионов")),
        Outcome::Advanced(Stage::AwaitingContact)
    ));
    match s.advance(&contact("+1234567890")) {
        Outcome::Finished(c) => {
            assert_eq!(c.age, AgeRange::EighteenToTwentyFive);
            assert_eq!(c.investment_status, InvestmentStatus::NoExperience);
            assert_eq!(c.instrument, InvestmentInstrument::Stocks);
            assert_eq!(c.funding, FundingStatus::TenMillionPlus);
            assert_eq!(c.contact, "+1234567890");
        }
        other => panic!("expected Finished, got {:?}", other),
    }
    assert_eq!(s.stage, Stage::Complete);
}

#[test]
fn full_survey_through_store_stores_exactly_one_record() {
    let mut store = SessionStore::new();
    let mut stored = Vec::new();
    let mut asks = 0;
    let inputs = vec![
        text("18-25"),
        text("Не было опыта"),
        text("Акции"),
        text("Более 10 миллионов"),
        contact("+1234567890"),
    ];
    for inp in inputs.iter() {
        for e in store.handle_inbound(42, inp) {
            match e {
                Effect::Ask(_) => asks += 1,
                Effect::Acknowledge => {}
                Effect::Store(c) => stored.push(c),
            }
        }
    }
    assert_eq!(asks, 4);
    assert_eq!(stored.len(), 1);
    assert_eq!(stored[0].age, AgeRange::EighteenToTwentyFive);
    assert_eq!(stored[0].investment_status, InvestmentStatus::NoExperience);
    assert_eq!(stored[0].instrument, InvestmentInstrument::Stocks);
    assert_eq!(stored[0].funding, FundingStatus::TenMillionPlus);
    assert_eq!(stored[0].contact, "+1234567890");
    assert_eq!(store.session(42).unwrap().stage, Stage::Complete);
}

#[test]
fn invalid_age_is_rejected_and_session_stays_empty() {
    let mut s = Session::new(1);
    assert!(matches!(s.advance(&text("30-40")), Outcome::Rejected(Some(Stage::AwaitingAge))));
    assert_eq!(s.stage, Stage::AwaitingAge);
    assert!(empty_record(&s.record));
}

#[test]
fn invalid_age_through_store_resends_age_prompt() {
    let mut store = SessionStore::new();
    let effects = store.handle_inbound(5, &text("30-40"));
    assert_eq!(effects.len(), 1);
    assert!(matches!(effects[0], Effect::Ask(Stage::AwaitingAge)));
    let s = store.session(5).unwrap();
    assert_eq!(s.stage, Stage::AwaitingAge);
    assert!(empty_record(&s.record));
}

#[test]
fn empty_phone_number_is_rejected() {
    let mut s = at_contact_question();
    assert!(matches!(s.advance(&contact("")), Outcome::Rejected(Some(Stage::AwaitingContact))));
    assert_eq!(s.stage, Stage::AwaitingContact);
    assert!(s.record.contact.is_none());
}

#[test]
fn missing_contact_is_rejected() {
    let mut s = at_contact_question();
    assert!(matches!(s.advance(&text("+1234567890")), Outcome::Rejected(Some(Stage::AwaitingContact))));
    assert!(s.record.contact.is_none());
}

#[test]
fn missing_text_is_rejected() {
    let mut s = Session::new(3);
    let inp = Inbound { text: None, contact: None };
    assert!(matches!(s.advance(&inp), Outcome::Rejected(Some(Stage::AwaitingAge))));
    assert_eq!(s.stage, Stage::AwaitingAge);
}

#[test]
fn labels_are_case_and_space_sensitive() {
    let mut s = Session::new(3);
    s.advance(&text("18-25"));
    assert!(matches!(s.advance(&text("минус")), Outcome::Rejected(Some(Stage::AwaitingInvestmentStatus))));
    assert!(matches!(s.advance(&text(" Минус")), Outcome::Rejected(Some(_))));
    assert!(s.record.investment_status.is_none());
    assert!(matches!(s.advance(&text("Минус")), Outcome::Advanced(Stage::AwaitingInstrument)));
    assert_eq!(s.record.investment_status, Some(InvestmentStatus::Minus));
    assert_eq!(s.record.age, Some(AgeRange::EighteenToTwentyFive));
}

#[test]
fn invalid_funding_reprompts_funding_question() {
    let mut s = Session::new(3);
    s.advance(&text("50+"));
    s.advance(&text("Плюс"));
    s.advance(&text("Вклады"));
    assert!(matches!(s.advance(&text("много")), Outcome::Rejected(Some(Stage::AwaitingFundingCapacity))));
    assert_eq!(s.stage, Stage::AwaitingFundingCapacity);
    assert!(s.record.funding.is_none());
}

#[test]
fn complete_session_ignores_further_input() {
    let mut store = SessionStore::new();
    for inp in [text("40-50"), text("В нуле"), text("Недвижимость"), text("<1 миллиона"), contact("123")] {
        store.handle_inbound(9, &inp);
    }
    assert_eq!(store.session(9).unwrap().stage, Stage::Complete);
    assert!(store.handle_inbound(9, &contact("456")).is_empty());
    assert!(store.handle_inbound(9, &text("18-25")).is_empty());
    let s = store.session(9).unwrap();
    assert_eq!(s.stage, Stage::Complete);
    assert_eq!(s.record.contact.as_deref(), Some("123"));
    assert_eq!(s.record.age, Some(AgeRange::FourtyToFifty));
    let mut direct = s.clone();
    assert!(matches!(direct.advance(&text("18-25")), Outcome::Rejected(None)));
}

#[test]
fn sessions_of_different_users_are_independent() {
    let mut store = SessionStore::new();
    store.handle_inbound(1, &text("18-25"));
    store.handle_inbound(2, &text("oops"));
    assert_eq!(store.session(1).unwrap().stage, Stage::AwaitingInvestmentStatus);
    assert_eq!(store.session(2).unwrap().stage, Stage::AwaitingAge);
    assert_eq!(store.session(2).unwrap().user_id, 2);
    assert!(store.session(3).is_none());
}

#[test]
fn each_valid_answer_sets_one_field_in_order() {
    let mut s = Session::new(1);
    s.advance(&text("25-40"));
    assert_eq!(s.record.age, Some(AgeRange::TwentyfiveToFourty));
    assert!(s.record.investment_status.is_none() && s.record.instrument.is_none());
    s.advance(&text("Большой плюс"));
    assert_eq!(s.record.investment_status, Some(InvestmentStatus::BigPlus));
    assert!(s.record.instrument.is_none());
    s.advance(&text("Криптовалюта"));
    assert_eq!(s.record.instrument, Some(InvestmentInstrument::CryptoCurrency));
    assert!(s.record.funding.is_none());
    s.advance(&text("5-10 миллионов"));
    assert_eq!(s.record.funding, Some(FundingStatus::FiveMillionToTenMillion));
    assert!(s.record.contact.is_none());
    assert_eq!(s.record.age, Some(AgeRange::TwentyfiveToFourty));
}

#[test]
fn parsers_map_labels_exactly() {
    assert_eq!(parse_age(&"50+".to_string()), Some(AgeRange::FiftyPlus));
    assert_eq!(parse_age(&"50".to_string()), None);
    assert_eq!(parse_status(&"В нуле".to_string()), Some(InvestmentStatus::Zero));
    assert_eq!(parse_status(&"".to_string()), None);
    assert_eq!(parse_instrument(&"Вклады".to_string()), Some(InvestmentInstrument::BankDeposits));
    assert_eq!(parse_instrument(&"Нет".to_string()), None);
    assert_eq!(parse_funding(&"1-5 миллионов".to_string()), Some(FundingStatus::MillionToFiveMillion));
    assert_eq!(parse_funding(&"18-25".to_string()), None);
}

#[test]
fn offered_choices_are_accepted_labels() {
    assert_eq!(choices(Stage::AwaitingAge), vec!["18-25", "25-40", "40-50", "50+"]);
    assert_eq!(
        choices(Stage::AwaitingInvestmentStatus),
        vec!["Не было опыта", "Минус", "В нуле", "Плюс", "Большой плюс"]
    );
    assert_eq!(choices(Stage::AwaitingInstrument), vec!["Акции", "Недвижимость", "Криптовалюта", "Вклады"]);
    assert_eq!(
        choices(Stage::AwaitingFundingCapacity),
        vec!["<1 миллиона", "1-5 миллионов", "5-10 миллионов", "Более 10 миллионов"]
    );
    assert!(choices(Stage::AwaitingContact).is_empty());
    for c in choices(Stage::AwaitingAge) {
        assert!(parse_age(&c.to_string()).is_some());
    }
    for c in choices(Stage::AwaitingFundingCapacity) {
        assert!(parse_funding(&c.to_string()).is_some());
    }
}

#[test]
fn prompts_and_acknowledgement() {
    assert_eq!(prompt_text(Stage::AwaitingAge), "Добрый день!\nСколько вам лет?");
    assert_eq!(
        prompt_text(Stage::AwaitingContact),
        "Отправьте нам ваш контакт для дальнейшего взаимодействия!"
    );
    assert_eq!(prompt_text(Stage::Complete), "");
    assert_eq!(acknowledgement(), "Ожидайте, с вами свяжется наш представитель!");
}

#[test]
fn record_renders_as_five_labelled_lines() {
    let c = CompletedRecord {
        age: AgeRange::EighteenToTwentyFive,
        investment_status: InvestmentStatus::NoExperience,
        instrument: InvestmentInstrument::Stocks,
        funding: FundingStatus::TenMillionPlus,
        contact: "+1234567890".to_string(),
    };
    assert_eq!(
        c.render(),
        "Возраст:18-25\nСтатус:Не было опыта\nИнструмент:Акции\nБюджет:Более 10 миллионов\nКонтакт:+1234567890\n"
    );
}

#[test]
fn labels_of_every_variant() {
    assert_eq!(AgeRange::TwentyfiveToFourty.label(), "25-40");
    assert_eq!(InvestmentStatus::BigPlus.label(), "Большой плюс");
    assert_eq!(InvestmentInstrument::NoInstrument.label(), "Нет");
    assert_eq!(FundingStatus::LessThanMillion.label(), "<1 миллиона");
}

#[test]
fn outcome_effects_per_variant() {
    assert!(outcome_effects(Outcome::Rejected(None)).is_empty());
    let r = outcome_effects(Outcome::Rejected(Some(Stage::AwaitingInstrument)));
    assert!(matches!(r.as_slice(), [Effect::Ask(Stage::AwaitingInstrument)]));
    let a = outcome_effects(Outcome::Advanced(Stage::AwaitingContact));
    assert!(matches!(a.as_slice(), [Effect::Ask(Stage::AwaitingContact)]));
    let c = CompletedRecord {
        age: AgeRange::FiftyPlus,
        investment_status: InvestmentStatus::Plus,
        instrument: InvestmentInstrument::RealEstate,
        funding: FundingStatus::LessThanMillion,
        contact: "1".to_string(),
    };
    let f = outcome_effects(Outcome::Finished(c));
    assert_eq!(f.len(), 2);
    assert!(matches!(f[0], Effect::Acknowledge));
    assert!(matches!(&f[1], Effect::Store(r) if r.contact == "1"));
}
