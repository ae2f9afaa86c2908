use budget::errors::ParseError;
use budget::models::{FinancialRecord, Frequency, RecordType};

#[test]
fn frequency_round_trip_all_values() {
    let all = [
        Frequency::Daily,
        Frequency::Weekly,
        Frequency::Monthly,
        Frequency::Quarterly,
        Frequency::Yearly,
    ];
    for f in all {
        let text = f.format();
        assert_eq!(Frequency::parse(&text), Ok(f));
    }
}

#[test]
fn frequency_format_exact_text() {
    assert_eq!(Frequency::Daily.format(), "Daily");
    assert_eq!(Frequency::Weekly.format(), "Weekly");
    assert_eq!(Frequency::Monthly.format(), "Monthly");
    assert_eq!(Frequency::Quarterly.format(), "Quarterly");
    assert_eq!(Frequency::Yearly.format(), "Yearly");
}

#[test]
fn frequency_parse_then_format_valid_strings() {
    for s in ["Daily", "Weekly", "Monthly", "Quarterly", "Yearly"] {
        let f = Frequency::parse(s).expect("canonical text must parse");
        assert_eq!(f.format(), s);
    }
}

#[test]
fn frequency_parse_rejects_non_canonical() {
    for s in ["daily", "DAILY", "Sometimes", "", "Weekly ", "Month"] {
        assert_eq!(Frequency::parse(s), Err(ParseError));
    }
}

#[test]
fn record_type_round_trip_all_values() {
    let all = [RecordType::Income, RecordType::Expense, RecordType::Debt];
    for t in all {
        let text = t.format();
        assert_eq!(RecordType::parse(&text), Ok(t));
    }
}

#[test]
fn record_type_format_exact_text() {
    assert_eq!(RecordType::Income.format(), "Income");
    assert_eq!(RecordType::Expense.format(), "Expense");
    assert_eq!(RecordType::Debt.format(), "Debt");
}

#[test]
fn record_type_parse_then_format_valid_strings() {
    for s in ["Income", "Expense", "Debt"] {
        let t = RecordType::parse(s).expect("canonical text must parse");
        assert_eq!(t.format(), s);
    }
}

#[test]
fn record_type_parse_rejects_non_canonical() {
    for s in ["income", "EXPENSE", "Loan", "", "Debt "] {
        assert_eq!(RecordType::parse(s), Err(ParseError));
    }
}

#[test]
fn new_record_populates_fields_and_mints_id() {
    let rec = FinancialRecord::new("Electric Bill", 1642, Frequency::Monthly, RecordType::Expense);
    assert_eq!(rec.name, "Electric Bill");
    assert_eq!(rec.amount, 1642);
    assert_eq!(rec.frequency, Frequency::Monthly);
    assert_eq!(rec.record_type, RecordType::Expense);
    assert_eq!(rec.id.len(), 36);
}

#[test]
fn new_record_ids_differ() {
    let a = FinancialRecord::new("A", 1, Frequency::Daily, RecordType::Income);
    let b = FinancialRecord::new("A", 1, Frequency::Daily, RecordType::Income);
    assert_ne!(a.id, b.id);
}

#[test]
fn new_record_performs_no_validation() {
    let rec = FinancialRecord::new("Bad", -7, Frequency::Daily, RecordType::Debt);
    assert_eq!(rec.amount, -7);
}
