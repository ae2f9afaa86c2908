//! Domain model: the `Frequency` and `RecordType` enumerations with their
//! canonical textual forms, and the `FinancialRecord` aggregate.

use vstd::prelude::*;

use crate::errors::ParseError;

verus! {

/// How often a record recurs.
#[derive(Clone, Copy, Debug, PartialEq, Eq, Structural)]
pub enum Frequency {
    Daily,
    Weekly,
    Monthly,
    Quarterly,
    Yearly,
}

/// The category of a record.
#[derive(Clone, Copy, Debug, PartialEq, Eq, Structural)]
pub enum RecordType {
    Income,
    Expense,
    Debt,
}

/// Canonical textual form of a frequency: its exact variant name.
pub open spec fn frequency_text(f: Frequency) -> Seq<char> {
    match f {
        Frequency::Daily => "Daily"@,
        Frequency::Weekly => "Weekly"@,
        Frequency::Monthly => "Monthly"@,
        Frequency::Quarterly => "Quarterly"@,
        Frequency::Yearly => "Yearly"@,
    }
}

/// The frequency whose canonical form is `s`, if any. Parsing is
/// case-sensitive and rejects every other string.
pub open spec fn frequency_of_text(s: Seq<char>) -> Option<Frequency> {
    if s == "Daily"@ {
        Some(Frequency::Daily)
    } else if s == "Weekly"@ {
        Some(Frequency::Weekly)
    } else if s == "Monthly"@ {
        Some(Frequency::Monthly)
    } else if s == "Quarterly"@ {
        Some(Frequency::Quarterly)
    } else if s == "Yearly"@ {
        Some(Frequency::Yearly)
    } else {
        None
    }
}

/// Canonical textual form of a record kind: its exact variant name.
pub open spec fn record_type_text(t: RecordType) -> Seq<char> {
    match t {
        RecordType::Income => "Income"@,
        RecordType::Expense => "Expense"@,
        RecordType::Debt => "Debt"@,
    }
}

/// The record kind whose canonical form is `s`, if any.
pub open spec fn record_type_of_text(s: Seq<char>) -> Option<RecordType> {
    if s == "Income"@ {
        Some(RecordType::Income)
    } else if s == "Expense"@ {
        Some(RecordType::Expense)
    } else if s == "Debt"@ {
        Some(RecordType::Debt)
    } else {
        None
    }
}

/// Relies on `<str as PartialEq>::eq`: equality of the underlying UTF-8
/// bytes, which coincides with equality of the character sequences.
#[verifier::external_body]
fn str_eq(a: &str, b: &str) -> (r: bool)
    ensures
        r == (a@ == b@),
{
    a == b
}

impl Frequency {
    /// Parses the canonical textual form of a frequency.
    pub fn parse(s: &str) -> (r: Result<Frequency, ParseError>)
        ensures
            r matches Ok(f) ==> frequency_of_text(s@) == Some(f),
            r is Err ==> frequency_of_text(s@) is None,
    {
        if str_eq(s, "Daily") {
            Ok(Frequency::Daily)
        } else if str_eq(s, "Weekly") {
            Ok(Frequency::Weekly)
        } else if str_eq(s, "Monthly") {
            Ok(Frequency::Monthly)
        } else if str_eq(s, "Quarterly") {
            Ok(Frequency::Quarterly)
        } else if str_eq(s, "Yearly") {
            Ok(Frequency::Yearly)
        } else {
            Err(ParseError)
        }
    }

    /// Renders the canonical textual form of this frequency.
    pub fn format(&self) -> (r: String)
        ensures
            r@ == frequency_text(*self),
    {
        match self {
            Frequency::Daily => "Daily".to_owned(),
            Frequency::Weekly => "Weekly".to_owned(),
            Frequency::Monthly => "Monthly".to_owned(),
            Frequency::Quarterly => "Quarterly".to_owned(),
            Frequency::Yearly => "Yearly".to_owned(),
        }
    }
}

impl RecordType {
    /// Parses the canonical textual form of a record kind.
    pub fn parse(s: &str) -> (r: Result<RecordType, ParseError>)
        ensures
            r matches Ok(t) ==> record_type_of_text(s@) == Some(t),
            r is Err ==> record_type_of_text(s@) is None,
    {
        if str_eq(s, "Income") {
            Ok(RecordType::Income)
        } else if str_eq(s, "Expense") {
            Ok(RecordType::Expense)
        } else if str_eq(s, "Debt") {
            Ok(RecordType::Debt)
        } else {
            Err(ParseError)
        }
    }

    /// Renders the canonical textual form of this record kind.
    pub fn format(&self) -> (r: String)
        ensures
            r@ == record_type_text(*self),
    {
        match self {
            RecordType::Income => "Income".to_owned(),
            RecordType::Expense => "Expense".to_owned(),
            RecordType::Debt => "Debt".to_owned(),
        }
    }
}

/// Parsing the canonical form of any frequency yields that frequency back.
pub proof fn lemma_frequency_round_trip(f: Frequency)
    ensures
        frequency_of_text(frequency_text(f)) == Some(f),
{
    reveal_strlit("Daily");
    reveal_strlit("Weekly");
    reveal_strlit("Monthly");
    reveal_strlit("Quarterly");
    reveal_strlit("Yearly");
    assert("Daily"@[0] == 'D' && "Weekly"@[0] == 'W' && "Monthly"@[0] == 'M' && "Quarterly"@[0]
        == 'Q' && "Yearly"@[0] == 'Y');
}

/// Rendering the frequency parsed from a valid canonical string yields that
/// same string back.
pub proof fn lemma_frequency_text_round_trip(s: Seq<char>)
    requires
        frequency_of_text(s) is Some,
    ensures
        frequency_text(frequency_of_text(s)->Some_0) == s,
{
}

/// The canonical forms of two distinct frequencies differ.
pub proof fn lemma_frequency_text_injective(a: Frequency, b: Frequency)
    requires
        frequency_text(a) == frequency_text(b),
    ensures
        a == b,
{
    lemma_frequency_round_trip(a);
    lemma_frequency_round_trip(b);
}

/// Parsing the canonical form of any record kind yields that kind back.
pub proof fn lemma_record_type_round_trip(t: RecordType)
    ensures
        record_type_of_text(record_type_text(t)) == Some(t),
{
    reveal_strlit("Income");
    reveal_strlit("Expense");
    reveal_strlit("Debt");
    assert("Income"@[0] == 'I' && "Expense"@[0] == 'E' && "Debt"@[0] == 'D');
}

/// Rendering the record kind parsed from a valid canonical string yields
/// that same string back.
pub proof fn lemma_record_type_text_round_trip(s: Seq<char>)
    requires
        record_type_of_text(s) is Some,
    ensures
        record_type_text(record_type_of_text(s)->Some_0) == s,
{
}

/// The canonical forms of two distinct record kinds differ.
pub proof fn lemma_record_type_text_injective(a: RecordType, b: RecordType)
    requires
        record_type_text(a) == record_type_text(b),
    ensures
        a == b,
{
    lemma_record_type_round_trip(a);
    lemma_record_type_round_trip(b);
}

/// One financial entry. The `amount` is the monetary value in minor
/// currency units; the service rejects amounts that are not strictly
/// positive, the model itself does not validate.
#[derive(Clone, Debug, PartialEq)]
pub struct FinancialRecord {
    /// Globally unique identifier, assigned once at creation.
    pub id: String,
    /// Display label; not unique.
    pub name: String,
    /// Monetary value in minor currency units.
    pub amount: i64,
    /// How often the record recurs.
    pub frequency: Frequency,
    /// The record's category.
    pub record_type: RecordType,
}

/// Relies on `uuid::Uuid::new_v4` and its `Display` impl: a freshly
/// generated random version-4 UUID, rendered in the canonical hyphenated
/// form of 36 characters. Uniqueness is probabilistic and is not assumed
/// here; the store's primary key enforces it.
#[verifier::external_body]
fn fresh_id() -> (r: String)
    ensures
        r@.len() == 36,
{
    uuid::Uuid::new_v4().to_string()
}

impl FinancialRecord {
    /// Mints a fresh id and returns the fully populated record. Performs no
    /// validation: that is the service's responsibility.
    pub fn new(name: &str, amount: i64, frequency: Frequency, record_type: RecordType) -> (r:
        FinancialRecord)
        ensures
            r.name@ == name@,
            r.amount == amount,
            r.frequency == frequency,
            r.record_type == record_type,
            r.id@.len() == 36,
    {
        FinancialRecord { id: fresh_id(), name: name.to_owned(), amount, frequency, record_type }
    }
}

} // verus!
