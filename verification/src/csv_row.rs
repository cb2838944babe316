//! Projection of domain inscriptions onto the fixed CSV output schema.
//!
//! The projection is total: every inscription yields exactly one row. The
//! column order is fixed and must match the declared header exactly; the
//! quote and fee columns are always empty and the blockchain column is a
//! constant.

use vstd::prelude::*;
use vstd::string::StringExecFns;
use crate::datetime::fmt_ymd_hms;
use crate::domain::Category;
use crate::domain::action_label;
use crate::domain::category_label;
use crate::domain::category_of;
use crate::domain::token_type_label;
use crate::normalize::Inscription;

verus! {

/// One output row, already rendered to the exported string fields.
#[derive(Debug, PartialEq, Eq)]
pub struct CsvRow {
    pub timestamp: String,
    pub category: String,
    pub base_currency: String,
    pub base_amount: String,
    pub from: String,
    pub to: String,
    pub hash: String,
    pub description: String,
}

/// The description column: token standard, action and inscription id.
pub open spec fn description_of(ins: Inscription) -> Seq<char> {
    token_type_label(ins.token_type) + " "@ + action_label(ins.action)
        + " with inscription_id "@ + ins.inscription_id@
}

/// Projects one inscription onto one output row.
///
/// Mint actions are filed as mints and transfers as acquisitions; the
/// timestamp is re-rendered as `YYYY/MM/DD HH:MM:SS` in UTC and the amount
/// as its exact decimal string.
pub fn to_csv_row(inscription: Inscription) -> (r: CsvRow)
    ensures
        r.timestamp@ == fmt_ymd_hms(inscription.date_time),
        r.category@ == category_label(category_of(inscription.action)),
        r.base_currency@ == inscription.token@,
        r.base_amount@ == inscription.amount@,
        r.from@ == inscription.from_address@,
        r.to@ == inscription.to_address@,
        r.hash@ == inscription.tx_id@,
        r.description@ == description_of(inscription),
{
    let category = Category::from_action(&inscription.action);
    let mut description = inscription.token_type.label().to_owned();
    description.append(" ");
    description.append(inscription.action.label());
    description.append(" with inscription_id ");
    description.append(inscription.inscription_id.as_str());
    CsvRow {
        timestamp: inscription.date_time.format_ymd_hms(),
        category: category.label().to_owned(),
        base_currency: inscription.token,
        base_amount: inscription.amount.to_dec_string(),
        from: inscription.from_address,
        to: inscription.to_address,
        hash: inscription.tx_id,
        description,
    }
}

/// The fixed header row, in the exact declared column order.
pub fn csv_header() -> (r: Vec<&'static str>)
    ensures
        r@.len() == 13,
        r@[0]@ == "Timestamp (UTC)"@,
        r@[1]@ == "Type"@,
        r@[2]@ == "Base Currency"@,
        r@[3]@ == "Base Amount"@,
        r@[4]@ == "Quote Currency"@,
        r@[5]@ == "Quote Amount"@,
        r@[6]@ == "Fee Currency"@,
        r@[7]@ == "Fee Amount"@,
        r@[8]@ == "From"@,
        r@[9]@ == "To"@,
        r@[10]@ == "Blockchain"@,
        r@[11]@ == "ID"@,
        r@[12]@ == "Description"@,
{
    let mut v: Vec<&'static str> = Vec::new();
    v.push("Timestamp (UTC)");
    v.push("Type");
    v.push("Base Currency");
    v.push("Base Amount");
    v.push("Quote Currency");
    v.push("Quote Amount");
    v.push("Fee Currency");
    v.push("Fee Amount");
    v.push("From");
    v.push("To");
    v.push("Blockchain");
    v.push("ID");
    v.push("Description");
    v
}

/// Renders one row as the thirteen record fields, in header order: the
/// quote and fee columns are empty and the blockchain column is the one
/// supported chain.
pub fn csv_record(row: &CsvRow) -> (r: Vec<String>)
    ensures
        r@.len() == 13,
        r@[0]@ == row.timestamp@,
        r@[1]@ == row.category@,
        r@[2]@ == row.base_currency@,
        r@[3]@ == row.base_amount@,
        r@[4]@ == Seq::<char>::empty(),
        r@[5]@ == Seq::<char>::empty(),
        r@[6]@ == Seq::<char>::empty(),
        r@[7]@ == Seq::<char>::empty(),
        r@[8]@ == row.from@,
        r@[9]@ == row.to@,
        r@[10]@ == "Bitcoin"@,
        r@[11]@ == row.hash@,
        r@[12]@ == row.description@,
{
    let mut v: Vec<String> = Vec::new();
    v.push(row.timestamp.clone());
    v.push(row.category.clone());
    v.push(row.base_currency.clone());
    v.push(row.base_amount.clone());
    v.push(String::new());
    v.push(String::new());
    v.push(String::new());
    v.push(String::new());
    v.push(row.from.clone());
    v.push(row.to.clone());
    v.push("Bitcoin".to_owned());
    v.push(row.hash.clone());
    v.push(row.description.clone());
    v
}

} // verus!
