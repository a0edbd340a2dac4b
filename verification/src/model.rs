//! Data model of the transaction snapshots that the workflow consumes.
use vstd::prelude::*;

verus! {

/// A transaction as this core reads it: the join key `id`, a calendar date
/// written `YYYY-MM-DD`, free-text description, and the signed decimal amount
/// kept in its textual form. The record is materialized from a snapshot
/// export and never mutated here.
#[derive(Debug)]
pub struct TransactionRecord {
    pub id: String,
    pub date: String,
    pub description: String,
    pub amount: String,
}

impl Clone for TransactionRecord {
    fn clone(&self) -> (r: Self)
        ensures
            r == *self,
    {
        TransactionRecord {
            id: self.id.clone(),
            date: self.date.clone(),
            description: self.description.clone(),
            amount: self.amount.clone(),
        }
    }
}

/// Bookkeeping attached to a snapshot record by the exporting system.
#[derive(Debug)]
pub struct MetaData {
    pub last_updated_date: String,
    pub link: Vec<Link>,
}

/// A hyperlink reference carried by snapshot metadata.
#[derive(Debug)]
pub struct Link {
    pub other_attributes: OtherAttributes,
    pub href: String,
    pub rel: String,
}

/// Extension attributes of a metadata link; the export leaves it empty.
#[derive(Debug)]
pub struct OtherAttributes {}

/// The account a snapshot record belongs to.
#[derive(Debug)]
pub struct AccountRef {
    pub id: i64,
    pub account_urn: String,
    pub name: String,
    pub type_field: String,
    pub hidden_from_planning_and_trends: bool,
}

/// The category the exporting system assigned to a record.
#[derive(Debug)]
pub struct Category {
    pub id: String,
    pub name: String,
    pub category_type: String,
    pub parent_id: String,
    pub parent_name: String,
}

/// The category the exporting system inferred from the raw feed data.
#[derive(Debug)]
pub struct InferredCategory {
    pub id: String,
    pub name: String,
}

} // verus!
