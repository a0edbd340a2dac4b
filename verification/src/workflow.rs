//! The approval processor's decision logic. A decision callback carries an
//! action and the originating message's text; this module re-derives the
//! transaction's fields from that text, normalizes the amount to its
//! magnitude, and plans the side effects: commit an expense and retire the
//! message, or retire it alone. The ledger call and the message deletion
//! themselves are I/O and stay with the caller; the state machine `resolve`
//! says what must happen after the ledger answered.
use vstd::prelude::*;
use vstd::string::StrSliceExecFns;
use vstd::string::StringExecFns;
use crate::codec::Action;
use crate::render::extract_spec;
use crate::render::extract_fields;

verus! {

/// Why a decision callback could not be carried out.
#[derive(Clone, Copy, Debug, PartialEq, Eq, Structural)]
pub enum WorkflowError {
    /// The message text no longer follows the shared format, or its date
    /// field is not a calendar date.
    UnparseableMessage,
    /// The ledger refused the expense; the message stays as the pending
    /// marker so the decision can be retried.
    LedgerRejected,
}

/// A calendar date, held as plain year, month and day.
#[derive(Clone, Copy, Debug, PartialEq, Eq, Structural)]
pub struct Date {
    pub year: u32,
    pub month: u8,
    pub day: u8,
}

/// Whether `c` is a decimal digit.
pub open spec fn is_digit(c: char) -> bool {
    48 <= c as u32 <= 57
}

/// The value of a decimal digit.
pub open spec fn digit_val(c: char) -> int {
    c as u32 - 48
}

/// The Gregorian leap-year rule.
pub open spec fn is_leap_year(y: int) -> bool {
    y % 4 == 0 && (y % 100 != 0 || y % 400 == 0)
}

/// How many days month `m` of year `y` has.
pub open spec fn days_in_month(y: int, m: int) -> int {
    if m == 2 {
        if is_leap_year(y) {
            29
        } else {
            28
        }
    } else if m == 4 || m == 6 || m == 9 || m == 11 {
        30
    } else {
        31
    }
}

/// The year written in the first four characters of a `YYYY-MM-DD` text.
pub open spec fn year_of(s: Seq<char>) -> int {
    digit_val(s[0]) * 1000 + digit_val(s[1]) * 100 + digit_val(s[2]) * 10 + digit_val(s[3])
}

/// The month written in a `YYYY-MM-DD` text.
pub open spec fn month_of(s: Seq<char>) -> int {
    digit_val(s[5]) * 10 + digit_val(s[6])
}

/// The day written in a `YYYY-MM-DD` text.
pub open spec fn day_of(s: Seq<char>) -> int {
    digit_val(s[8]) * 10 + digit_val(s[9])
}

/// Whether `s` is a well-formed `YYYY-MM-DD` calendar date, month and day
/// ranges included.
pub open spec fn valid_date(s: Seq<char>) -> bool {
    &&& s.len() == 10
    &&& is_digit(s[0])
    &&& is_digit(s[1])
    &&& is_digit(s[2])
    &&& is_digit(s[3])
    &&& s[4] == '-'
    &&& is_digit(s[5])
    &&& is_digit(s[6])
    &&& s[7] == '-'
    &&& is_digit(s[8])
    &&& is_digit(s[9])
    &&& 1 <= month_of(s) <= 12
    &&& 1 <= day_of(s) <= days_in_month(year_of(s), month_of(s))
}

/// `s` with every minus sign removed: the amount's magnitude, since the
/// source encodes the sign and the ledger records a positive cost.
pub open spec fn strip_minus(s: Seq<char>) -> Seq<char>
    decreases s.len(),
{
    if s.len() == 0 {
        Seq::empty()
    } else if s.last() == '-' {
        strip_minus(s.drop_last())
    } else {
        strip_minus(s.drop_last()).push(s.last())
    }
}

/// The value of a decimal digit character.
fn digit(c: char) -> (r: Option<u8>)
    ensures
        r is Some <==> is_digit(c),
        r matches Some(v) ==> v == digit_val(c),
{
    let u = c as u32;
    if 48 <= u && u <= 57 {
        Some((u - 48) as u8)
    } else {
        None
    }
}

/// How many days month `m` of year `y` has.
fn days_in_month_exec(y: u32, m: u8) -> (r: u8)
    requires
        1 <= m <= 12,
    ensures
        r == days_in_month(y as int, m as int),
{
    if m == 2 {
        if y % 4 == 0 && (y % 100 != 0 || y % 400 == 0) {
            29
        } else {
            28
        }
    } else if m == 4 || m == 6 || m == 9 || m == 11 {
        30
    } else {
        31
    }
}

/// Parses a strict `YYYY-MM-DD` calendar date, validating month and day
/// ranges, leap years included.
pub fn parse_date(s: &str) -> (r: Option<Date>)
    ensures
        r is Some <==> valid_date(s@),
        r matches Some(d) ==> d.year == year_of(s@) && d.month == month_of(s@) && d.day == day_of(
            s@,
        ),
{
    let n = s.unicode_len();
    if n != 10 {
        return None;
    }
    let d0 = match digit(s.get_char(0)) {
        Some(v) => v,
        None => return None,
    };
    let d1 = match digit(s.get_char(1)) {
        Some(v) => v,
        None => return None,
    };
    let d2 = match digit(s.get_char(2)) {
        Some(v) => v,
        None => return None,
    };
    let d3 = match digit(s.get_char(3)) {
        Some(v) => v,
        None => return None,
    };
    if s.get_char(4) != '-' {
        return None;
    }
    let d5 = match digit(s.get_char(5)) {
        Some(v) => v,
        None => return None,
    };
    let d6 = match digit(s.get_char(6)) {
        Some(v) => v,
        None => return None,
    };
    if s.get_char(7) != '-' {
        return None;
    }
    let d8 = match digit(s.get_char(8)) {
        Some(v) => v,
        None => return None,
    };
    let d9 = match digit(s.get_char(9)) {
        Some(v) => v,
        None => return None,
    };
    let year: u32 = d0 as u32 * 1000 + d1 as u32 * 100 + d2 as u32 * 10 + d3 as u32;
    let month: u8 = d5 * 10 + d6;
    let day: u8 = d8 * 10 + d9;
    if month < 1 || month > 12 {
        return None;
    }
    if day < 1 || day > days_in_month_exec(year, month) {
        return None;
    }
    Some(Date { year, month, day })
}

/// The amount's magnitude: the text with every minus sign removed.
pub fn magnitude(s: &str) -> (r: String)
    ensures
        r@ == strip_minus(s@),
{
    let n = s.unicode_len();
    let mut out = String::new();
    let mut i: usize = 0;
    while i < n
        invariant
            i <= n,
            n == s@.len(),
            out@ == strip_minus(s@.subrange(0, i as int)),
        decreases n - i,
    {
        if s.get_char(i) != '-' {
            let piece = s.substring_char(i, i + 1);
            out.append(piece);
        }
        proof {
            let post = s@.subrange(0, i as int + 1);
            assert(post.drop_last() =~= s@.subrange(0, i as int));
            assert(post.last() == s@[i as int]);
            assert(out@ =~= strip_minus(post));
        }
        i = i + 1;
    }
    proof {
        assert(s@.subrange(0, n as int) =~= s@);
    }
    out
}

/// The expense written to the external ledger on an accepted transaction.
/// The note in `details` tags the originating transaction id for
/// traceability.
pub struct LedgerExpense {
    pub cost: String,
    pub description: String,
    pub details: String,
    pub date: Date,
    pub group_id: i64,
    pub currency_code: String,
    pub repeat_interval: String,
    pub category_id: i64,
    pub split_equally: bool,
}

/// The side effects a decision callback asks for.
pub enum Plan {
    /// Commit this expense to the ledger; delete the message only once the
    /// commit succeeded.
    CommitAndDelete(LedgerExpense),
    /// Delete the message without touching the ledger.
    DeleteOnly,
}

/// Plans the side effects of a decoded decision. An ignore never touches
/// the ledger; an accept re-derives the expense from the message text that
/// was rendered at publish time and fails when that text no longer parses.
pub fn plan_decision(action: Action, transaction_id: &str, content: &str, group_id: i64) -> (r:
    Result<Plan, WorkflowError>)
    ensures
        action is Ignore ==> (r matches Ok(p) && p is DeleteOnly),
        action is Accept ==> (match extract_spec(content@) {
            None => r == Err::<Plan, WorkflowError>(WorkflowError::UnparseableMessage),
            Some(f) => if !valid_date(f.0) {
                r == Err::<Plan, WorkflowError>(WorkflowError::UnparseableMessage)
            } else {
                r matches Ok(p) && p matches Plan::CommitAndDelete(e) && e.cost@ == strip_minus(
                    f.1,
                ) && e.description@ == f.2 && e.details@ == "mint:"@ + transaction_id@
                    && e.date.year == year_of(f.0) && e.date.month == month_of(f.0) && e.date.day
                    == day_of(f.0) && e.group_id == group_id && e.currency_code@ == "USD"@
                    && e.repeat_interval@ == "never"@ && e.category_id == 0 && e.split_equally
            },
        }),
{
    match action {
        Action::Ignore => Ok(Plan::DeleteOnly),
        Action::Accept => {
            let f = match extract_fields(content) {
                Some(f) => f,
                None => return Err(WorkflowError::UnparseableMessage),
            };
            let date = match parse_date(f.0.as_str()) {
                Some(d) => d,
                None => return Err(WorkflowError::UnparseableMessage),
            };
            let cost = magnitude(f.1.as_str());
            let mut details = String::from_str("mint:");
            details.append(transaction_id);
            Ok(
                Plan::CommitAndDelete(
                    LedgerExpense {
                        cost,
                        description: f.2,
                        details,
                        date,
                        group_id,
                        currency_code: String::from_str("USD"),
                        repeat_interval: String::from_str("never"),
                        category_id: 0,
                        split_equally: true,
                    },
                ),
            )
        },
    }
}

/// The terminal state a published message reaches after a decision ran.
#[derive(Clone, Copy, Debug, PartialEq, Eq, Structural)]
pub enum DecisionOutcome {
    /// The expense was committed and the message must now be deleted.
    CommittedAndDeleted,
    /// An ignored transaction: the message is deleted, nothing is committed.
    DeletedOnly,
}

/// The per-message state machine, from a pending message: an accept whose
/// ledger call succeeded commits and deletes; an accept whose ledger call
/// failed surfaces `LedgerRejected`, and the message stays pending, the
/// durable marker that makes a manual retry possible; an ignore deletes
/// without a commit. No other transition exists, which is what makes a
/// decided message final: its controls cease to exist with it.
pub fn resolve(action: Action, ledger_ok: bool) -> (r: Result<DecisionOutcome, WorkflowError>)
    ensures
        action is Accept && ledger_ok ==> r == Ok::<DecisionOutcome, WorkflowError>(
            DecisionOutcome::CommittedAndDeleted,
        ),
        action is Accept && !ledger_ok ==> r == Err::<DecisionOutcome, WorkflowError>(
            WorkflowError::LedgerRejected,
        ),
        action is Ignore ==> r == Ok::<DecisionOutcome, WorkflowError>(
            DecisionOutcome::DeletedOnly,
        ),
{
    match action {
        Action::Accept => if ledger_ok {
            Ok(DecisionOutcome::CommittedAndDeleted)
        } else {
            Err(WorkflowError::LedgerRejected)
        },
        Action::Ignore => Ok(DecisionOutcome::DeletedOnly),
    }
}

} // verus!
