//! The notification wire format. The rendered message text is the only
//! carrier of a pending transaction's fields between publish time and
//! decision time, so the renderer and the extractor here share one format
//! definition: a fixed header line, then one line each for date, amount and
//! description, in that order, each behind a fixed tag.
use vstd::prelude::*;
use vstd::string::StrSliceExecFns;
use vstd::string::StringExecFns;
use crate::codec::Action;
use crate::codec::encode_spec;
use crate::codec::encode_token;
use crate::codec::find_char;
use crate::codec::find_from;
use crate::codec::lemma_find_from;
use crate::codec::lemma_find_from_unique;
use crate::codec::str_eq;
use crate::model::TransactionRecord;

verus! {

/// The fixed first line of a notification.
pub open spec fn header_text() -> Seq<char> {
    "New transaction! Sync to Splitwise?"@
}

/// The line separator of the format.
pub open spec fn nl() -> Seq<char> {
    "\n"@
}

/// The tag in front of the date field.
pub open spec fn date_tag() -> Seq<char> {
    "- Date: "@
}

/// The tag in front of the amount field.
pub open spec fn amount_tag() -> Seq<char> {
    "- Amount: "@
}

/// The tag in front of the description field.
pub open spec fn desc_tag() -> Seq<char> {
    "- Description: "@
}

/// What `render_message` produces from the three rendered fields.
pub open spec fn render_spec(date: Seq<char>, amount: Seq<char>, desc: Seq<char>) -> Seq<char> {
    header_text() + nl() + date_tag() + date + nl() + amount_tag() + amount + nl() + desc_tag()
        + desc
}

/// Whether `p` occurs in `s` starting at index `at`.
pub open spec fn has_seq_at(s: Seq<char>, at: int, p: Seq<char>) -> bool {
    0 <= at && at + p.len() <= s.len() && s.subrange(at, at + p.len()) == p
}

/// What `extract_fields` recovers from a message text: the date line's text,
/// the amount line's text, and everything after the description tag. `None`
/// when the text does not follow the format.
pub open spec fn extract_spec(s: Seq<char>) -> Option<(Seq<char>, Seq<char>, Seq<char>)> {
    let p = header_text() + nl() + date_tag();
    if !has_seq_at(s, 0, p) {
        None
    } else {
        let i = find_from(s, '\n', p.len() as int);
        if i == s.len() {
            None
        } else if !has_seq_at(s, i + 1, amount_tag()) {
            None
        } else {
            let a0 = i + 1 + amount_tag().len();
            let j = find_from(s, '\n', a0 as int);
            if j == s.len() {
                None
            } else if !has_seq_at(s, j + 1, desc_tag()) {
                None
            } else {
                Some(
                    (
                        s.subrange(p.len() as int, i),
                        s.subrange(a0 as int, j),
                        s.subrange(j + 1 + desc_tag().len(), s.len() as int),
                    ),
                )
            }
        }
    }
}

/// Law: extracting from a rendered message gives back exactly the date,
/// amount and description that were rendered, whenever the date and the
/// amount hold no line separator. The description may hold one: it is the
/// last field and runs to the end of the text.
pub proof fn lemma_render_extract_round_trip(date: Seq<char>, amount: Seq<char>, desc: Seq<char>)
    requires
        !date.contains('\n'),
        !amount.contains('\n'),
    ensures
        extract_spec(render_spec(date, amount, desc)) == Some((date, amount, desc)),
{
    reveal_strlit("\n");
    let s = render_spec(date, amount, desc);
    let p = header_text() + nl() + date_tag();
    let d0 = p.len() as int;
    let i = d0 + date.len();
    let a0 = i + 1 + amount_tag().len();
    let j = a0 + amount.len();
    let t0 = j + 1 + desc_tag().len();
    assert(nl().len() == 1);
    assert(nl()[0] == '\n');
    assert(s.len() == t0 + desc.len());
    assert(s.subrange(0, d0) =~= p);
    assert(has_seq_at(s, 0, p));
    assert(forall|k: int| 0 <= k < date.len() ==> date[k] != '\n');
    assert(forall|k: int| d0 <= k < i ==> s[k] == date[k - d0] && s[k] != '\n');
    assert(s[i] == '\n');
    lemma_find_from_unique(s, '\n', d0, i);
    assert(s.subrange(i + 1, i + 1 + amount_tag().len()) =~= amount_tag());
    assert(has_seq_at(s, i + 1, amount_tag()));
    assert(forall|k: int| 0 <= k < amount.len() ==> amount[k] != '\n');
    assert(forall|k: int| a0 <= k < j ==> s[k] == amount[k - a0] && s[k] != '\n');
    assert(s[j] == '\n');
    lemma_find_from_unique(s, '\n', a0, j);
    assert(s.subrange(j + 1, j + 1 + desc_tag().len()) =~= desc_tag());
    assert(has_seq_at(s, j + 1, desc_tag()));
    assert(s.subrange(d0, i) =~= date);
    assert(s.subrange(a0, j) =~= amount);
    assert(s.subrange(t0, s.len() as int) =~= desc);
}

/// A published notification: the rendered text and the two decision
/// controls' tokens, both minted against the same transaction id.
pub struct Notification {
    pub content: String,
    pub accept_token: String,
    pub ignore_token: String,
}

/// Renders the message text of a transaction.
pub fn render_message(t: &TransactionRecord) -> (r: String)
    ensures
        r@ == render_spec(t.date@, t.amount@, t.description@),
{
    let mut s = String::from_str("New transaction! Sync to Splitwise?");
    s.append("\n");
    s.append("- Date: ");
    s.append(t.date.as_str());
    s.append("\n");
    s.append("- Amount: ");
    s.append(t.amount.as_str());
    s.append("\n");
    s.append("- Description: ");
    s.append(t.description.as_str());
    proof {
        assert(s@ =~= render_spec(t.date@, t.amount@, t.description@));
    }
    s
}

/// Builds the full notification of a transaction: the rendered text and the
/// accept and ignore tokens carrying the transaction's id.
pub fn build_notification(t: &TransactionRecord) -> (r: Notification)
    ensures
        r.content@ == render_spec(t.date@, t.amount@, t.description@),
        r.accept_token@ == encode_spec(Action::Accept, t.id@),
        r.ignore_token@ == encode_spec(Action::Ignore, t.id@),
{
    Notification {
        content: render_message(t),
        accept_token: encode_token(Action::Accept, t.id.as_str()),
        ignore_token: encode_token(Action::Ignore, t.id.as_str()),
    }
}

/// Recovers the date, amount and description fields from a message text, or
/// `None` when the text does not follow the format.
pub fn extract_fields(content: &str) -> (r: Option<(String, String, String)>)
    ensures
        r matches Some(f) ==> (extract_spec(content@) matches Some(g) && f.0@ == g.0 && f.1@ == g.1
            && f.2@ == g.2),
        r is None ==> extract_spec(content@) is None,
{
    let n = content.unicode_len();
    let mut p = String::from_str("New transaction! Sync to Splitwise?");
    p.append("\n");
    p.append("- Date: ");
    let pl = p.as_str().unicode_len();
    if n < pl {
        return None;
    }
    let pre = content.substring_char(0, pl);
    if !str_eq(pre, p.as_str()) {
        proof {
            assert(content@.subrange(0, pl as int) != (header_text() + nl() + date_tag()));
        }
        return None;
    }
    let i = find_char(content, '\n', pl);
    proof {
        lemma_find_from(content@, '\n', pl as int);
    }
    if i == n {
        return None;
    }
    let date = content.substring_char(pl, i);
    let at = String::from_str("- Amount: ");
    let atl = at.as_str().unicode_len();
    if n - (i + 1) < atl {
        return None;
    }
    let pre2 = content.substring_char(i + 1, i + 1 + atl);
    if !str_eq(pre2, at.as_str()) {
        return None;
    }
    let a0 = i + 1 + atl;
    let j = find_char(content, '\n', a0);
    proof {
        lemma_find_from(content@, '\n', a0 as int);
    }
    if j == n {
        return None;
    }
    let amount = content.substring_char(a0, j);
    let dt = String::from_str("- Description: ");
    let dtl = dt.as_str().unicode_len();
    if n - (j + 1) < dtl {
        return None;
    }
    let pre3 = content.substring_char(j + 1, j + 1 + dtl);
    if !str_eq(pre3, dt.as_str()) {
        return None;
    }
    let desc = content.substring_char(j + 1 + dtl, n);
    Some((String::from_str(date), String::from_str(amount), String::from_str(desc)))
}

} // verus!
