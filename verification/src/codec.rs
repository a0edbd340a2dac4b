//! The action-token codec. A UI control carries the whole meaning of a
//! pending decision as the string `"<action>:<transaction id>"`; there is no
//! server-side session table, so the token must round-trip exactly.
use vstd::prelude::*;
use vstd::string::StrSliceExecFns;
use vstd::string::StringExecFns;

verus! {

/// The decision a UI control offers: commit the transaction to the ledger,
/// or drop it.
#[derive(Clone, Copy, Debug, PartialEq, Eq, Structural)]
pub enum Action {
    Accept,
    Ignore,
}

/// Why a token failed to decode.
#[derive(Clone, Copy, Debug, PartialEq, Eq, Structural)]
pub enum CodecError {
    /// The token holds no delimiter at all.
    NoDelimiter,
    /// The action or the id side of the delimiter is empty.
    EmptyField,
    /// The id side itself holds the delimiter, which the codec rejects.
    DelimiterInId,
    /// The action side is not in the closed action set.
    UnknownAction,
}

/// The label an action is serialized as.
pub open spec fn action_label(a: Action) -> Seq<char> {
    match a {
        Action::Accept => "accept"@,
        Action::Ignore => "ignore"@,
    }
}

/// What `encode_token` produces: `"<action>:<id>"`.
pub open spec fn encode_spec(a: Action, id: Seq<char>) -> Seq<char> {
    action_label(a) + ":"@ + id
}

/// Index of the first occurrence of `c` in `s` at or after `from`;
/// `s.len()` if there is none.
pub open spec fn find_from(s: Seq<char>, c: char, from: int) -> int
    decreases s.len() - from,
{
    if from < 0 || from >= s.len() {
        s.len() as int
    } else if s[from] == c {
        from
    } else {
        find_from(s, c, from + 1)
    }
}

pub proof fn lemma_find_from(s: Seq<char>, c: char, from: int)
    requires
        0 <= from <= s.len(),
    ensures
        from <= find_from(s, c, from) <= s.len(),
        find_from(s, c, from) < s.len() ==> s[find_from(s, c, from)] == c,
        forall|k: int| from <= k < find_from(s, c, from) ==> s[k] != c,
    decreases s.len() - from,
{
    if from < s.len() && s[from] != c {
        lemma_find_from(s, c, from + 1);
    }
}

/// If nothing in `[from, j)` is `c`, and `j` is the end or a hit, then the
/// first hit at or after `from` is exactly `j`.
pub proof fn lemma_find_from_unique(s: Seq<char>, c: char, from: int, j: int)
    requires
        0 <= from <= j <= s.len(),
        forall|k: int| from <= k < j ==> s[k] != c,
        j == s.len() || s[j] == c,
    ensures
        find_from(s, c, from) == j,
    decreases j - from,
{
    if from < j {
        lemma_find_from_unique(s, c, from + 1, j);
    }
}

/// What `decode_token` returns: the token is split at its first delimiter;
/// a missing delimiter, an empty side, a delimiter inside the id, or an
/// action outside the closed set is rejected.
pub open spec fn decode_spec(t: Seq<char>) -> Result<(Action, Seq<char>), CodecError> {
    let i = find_from(t, ':', 0);
    if i == t.len() {
        Err(CodecError::NoDelimiter)
    } else {
        let left = t.subrange(0, i);
        let right = t.subrange(i + 1, t.len() as int);
        if left.len() == 0 || right.len() == 0 {
            Err(CodecError::EmptyField)
        } else if right.contains(':') {
            Err(CodecError::DelimiterInId)
        } else if left == action_label(Action::Accept) {
            Ok((Action::Accept, right))
        } else if left == action_label(Action::Ignore) {
            Ok((Action::Ignore, right))
        } else {
            Err(CodecError::UnknownAction)
        }
    }
}

/// Law: decoding an encoded token gives back exactly the action and id that
/// were encoded, for every id that is nonempty and free of the delimiter.
pub proof fn lemma_codec_round_trip(a: Action, id: Seq<char>)
    requires
        id.len() > 0,
        !id.contains(':'),
    ensures
        decode_spec(encode_spec(a, id)) == Ok::<(Action, Seq<char>), CodecError>((a, id)),
{
    let t = encode_spec(a, id);
    let lab = action_label(a);
    lemma_label_facts();
    assert(t[6] == ':');
    assert(forall|k: int| 0 <= k < 6 ==> t[k] == lab[k] && t[k] != ':');
    lemma_find_from_unique(t, ':', 0, 6);
    assert(t.subrange(0, 6) =~= lab);
    let right = t.subrange(7, t.len() as int);
    assert(right =~= id);
    assert(lab == action_label(Action::Accept) ==> a == Action::Accept);
}

/// Law: a token encoded from an id that itself holds the delimiter is
/// rejected by decoding.
pub proof fn lemma_codec_rejects_delimiter_in_id(a: Action, id: Seq<char>)
    requires
        id.contains(':'),
    ensures
        decode_spec(encode_spec(a, id)) == Err::<(Action, Seq<char>), CodecError>(
            CodecError::DelimiterInId,
        ),
{
    let t = encode_spec(a, id);
    let lab = action_label(a);
    lemma_label_facts();
    assert(t[6] == ':');
    assert(forall|k: int| 0 <= k < 6 ==> t[k] == lab[k] && t[k] != ':');
    lemma_find_from_unique(t, ':', 0, 6);
    let right = t.subrange(7, t.len() as int);
    assert(right =~= id);
}

/// Law: a token encoded from an empty id is rejected by decoding.
pub proof fn lemma_codec_rejects_empty_id(a: Action)
    ensures
        decode_spec(encode_spec(a, Seq::<char>::empty())) == Err::<(Action, Seq<char>), CodecError>(
            CodecError::EmptyField,
        ),
{
    let t = encode_spec(a, Seq::<char>::empty());
    let lab = action_label(a);
    lemma_label_facts();
    assert(t[6] == ':');
    assert(forall|k: int| 0 <= k < 6 ==> t[k] == lab[k] && t[k] != ':');
    lemma_find_from_unique(t, ':', 0, 6);
}

/// The two action labels are six characters long, are free of the delimiter,
/// and differ from each other.
proof fn lemma_label_facts()
    ensures
        action_label(Action::Accept).len() == 6,
        action_label(Action::Ignore).len() == 6,
        forall|k: int| 0 <= k < 6 ==> action_label(Action::Accept)[k] != ':',
        forall|k: int| 0 <= k < 6 ==> action_label(Action::Ignore)[k] != ':',
        action_label(Action::Accept) != action_label(Action::Ignore),
        ":"@.len() == 1 && ":"@[0] == ':',
{
    reveal_strlit("accept");
    reveal_strlit("ignore");
    reveal_strlit(":");
    assert(action_label(Action::Accept)[0] == 'a');
    assert(action_label(Action::Ignore)[0] == 'i');
}

/// Whether two string slices hold the same characters.
pub fn str_eq(a: &str, b: &str) -> (r: bool)
    ensures
        r == (a@ == b@),
{
    let sa = String::from_str(a);
    let sb = String::from_str(b);
    sa == sb
}

/// Index of the first occurrence of `c` in `s` at or after `from`;
/// the character count of `s` if there is none.
pub fn find_char(s: &str, c: char, from: usize) -> (r: usize)
    requires
        from <= s@.len(),
    ensures
        r == find_from(s@, c, from as int),
{
    let n = s.unicode_len();
    let mut i = from;
    loop
        invariant
            from <= i <= n,
            n == s@.len(),
            forall|k: int| from <= k < i ==> s@[k] != c,
        decreases n - i,
    {
        if i == n {
            proof {
                lemma_find_from_unique(s@, c, from as int, i as int);
            }
            return i;
        }
        if s.get_char(i) == c {
            proof {
                lemma_find_from_unique(s@, c, from as int, i as int);
            }
            return i;
        }
        i = i + 1;
    }
}

/// Serializes a decision control: `"<action>:<id>"`.
pub fn encode_token(action: Action, id: &str) -> (r: String)
    ensures
        r@ == encode_spec(action, id@),
{
    let mut s = match action {
        Action::Accept => String::from_str("accept"),
        Action::Ignore => String::from_str("ignore"),
    };
    s.append(":");
    s.append(id);
    proof {
        assert(s@ =~= encode_spec(action, id@));
    }
    s
}

/// Splits a token back into its action and transaction id.
pub fn decode_token(token: &str) -> (r: Result<(Action, String), CodecError>)
    ensures
        r matches Ok(p) ==> decode_spec(token@) matches Ok(q) && p.0 == q.0 && p.1@ == q.1,
        r matches Err(e) ==> decode_spec(token@) matches Err(f) && e == f,
{
    let n = token.unicode_len();
    let i = find_char(token, ':', 0);
    proof {
        lemma_find_from(token@, ':', 0);
    }
    if i == n {
        return Err(CodecError::NoDelimiter);
    }
    if i == 0 || i + 1 == n {
        return Err(CodecError::EmptyField);
    }
    let j = find_char(token, ':', i + 1);
    proof {
        lemma_find_from(token@, ':', (i + 1) as int);
    }
    if j != n {
        proof {
            let right = token@.subrange(i + 1, n as int);
            assert(right[j - i - 1] == ':');
        }
        return Err(CodecError::DelimiterInId);
    }
    let left = token.substring_char(0, i);
    let right = token.substring_char(i + 1, n);
    proof {
        let r = token@.subrange(i + 1, n as int);
        assert(!r.contains(':')) by {
            assert(forall|m: int| 0 <= m < r.len() ==> r[m] == token@[i + 1 + m] && r[m] != ':');
        }
    }
    if str_eq(left, "accept") {
        Ok((Action::Accept, String::from_str(right)))
    } else if str_eq(left, "ignore") {
        Ok((Action::Ignore, String::from_str(right)))
    } else {
        Err(CodecError::UnknownAction)
    }
}

} // verus!
