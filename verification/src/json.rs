//! Pieces of JSON text: string literals, `null` and lists of literals.
//!
//! Literals are made by `serde_json`; what the gateway adds around them,
//! the punctuation of objects and lists, is written here.

use vstd::prelude::*;

verus! {

/// The error type of `serde_json`. Nothing is known of a value of it.
#[verifier::external_type_specification]
#[verifier::external_body]
pub struct ExJsonError(serde_json::Error);

/// The JSON string literal that `serde_json` writes for the text `s`: the
/// text between double quotes, with quotes, backslashes and control
/// characters escaped.
pub uninterp spec fn json_string(s: Seq<char>) -> Seq<char>;

/// `s` holds no line feed.
pub open spec fn one_line(s: Seq<char>) -> bool {
    forall|i: int| 0 <= i < s.len() ==> s[i] != '\n'
}

/// Every text of `items` holds no line feed.
pub open spec fn all_one_line(items: Seq<Seq<char>>) -> bool {
    forall|i: int| 0 <= i < items.len() ==> one_line(#[trigger] items[i])
}

/// Calls `serde_json::to_string` on a string slice. The contract claims
/// that the call succeeds, since writing a string into memory cannot fail,
/// that its result is the literal named by `json_string`, and that the
/// literal holds no line feed, since a line feed in the text is written as
/// a backslash and the letter `n`.
#[verifier::external_body]
fn to_json_string(s: &str) -> (r: Result<String, serde_json::Error>)
    ensures
        r is Ok,
        r matches Ok(q) ==> q@ == json_string(s@),
        r matches Ok(q) ==> one_line(q@),
{
    serde_json::to_string(s)
}

/// A text could not be written as JSON.
#[derive(Debug, Clone, Copy, PartialEq, Eq)]
pub struct EncodeError {}

/// The texts that the strings of `v` hold.
pub open spec fn texts(v: Seq<String>) -> Seq<Seq<char>> {
    Seq::new(v.len(), |i: int| v[i]@)
}

/// The text of `v`, if it holds one.
pub open spec fn option_text(v: Option<String>) -> Option<Seq<char>> {
    match v {
        Some(s) => Some(s@),
        None => None,
    }
}

/// The texts of `v`, if it holds a list.
pub open spec fn option_texts(v: Option<Vec<String>>) -> Option<Seq<Seq<char>>> {
    match v {
        Some(l) => Some(texts(l@)),
        None => None,
    }
}

/// The literal of `v`, if it holds a text.
pub open spec fn quoted_option(v: Option<Seq<char>>) -> Option<Seq<char>> {
    match v {
        Some(s) => Some(json_string(s)),
        None => None,
    }
}

/// The literals of the texts of `items`.
pub open spec fn quoted_all(items: Seq<Seq<char>>) -> Seq<Seq<char>> {
    Seq::new(items.len(), |i: int| json_string(items[i]))
}

/// The literals of the texts of `v`, if it holds a list.
pub open spec fn quoted_option_all(v: Option<Seq<Seq<char>>>) -> Option<Seq<Seq<char>>> {
    match v {
        Some(l) => Some(quoted_all(l)),
        None => None,
    }
}

/// The JSON string literal of `s`.
pub fn quote(s: &str) -> (r: Result<String, EncodeError>)
    ensures
        r matches Ok(q) && q@ == json_string(s@) && one_line(q@),
{
    match to_json_string(s) {
        Ok(q) => Ok(q),
        Err(_) => Err(EncodeError {  }),
    }
}

/// The JSON string literal of the text of `v`, if it holds one.
pub fn quote_option(v: &Option<String>) -> (r: Result<Option<String>, EncodeError>)
    ensures
        r matches Ok(q) && option_text(q) == quoted_option(option_text(*v)) && (q matches Some(t)
            ==> one_line(t@)),
{
    match v {
        Some(s) => {
            let q = quote(s.as_str())?;
            Ok(Some(q))
        },
        None => Ok(None),
    }
}

/// The JSON string literals of the texts of `v`, in order.
pub fn quote_all(v: &Vec<String>) -> (r: Result<Vec<String>, EncodeError>)
    ensures
        r matches Ok(q) && texts(q@) == quoted_all(texts(v@)) && all_one_line(texts(q@)),
{
    let mut out: Vec<String> = Vec::new();
    let mut i: usize = 0;
    while i < v.len()
        invariant
            i <= v.len(),
            out.len() == i,
            forall|j: int| 0 <= j < i ==> (#[trigger] out@[j])@ == json_string(v@[j]@),
            forall|j: int| 0 <= j < i ==> one_line((#[trigger] out@[j])@),
        decreases v.len() - i,
    {
        let q = quote(v[i].as_str())?;
        out.push(q);
        i = i + 1;
    }
    assert(texts(out@) =~= quoted_all(texts(v@)));
    Ok(out)
}

/// A literal, or `null` where there is none.
pub open spec fn framed_option(v: Option<Seq<char>>) -> Seq<char> {
    match v {
        Some(q) => q,
        None => "null"@,
    }
}

/// The first `n` of `items` with a comma between each two.
pub open spec fn joined(items: Seq<Seq<char>>, n: nat) -> Seq<char>
    decreases n,
{
    if n == 0 {
        Seq::empty()
    } else if n == 1 {
        items[0]
    } else {
        joined(items, (n - 1) as nat) + ","@ + items[n - 1]
    }
}

/// A list: the items between square brackets, with a comma between each
/// two.
pub open spec fn framed_list(items: Seq<Seq<char>>) -> Seq<char> {
    "["@ + joined(items, items.len()) + "]"@
}

/// A list, or `null` where there is none.
pub open spec fn framed_option_list(v: Option<Seq<Seq<char>>>) -> Seq<char> {
    match v {
        Some(l) => framed_list(l),
        None => "null"@,
    }
}

/// Appends the literal that `v` holds, or `null`.
pub fn push_option(out: &mut String, v: &Option<String>)
    ensures
        final(out)@ == old(out)@ + framed_option(option_text(*v)),
{
    match v {
        Some(q) => out.append(q.as_str()),
        None => out.append("null"),
    }
}

/// Appends `items` as a list.
pub fn push_list(out: &mut String, items: &Vec<String>)
    ensures
        final(out)@ == old(out)@ + framed_list(texts(items@)),
{
    out.append("[");
    let ghost t = texts(items@);
    let mut i: usize = 0;
    while i < items.len()
        invariant
            i <= items.len(),
            t == texts(items@),
            out@ == old(out)@ + "["@ + joined(t, i as nat),
        decreases items.len() - i,
    {
        if i > 0 {
            out.append(",");
        }
        out.append(items[i].as_str());
        assert(t[i as int] == items@[i as int]@);
        assert(out@ =~= old(out)@ + "["@ + joined(t, (i + 1) as nat));
        i = i + 1;
    }
    out.append("]");
    assert(out@ =~= old(out)@ + ("["@ + joined(t, t.len()) + "]"@));
}

/// Appends the list that `v` holds, or `null`.
pub fn push_option_list(out: &mut String, v: &Option<Vec<String>>)
    ensures
        final(out)@ == old(out)@ + framed_option_list(option_texts(*v)),
{
    match v {
        Some(l) => push_list(out, l),
        None => out.append("null"),
    }
}

/// The members that are read from a JSON document: two texts, a number
/// and a list of texts. A member is missing where the document has nothing
/// at its place or something of another type.
#[derive(Debug, Clone, PartialEq, Eq)]
pub struct Members {
    pub version: Option<String>,
    pub id: Option<String>,
    pub timestamp: Option<u64>,
    pub kinds: Option<Vec<Option<String>>>,
}

/// The members that are read from a JSON document, as texts and numbers.
pub struct MembersView {
    pub version: Option<Seq<char>>,
    pub id: Option<Seq<char>>,
    pub timestamp: Option<u64>,
    pub kinds: Option<Seq<Option<Seq<char>>>>,
}

impl View for Members {
    type V = MembersView;

    open spec fn view(&self) -> MembersView {
        MembersView {
            version: option_text(self.version),
            id: option_text(self.id),
            timestamp: self.timestamp,
            kinds: match self.kinds {
                Some(l) => Some(Seq::new(l@.len(), |i: int| option_text(l@[i]))),
                None => None,
            },
        }
    }
}

/// What `serde_json` finds in the document `text` at five places, each
/// given as a JSON pointer: the string at `version_at`, the string at
/// `id_at`, the unsigned number at `timestamp_at`, and, for each item of
/// the list at `list_at`, the string at `kind_at` within the item. Nothing
/// where `text` is no JSON document.
pub uninterp spec fn json_members(
    text: Seq<char>,
    version_at: Seq<char>,
    id_at: Seq<char>,
    timestamp_at: Seq<char>,
    list_at: Seq<char>,
    kind_at: Seq<char>,
) -> Option<MembersView>;

/// Parses `text` with `serde_json::from_str` and looks the five places up
/// with `Value::pointer`, reading strings with `as_str`, the number with
/// `as_u64` and the list with `as_array`. The result is named by
/// `json_members`.
#[verifier::external_body]
fn read_members(
    text: &str,
    version_at: &str,
    id_at: &str,
    timestamp_at: &str,
    list_at: &str,
    kind_at: &str,
) -> (r: Option<Members>)
    ensures
        r matches Some(m) ==> json_members(
            text@,
            version_at@,
            id_at@,
            timestamp_at@,
            list_at@,
            kind_at@,
        ) == Some(m@),
        r is None ==> json_members(text@, version_at@, id_at@, timestamp_at@, list_at@, kind_at@)
            is None,
{
    let doc = serde_json::from_str::<serde_json::Value>(text).ok()?;
    let string = |v: &serde_json::Value, at: &str| Some(v.pointer(at)?.as_str()?.to_string());
    Some(Members {
        version: string(&doc, version_at),
        id: string(&doc, id_at),
        timestamp: doc.pointer(timestamp_at).and_then(|v| v.as_u64()),
        kinds: doc.pointer(list_at).and_then(|v| v.as_array()).map(
            |l| l.iter().map(|v| string(v, kind_at)).collect(),
        ),
    })
}

/// The members of the JSON document `text` at the five places given.
pub fn members(
    text: &str,
    version_at: &str,
    id_at: &str,
    timestamp_at: &str,
    list_at: &str,
    kind_at: &str,
) -> (r: Option<Members>)
    ensures
        match r {
            Some(m) => json_members(text@, version_at@, id_at@, timestamp_at@, list_at@, kind_at@)
                == Some(m@),
            None => json_members(text@, version_at@, id_at@, timestamp_at@, list_at@, kind_at@)
                is None,
        },
{
    read_members(text, version_at, id_at, timestamp_at, list_at, kind_at)
}

} // verus!
