//! The few JSON fields the digests read, through `serde_json`.
use vstd::prelude::*;

verus! {

/// What `serde_json` yields for the text as a JSON value: the string stored
/// under the top-level key `key`, when the text parses, is an object and that
/// member is a string; `None` otherwise.
pub uninterp spec fn json_member_str(text: Seq<char>, key: Seq<char>) -> Option<Seq<char>>;

/// Parses `text` with `serde_json::from_str::<serde_json::Value>` and reads
/// `value.get(key).and_then(Value::as_str)`. The contract claims only that the
/// result is the named `json_member_str` of the text and the key.
#[verifier::external_body]
pub(crate) fn json_str_member(text: &str, key: &str) -> (r: Option<String>)
    ensures
        match r {
            Some(s) => json_member_str(text@, key@) == Some(s@),
            None => json_member_str(text@, key@) is None,
        },
{
    let value = serde_json::from_str::<serde_json::Value>(text).ok()?;
    value.get(key).and_then(serde_json::Value::as_str).map(str::to_string)
}

/// The fields of one line of `rg --json` output that the digest reads.
pub struct RgJsonLine {
    /// `type`, when it is a string.
    pub event_type: Option<String>,
    /// `data.path.text`, when it is a string.
    pub path_text: Option<String>,
    /// `data.line_number`, when it is an unsigned integer.
    pub line_number: Option<u64>,
    /// The length of `data.submatches`, when it is an array.
    pub submatches: Option<usize>,
}

/// The plain view of [`RgJsonLine`].
pub struct RgJsonLineView {
    pub event_type: Option<Seq<char>>,
    pub path_text: Option<Seq<char>>,
    pub line_number: Option<u64>,
    pub submatches: Option<usize>,
}

pub open spec fn opt_view(o: Option<String>) -> Option<Seq<char>> {
    match o {
        Some(s) => Some(s@),
        None => None,
    }
}

impl View for RgJsonLine {
    type V = RgJsonLineView;

    open spec fn view(&self) -> RgJsonLineView {
        RgJsonLineView {
            event_type: opt_view(self.event_type),
            path_text: opt_view(self.path_text),
            line_number: self.line_number,
            submatches: self.submatches,
        }
    }
}

/// What `serde_json` yields for one line of `rg --json` output: `None` when
/// the line does not parse as JSON, else the fields read from the value.
pub uninterp spec fn rg_json_fields(line: Seq<char>) -> Option<RgJsonLineView>;

/// Parses one line with `serde_json::from_str::<serde_json::Value>` and reads
/// `type`, `data.path.text`, `data.line_number` and the length of
/// `data.submatches`. The contract claims only that the result is the named
/// `rg_json_fields` of the line.
#[verifier::external_body]
pub(crate) fn parse_rg_json_line(line: &str) -> (r: Option<RgJsonLine>)
    ensures
        match r {
            Some(v) => rg_json_fields(line@) == Some(v@),
            None => rg_json_fields(line@) is None,
        },
{
    let value = serde_json::from_str::<serde_json::Value>(line).ok()?;
    Some(RgJsonLine {
        event_type: value.get("type").and_then(serde_json::Value::as_str).map(str::to_string),
        path_text: value.pointer("/data/path/text").and_then(serde_json::Value::as_str).map(
            str::to_string,
        ),
        line_number: value.pointer("/data/line_number").and_then(serde_json::Value::as_u64),
        submatches: value.pointer("/data/submatches").and_then(serde_json::Value::as_array).map(
            Vec::len,
        ),
    })
}

} // verus!
