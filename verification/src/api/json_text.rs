//! JSON text of stored training samples, framed around `serde_json`'s string
//! encoding.

use vstd::prelude::*;

verus! {

/// The JSON string literal `serde_json` writes for the text `s`: quotes
/// around `s` with its special characters escaped.
pub uninterp spec fn json_string_text(s: Seq<char>) -> Seq<char>;

/// `serde_json::to_string` of a `str`.
/// Trusted: the text is `json_string_text(s@)`, which begins and ends with a
/// double quote. Serialising a `str` into memory cannot fail; the error path
/// that the signature has is mapped to an empty string and is never taken.
#[verifier::external_body]
fn json_quote(s: &str) -> (r: String)
    ensures
        r@ == json_string_text(s@),
        r@.len() >= 2,
        r@[0] == '"',
        r@.last() == '"',
{
    match serde_json::to_string(s) {
        Ok(t) => t,
        Err(_) => String::new(),
    }
}

/// The stored JSON of an assistant message with text `content`, as the
/// object `{"role": "assistant", "content": content}` is written compactly
/// with its keys in sorted order.
pub open spec fn assistant_message_text(content: Seq<char>) -> Seq<char> {
    "{\"content\":"@ + json_string_text(content) + ",\"role\":\"assistant\"}"@
}

/// JSON of the assistant message that a streamed response amounts to.
pub fn assistant_message_json(content: &str) -> (r: String)
    ensures
        r@ == assistant_message_text(content@),
{
    let mut out = String::from_str("{\"content\":");
    let quoted = json_quote(content);
    out.append(quoted.as_str());
    out.append(",\"role\":\"assistant\"}");
    out
}

} // verus!
