use vstd::prelude::*;

verus! {

/// The texts that a vector of strings holds.
pub open spec fn texts_of(v: Seq<String>) -> Seq<Seq<char>> {
    v.map_values(|s: String| s@)
}

/// The JSON text that serde_json writes for a list of strings: an array of
/// string literals.
pub uninterp spec fn json_text(items: Seq<Seq<char>>) -> Seq<char>;

#[verifier::external_type_specification]
#[verifier::external_body]
pub struct ExJsonError(serde_json::Error);

/// Relies on `serde_json::to_string` on a `Vec<String>`: strings always
/// serialise (serde_json fails only for a `Serialize` impl that fails or for a
/// map with non-string keys), and the text depends on the strings alone.
#[verifier::external_body]
pub(crate) fn encode_json(items: &Vec<String>) -> (r: Result<String, serde_json::Error>)
    ensures
        r is Ok,
        r is Ok ==> r->Ok_0@ == json_text(texts_of(items@)),
{
    serde_json::to_string(items)
}

/// Relies on `serde_json::from_str` into a `Vec<String>`: the text that
/// `serde_json::to_string` writes for a list of strings reads back as that list.
#[verifier::external_body]
pub(crate) fn decode_json(text: &str) -> (r: Result<Vec<String>, serde_json::Error>)
    ensures
        forall|v: Seq<Seq<char>>| #[trigger] json_text(v) == text@
            ==> (r is Ok && texts_of(r->Ok_0@) == v),
{
    serde_json::from_str(text)
}

} // verus!
