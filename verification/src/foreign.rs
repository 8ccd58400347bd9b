use chrono::Timelike;
use rand::Rng;
use vstd::prelude::*;

verus! {

/// The compact JSON text of an object with two members: `number_key` with
/// the number `number`, and `text_key` with the string `text`.
pub uninterp spec fn json_pair_text(
    number_key: Seq<char>,
    number: u64,
    text_key: Seq<char>,
    text: Seq<char>,
) -> Seq<char>;

/// Draws an integer with `rand`'s `Rng::gen_range` on the thread's generator,
/// over the closed range from `low` to `high`. The draw lies in the range; the
/// call panics on an empty range, which `requires` leaves out.
#[verifier::external_body]
pub(crate) fn random_between(low: i32, high: i32) -> (drawn: i32)
    requires
        low <= high,
    ensures
        low <= drawn <= high,
{
    rand::thread_rng().gen_range(low..=high)
}

/// Serialises a `serde_json::Value` object of two members through its
/// `Display` impl, which writes compact JSON. The text depends on the four
/// arguments alone; what it is stays unproved here.
#[verifier::external_body]
pub(crate) fn json_pair(number_key: &str, number: u64, text_key: &str, text: &str) -> (out: String)
    ensures
        out@ == json_pair_text(number_key@, number, text_key@, text@),
{
    let mut object = serde_json::Map::new();
    object.insert(number_key.to_string(), serde_json::Value::from(number));
    object.insert(text_key.to_string(), serde_json::Value::from(text));
    serde_json::Value::Object(object).to_string()
}

/// Reads the hour of the local wall clock with `chrono`'s `Local::now` and
/// `Timelike::hour`, which counts from 0 to 23.
#[verifier::external_body]
pub(crate) fn local_hour() -> (hour: u32)
    ensures
        hour < 24,
{
    chrono::Local::now().hour()
}

} // verus!
