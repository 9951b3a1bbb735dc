use vstd::prelude::*;

use crate::text::same_text;

verus! {

/// The text that `serde_json::to_string` writes for a string that holds `s`: the characters
/// of `s` between double quotes, with the escapes that JSON asks for.
pub uninterp spec fn json_string_text(s: Seq<char>) -> Seq<char>;

/// The compact text that `serde_json::Value` shows for the JSON object built by inserting,
/// in order, each name of `entries` with its text as a JSON string.
pub uninterp spec fn json_object_text(entries: Seq<(Seq<char>, Seq<char>)>) -> Seq<char>;

/// What `serde_json::from_str` reads from `text` where `text` is one JSON object: each
/// member's name, and the member's value where that value is a JSON string. `None` where
/// `text` is no JSON document or holds something other than an object.
pub uninterp spec fn json_object_members(text: Seq<char>) -> Option<
    Seq<(Seq<char>, Option<Seq<char>>)>,
>;

/// The members of a JSON object as the library reads them: name, and value where it is a
/// string.
pub type Members = Vec<(String, Option<String>)>;

/// Calls `serde_json::to_string` on a `str`. The contract names the text that comes back; it
/// depends on the characters of `s` alone. Writing a string into memory cannot fail, so
/// the error that the signature allows for never comes.
#[verifier::external_body]
pub(crate) fn encode_string(s: &str) -> (text: String)
    ensures
        text@ == json_string_text(s@),
{
    serde_json::to_string(s).expect("a string is always written")
}

/// Calls the `Display` impl of `serde_json::Value` (through `to_string`) on the
/// `Value::Object` collected from `entries`, each text as a `Value::String`. The contract
/// names the text that comes back; it depends on the entries and their order alone.
#[verifier::external_body]
pub(crate) fn encode_object(entries: &Vec<(String, String)>) -> (text: String)
    ensures
        text@ == json_object_text(entries.deep_view()),
{
    let members = entries.iter().map(
        |(name, text)| (name.clone(), serde_json::Value::String(text.clone())),
    );
    serde_json::Value::Object(members.collect()).to_string()
}

/// Calls `serde_json::from_str` for a `serde_json::Value` and, where it is an object
/// (`Value::as_object`), hands out each member's name with `Value::as_str` of its value.
/// A parse error and a value that is no object both give `None`. The contract names what
/// comes back; it depends on the characters of `text` alone.
#[verifier::external_body]
pub(crate) fn parse_object(text: &str) -> (members: Option<Members>)
    ensures
        members.deep_view() == json_object_members(text@),
{
    let value: serde_json::Value = serde_json::from_str(text).ok()?;
    let object = value.as_object()?;
    let members = object.iter().map(
        |(name, member)| (name.clone(), member.as_str().map(str::to_owned)),
    );
    Some(members.collect())
}

/// The string value of the first member called `name`; `None` where no member has that
/// name or the first that has it holds no string.
pub open spec fn member_text(
    members: Seq<(Seq<char>, Option<Seq<char>>)>,
    name: Seq<char>,
) -> Option<Seq<char>>
    decreases members.len(),
{
    if members.len() == 0 {
        None
    } else if members[0].0 == name {
        members[0].1
    } else {
        member_text(members.drop_first(), name)
    }
}

/// Looks up the string value of the member called `name`.
pub fn find_text(members: &Members, name: &str) -> (text: Option<String>)
    ensures
        text.deep_view() == member_text(members.deep_view(), name@),
{
    let mut i: usize = 0;
    assert(members.deep_view().skip(0) =~= members.deep_view());
    while i < members.len()
        invariant
            i <= members.len(),
            members.deep_view().len() == members.len(),
            member_text(members.deep_view(), name@) == member_text(
                members.deep_view().skip(i as int),
                name@,
            ),
        decreases members.len() - i,
    {
        let ghost rest = members.deep_view().skip(i as int);
        assert(rest.drop_first() =~= members.deep_view().skip(i + 1));
        if same_text(members[i].0.as_str(), name) {
            return members[i].1.clone();
        }
        i = i + 1;
    }
    None
}

} // verus!
