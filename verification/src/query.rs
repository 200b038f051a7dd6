//! Query strings and the resource of a topic's messages.

use vstd::prelude::*;
use vstd::string::StringExecFns;
use crate::model::properties::entries_view;
use crate::model::properties::Pair;

verus! {

/// `serde_urlencoded::ser::Error`, carried as it comes.
#[verifier::external_type_specification]
#[verifier::external_body]
pub struct ExUrlencodedError(serde_urlencoded::ser::Error);

/// The parameters as a query string in the form
/// `application/x-www-form-urlencoded`, in their order; `None` where they
/// cannot be written so.
pub uninterp spec fn form_urlencoded(parameters: Seq<Pair>) -> Option<Seq<char>>;

/// `serde_urlencoded::to_string` on a sequence of pairs of strings: the query
/// string is a function of the pairs alone.
#[verifier::external_body]
fn urlencoded_to_string(parameters: &Vec<(String, String)>) -> (r: Result<
    String,
    serde_urlencoded::ser::Error,
>)
    ensures
        match r {
            Ok(query) => form_urlencoded(entries_view(parameters@)) == Some(query@),
            Err(_) => form_urlencoded(entries_view(parameters@)) is None,
        },
{
    serde_urlencoded::to_string(parameters)
}

/// The resource of the messages of a topic, with a query string. The question
/// mark is there also where the query string is empty.
pub open spec fn messages_resource(topic: Seq<char>, query: Seq<char>) -> Seq<char> {
    "/topics/"@ + topic + "/messages?"@ + query
}

/// The resource of the messages of a topic for these parameters.
pub open spec fn resource_for(topic: Seq<char>, parameters: Seq<Pair>) -> Option<Seq<char>> {
    match form_urlencoded(parameters) {
        Some(query) => Some(messages_resource(topic, query)),
        None => None,
    }
}

/// `parameters` with one more where `value` holds one.
pub open spec fn with_optional(parameters: Seq<Pair>, name: Seq<char>, value: Option<Seq<char>>) -> Seq<
    Pair,
> {
    match value {
        Some(v) => parameters.push((name, v)),
        None => parameters,
    }
}

/// Adds the parameter `name` where `value` holds one.
pub fn push_optional(parameters: &mut Vec<(String, String)>, name: &str, value: Option<&str>)
    ensures
        entries_view(final(parameters)@) == with_optional(
            entries_view(old(parameters)@),
            name@,
            match value {
                Some(v) => Some(v@),
                None => None,
            },
        ),
{
    match value {
        Some(v) => {
            parameters.push((name.to_owned(), v.to_owned()));
        },
        None => {},
    }
}

/// The resource of the messages of `topic` with `parameters` as its query
/// string.
pub fn resource(topic: &str, parameters: &Vec<(String, String)>) -> (r: Option<String>)
    ensures
        match r {
            Some(text) => resource_for(topic@, entries_view(parameters@)) == Some(text@),
            None => resource_for(topic@, entries_view(parameters@)) is None,
        },
{
    match urlencoded_to_string(parameters) {
        Ok(query) => {
            let mut out = String::new();
            out.append("/topics/");
            out.append(topic);
            out.append("/messages?");
            out.append(query.as_str());
            Some(out)
        },
        Err(_) => None,
    }
}

} // verus!
