//! The header map of a request, and what this crate states of it.
//!
//! The map itself is `reqwest::header::HeaderMap`. Its contents are known to
//! the proofs as a sequence of pairs of texts; the functions at the bottom
//! of this file are the only ones that touch the map.

use vstd::prelude::*;
use reqwest::header::HeaderMap;
use reqwest::header::HeaderName;
use reqwest::header::HeaderValue;

verus! {

/// `HeaderMap` of the http crate, as reqwest hands it on. Nothing of its inside
/// is known here; `header_map_pairs` names what it holds.
#[verifier::external_type_specification]
#[verifier::external_body]
#[verifier::reject_recursive_types(T)]
pub struct ExHeaderMap<T>(HeaderMap<T>);

/// `HeaderValue` of the http crate, the kind of value that the map holds.
#[verifier::external_type_specification]
#[verifier::external_body]
pub struct ExHeaderValue(HeaderValue);

/// A header as the proofs see it: its name and the text of its value.
pub type HeaderPair = (Seq<char>, Seq<char>);

/// The headers that a map holds, in the order in which the map hands them
/// out: each name, and the value as text. A value that is not made of visible
/// ASCII alone has no text, and stands here with the empty one.
pub uninterp spec fn header_map_pairs(map: HeaderMap) -> Seq<HeaderPair>;

/// A character of the names that this crate gives its headers: a lower-case
/// letter, a digit or a hyphen.
pub open spec fn plain_name_char(c: char) -> bool {
    let n = c as int;
    ||| 97 <= n <= 122
    ||| 48 <= n <= 57
    ||| n == 45
}

/// A name of one to sixty-four plain characters.
pub open spec fn is_plain_name(name: Seq<char>) -> bool {
    &&& 1 <= name.len() <= 64
    &&& forall|i: int| 0 <= i < name.len() ==> plain_name_char(#[trigger] name[i])
}

/// A character that a header value may hold: a tab, or anything from the
/// space on but for the delete character.
pub open spec fn value_char(c: char) -> bool {
    let n = c as int;
    n == 9 || (32 <= n && n != 127)
}

/// A tab or a visible ASCII character.
pub open spec fn visible_char(c: char) -> bool {
    let n = c as int;
    n == 9 || 32 <= n < 127
}

/// Whether a text can be the value of a header.
pub open spec fn is_header_value(value: Seq<char>) -> bool {
    forall|i: int| 0 <= i < value.len() ==> value_char(#[trigger] value[i])
}

/// Whether a text is made of tabs and visible ASCII alone.
pub open spec fn is_visible(value: Seq<char>) -> bool {
    forall|i: int| 0 <= i < value.len() ==> visible_char(#[trigger] value[i])
}

/// The text under which a value is read back from a map.
pub open spec fn value_text(value: Seq<char>) -> Seq<char> {
    if is_visible(value) {
        value
    } else {
        Seq::empty()
    }
}

/// Whether some header has this name.
pub open spec fn has_header(pairs: Seq<HeaderPair>, name: Seq<char>) -> bool {
    exists|i: int| 0 <= i < pairs.len() && (#[trigger] pairs[i]).0 == name
}

/// The text of the first header of this name.
pub open spec fn first_header(pairs: Seq<HeaderPair>, name: Seq<char>) -> Option<Seq<char>>
    decreases pairs.len(),
{
    if pairs.len() == 0 {
        None
    } else if pairs[0].0 == name {
        Some(pairs[0].1)
    } else {
        first_header(pairs.drop_first(), name)
    }
}

/// The first header of a name is the one before which no header has that
/// name.
pub proof fn lemma_first_header_at(pairs: Seq<HeaderPair>, name: Seq<char>, i: int)
    requires
        0 <= i < pairs.len(),
        pairs[i].0 == name,
        forall|k: int| 0 <= k < i ==> (#[trigger] pairs[k]).0 != name,
    ensures
        first_header(pairs, name) == Some(pairs[i].1),
    decreases i,
{
    if i > 0 {
        lemma_first_header_at(pairs.drop_first(), name, i - 1);
    }
}

/// There is no first header of a name that no header has.
pub proof fn lemma_first_header_none(pairs: Seq<HeaderPair>, name: Seq<char>)
    requires
        !has_header(pairs, name),
    ensures
        first_header(pairs, name) is None,
    decreases pairs.len(),
{
    if pairs.len() > 0 {
        lemma_first_header_none(pairs.drop_first(), name);
    }
}

/// The pairs that a vector of owned pairs stands for.
pub open spec fn pairs_view(v: Seq<(String, String)>) -> Seq<HeaderPair> {
    Seq::new(v.len(), |i: int| (v[i].0@, v[i].1@))
}

/// `HeaderMap::new`: the map holds nothing.
#[verifier::external_body]
pub(crate) fn header_map_new() -> (map: HeaderMap)
    ensures
        header_map_pairs(map) == Seq::<HeaderPair>::empty(),
{
    HeaderMap::new()
}

/// `HeaderMap::insert` with a name from `HeaderName::from_bytes` and a value
/// from `HeaderValue::from_str`. A plain name is accepted as it stands, and a
/// text of value characters is accepted as a value; a name that the map does
/// not hold yet goes behind the others. The map refuses to grow beyond some
/// thirty thousand names; the bound keeps far from that.
#[verifier::external_body]
pub(crate) fn header_map_insert(map: &mut HeaderMap, name: &str, value: &str)
    requires
        is_plain_name(name@),
        is_header_value(value@),
        !has_header(header_map_pairs(*old(map)), name@),
        header_map_pairs(*old(map)).len() < 1024,
    ensures
        header_map_pairs(*final(map)) == header_map_pairs(*old(map)).push(
            (name@, value_text(value@)),
        ),
{
    let name = HeaderName::from_bytes(name.as_bytes()).unwrap();
    let value = HeaderValue::from_str(value).unwrap();
    map.insert(name, value);
}

/// `HeaderMap::get` by a plain name, and `HeaderValue::to_str` on what it
/// finds: the first value of that name, as text.
#[verifier::external_body]
pub(crate) fn header_map_get(map: &HeaderMap, name: &str) -> (r: Option<String>)
    requires
        is_plain_name(name@),
    ensures
        match r {
            Some(text) => first_header(header_map_pairs(*map), name@) == Some(text@),
            None => first_header(header_map_pairs(*map), name@) is None,
        },
{
    match map.get(name) {
        Some(value) => Some(value.to_str().unwrap_or("").to_string()),
        None => None,
    }
}

/// `HeaderMap::iter`, each item as a pair of owned texts: `HeaderName::as_str`
/// for the name and `HeaderValue::to_str` for the value.
#[verifier::external_body]
pub(crate) fn header_map_iter(map: &HeaderMap) -> (r: Vec<(String, String)>)
    ensures
        pairs_view(r@) == header_map_pairs(*map),
{
    map.iter().map(|(k, v)| (k.as_str().to_string(), v.to_str().unwrap_or("").to_string())).collect()
}

/// Whether a text can be the value of a header.
pub fn is_value(value: &str) -> (r: bool)
    ensures
        r == is_header_value(value@),
{
    let mut ok = true;
    for c in it: value.chars()
        invariant
            it.seq() == value@,
            ok == is_header_value(value@.take(it.index())),
    {
        if !(c == '\t' || (' ' <= c && c != '\x7f')) {
            ok = false;
            assert(!value_char(value@.take(it.index() + 1)[it.index()]));
        }
    }
    assert(value@.take(value@.len() as int) == value@);
    ok
}

} // verus!
