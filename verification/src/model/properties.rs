//! Message properties and their wire form, `k1:v1|k2:v2|...`.
//!
//! Neither keys nor values are escaped: a colon or a bar inside one of them
//! is read back as a delimiter.

use vstd::prelude::*;
use vstd::string::StringExecFns;
use crate::text::from_chars;
use crate::text::to_chars;

verus! {

/// A key and its value, as texts.
pub type Pair = (Seq<char>, Seq<char>);

/// The two characters that delimit keys and values on the wire.
pub open spec fn is_delimiter(c: char) -> bool {
    c == ':' || c == '|'
}

/// Whether a text holds no delimiter.
pub open spec fn is_plain(text: Seq<char>) -> bool {
    forall|i: int| 0 <= i < text.len() ==> !is_delimiter(#[trigger] text[i])
}

/// The mapping that a sequence of pairs stands for: a later pair replaces an
/// earlier one with the same key.
pub open spec fn properties_map(pairs: Seq<Pair>) -> Map<Seq<char>, Seq<char>>
    decreases pairs.len(),
{
    if pairs.len() == 0 {
        Map::empty()
    } else {
        properties_map(pairs.drop_last()).insert(pairs.last().0, pairs.last().1)
    }
}

/// The wire form of the pairs from index `from` on: `key:value` for each,
/// with a bar between two of them.
pub open spec fn properties_text_from(pairs: Seq<Pair>, from: int) -> Seq<char>
    decreases pairs.len() - from,
{
    if from < 0 || from >= pairs.len() {
        Seq::empty()
    } else if from + 1 == pairs.len() {
        pairs[from].0 + seq![':'] + pairs[from].1
    } else {
        pairs[from].0 + seq![':'] + pairs[from].1 + seq!['|'] + properties_text_from(
            pairs,
            from + 1,
        )
    }
}

/// The wire form of a sequence of pairs.
pub open spec fn properties_text(pairs: Seq<Pair>) -> Seq<char> {
    properties_text_from(pairs, 0)
}

/// Where the run of characters other than delimiters that begins at `i`
/// ends: the index of the next delimiter, or the length of the text.
pub open spec fn run_end(text: Seq<char>, i: int) -> int
    decreases text.len() - i,
{
    if i < 0 || i >= text.len() || is_delimiter(text[i]) {
        i
    } else {
        run_end(text, i + 1)
    }
}

/// The pairs that are read from a text, from index `i` on. A pair is a run of
/// one or more characters other than delimiters, a colon, and the run that
/// follows the colon, which may be empty. What lies between two pairs is
/// passed over.
pub open spec fn pairs_from(text: Seq<char>, i: int) -> Seq<Pair>
    decreases text.len() - i,
{
    if i < 0 || i >= text.len() {
        Seq::empty()
    } else {
        let e = run_end(text, i);
        if i < e < text.len() && text[e] == ':' {
            let v = run_end(text, e + 1);
            if i < v <= text.len() {
                seq![(text.subrange(i, e), text.subrange(e + 1, v))] + pairs_from(text, v)
            } else {
                Seq::empty()
            }
        } else if i < e <= text.len() {
            pairs_from(text, e)
        } else {
            pairs_from(text, i + 1)
        }
    }
}

/// The pairs that are read from a text.
pub open spec fn parsed_pairs(text: Seq<char>) -> Seq<Pair> {
    pairs_from(text, 0)
}

/// The run that begins at `i` ends at or behind `i`, within the text.
pub proof fn lemma_run_end_bounds(text: Seq<char>, i: int)
    requires
        0 <= i <= text.len(),
    ensures
        i <= run_end(text, i) <= text.len(),
        run_end(text, i) < text.len() ==> is_delimiter(text[run_end(text, i)]),
        forall|k: int| i <= k < run_end(text, i) ==> !is_delimiter(#[trigger] text[k]),
    decreases text.len() - i,
{
    if i < text.len() && !is_delimiter(text[i]) {
        lemma_run_end_bounds(text, i + 1);
    }
}

/// A stretch without delimiters that is followed by a delimiter, or by the
/// end of the text, is a run.
pub proof fn lemma_run_end_is(text: Seq<char>, i: int, e: int)
    requires
        0 <= i <= e <= text.len(),
        forall|k: int| i <= k < e ==> !is_delimiter(#[trigger] text[k]),
        e == text.len() || is_delimiter(text[e]),
    ensures
        run_end(text, i) == e,
    decreases e - i,
{
    if i < e {
        lemma_run_end_is(text, i + 1, e);
    }
}

proof fn lemma_run_end_shift(prefix: Seq<char>, text: Seq<char>, i: int)
    requires
        0 <= i <= text.len(),
    ensures
        run_end(prefix + text, prefix.len() + i) == prefix.len() + run_end(text, i),
    decreases text.len() - i,
{
    if i < text.len() && !is_delimiter(text[i]) {
        lemma_run_end_shift(prefix, text, i + 1);
    }
}

proof fn lemma_pairs_from_shift(prefix: Seq<char>, text: Seq<char>, i: int)
    requires
        0 <= i <= text.len(),
    ensures
        pairs_from(prefix + text, prefix.len() + i) == pairs_from(text, i),
    decreases text.len() - i,
{
    let whole = prefix + text;
    let n = prefix.len() as int;
    if i < text.len() {
        let e = run_end(text, i);
        lemma_run_end_bounds(text, i);
        lemma_run_end_shift(prefix, text, i);
        if i < e < text.len() && text[e] == ':' {
            let v = run_end(text, e + 1);
            lemma_run_end_bounds(text, e + 1);
            lemma_run_end_shift(prefix, text, e + 1);
            assert(whole.subrange(n + i, n + e) =~= text.subrange(i, e));
            assert(whole.subrange(n + e + 1, n + v) =~= text.subrange(e + 1, v));
            lemma_pairs_from_shift(prefix, text, v);
        } else if e > i {
            lemma_pairs_from_shift(prefix, text, e);
        } else {
            lemma_pairs_from_shift(prefix, text, i + 1);
        }
    }
}

/// Whether every key is plain and not empty, and every value plain.
pub open spec fn all_plain(pairs: Seq<Pair>) -> bool {
    forall|i: int|
        0 <= i < pairs.len() ==> (#[trigger] pairs[i]).0.len() > 0 && is_plain(pairs[i].0)
            && is_plain(pairs[i].1)
}

proof fn lemma_round_trip_from(pairs: Seq<Pair>, from: int)
    requires
        0 <= from <= pairs.len(),
        all_plain(pairs),
    ensures
        parsed_pairs(properties_text_from(pairs, from)) == pairs.skip(from),
    decreases pairs.len() - from,
{
    let text = properties_text_from(pairs, from);
    if from < pairs.len() {
        let k = pairs[from].0;
        let v = pairs[from].1;
        let nk = k.len() as int;
        let nv = v.len() as int;
        let head = k + seq![':'] + v;
        let last = from + 1 == pairs.len();
        let rest = properties_text_from(pairs, from + 1);
        assert(text == if last {
            head
        } else {
            head + seq!['|'] + rest
        });
        lemma_run_end_is(text, 0, nk);
        lemma_run_end_is(text, nk + 1, nk + 1 + nv);
        assert(text.subrange(0, nk) =~= k);
        assert(text.subrange(nk + 1, nk + 1 + nv) =~= v);
        let q = nk + 1 + nv;
        assert(pairs_from(text, 0) == seq![(k, v)] + pairs_from(text, q));
        if !last {
            lemma_run_end_is(text, q, q);
            let prefix = head + seq!['|'];
            lemma_pairs_from_shift(prefix, rest, 0);
            lemma_round_trip_from(pairs, from + 1);
        }
    }
}

/// Writing pairs and reading the text back gives the same pairs, and so the
/// same mapping, where no key is empty and neither keys nor values hold a
/// colon or a bar.
pub proof fn lemma_properties_round_trip(pairs: Seq<Pair>)
    requires
        all_plain(pairs),
    ensures
        parsed_pairs(properties_text(pairs)) == pairs,
        properties_map(parsed_pairs(properties_text(pairs))) == properties_map(pairs),
{
    lemma_round_trip_from(pairs, 0);
}

/// The pairs that a vector of owned pairs stands for.
pub open spec fn entries_view(entries: Seq<(String, String)>) -> Seq<Pair> {
    Seq::new(entries.len(), |i: int| (entries[i].0@, entries[i].1@))
}

/// Whether no key stands twice.
pub open spec fn distinct_keys(pairs: Seq<Pair>) -> bool {
    forall|i: int, j: int| 0 <= i < j < pairs.len() ==> pairs[i].0 != pairs[j].0
}

proof fn lemma_map_keys(pairs: Seq<Pair>)
    ensures
        forall|key: Seq<char>| #[trigger]
            properties_map(pairs).contains_key(key) <==> exists|i: int|
                0 <= i < pairs.len() && (#[trigger] pairs[i]).0 == key,
        distinct_keys(pairs) ==> forall|i: int|
            0 <= i < pairs.len() ==> properties_map(pairs)[(#[trigger] pairs[i]).0] == pairs[i].1,
    decreases pairs.len(),
{
    if pairs.len() > 0 {
        let init = pairs.drop_last();
        let last = pairs.last();
        lemma_map_keys(init);
        assert forall|key: Seq<char>| #[trigger]
            properties_map(pairs).contains_key(key) implies exists|i: int|
            0 <= i < pairs.len() && (#[trigger] pairs[i]).0 == key by {
            if key != last.0 {
                assert(properties_map(init).contains_key(key));
            }
        }
        assert forall|key: Seq<char>|
            (exists|i: int|
                0 <= i < pairs.len() && (#[trigger] pairs[i]).0 == key) implies #[trigger]
            properties_map(pairs).contains_key(key) by {
            let i = choose|i: int| 0 <= i < pairs.len() && (#[trigger] pairs[i]).0 == key;
            if i < init.len() {
                assert(init[i].0 == key);
                assert(properties_map(init).contains_key(key));
            }
        }
        if distinct_keys(pairs) {
            assert(distinct_keys(init));
            assert forall|i: int| 0 <= i < pairs.len() implies properties_map(pairs)[(
            #[trigger] pairs[i]).0] == pairs[i].1 by {
                if i < init.len() {
                    assert(init[i] == pairs[i]);
                }
            }
        }
    }
}

/// As many keys as pairs, where no key stands twice.
proof fn lemma_map_len(pairs: Seq<Pair>)
    requires
        distinct_keys(pairs),
    ensures
        properties_map(pairs).dom().finite(),
        properties_map(pairs).len() == pairs.len(),
    decreases pairs.len(),
{
    if pairs.len() > 0 {
        let init = pairs.drop_last();
        assert(distinct_keys(init));
        lemma_map_len(init);
        lemma_map_keys(init);
        assert(!properties_map(init).contains_key(pairs.last().0));
    }
}

/// Properties of a message: a mapping from keys to values. No key stands
/// twice. The order of the entries carries no meaning; it is the order in
/// which they are written.
#[derive(Debug)]
pub struct Properties {
    entries: Vec<(String, String)>,
}

impl Clone for Properties {
    /// The same entries in the same order.
    fn clone(&self) -> (r: Self)
        ensures
            r.pairs() == self.pairs(),
    {
        proof {
            use_type_invariant(self);
        }
        let mut entries: Vec<(String, String)> = Vec::new();
        let mut i: usize = 0;
        while i < self.entries.len()
            invariant
                i <= self.entries.len(),
                entries_view(entries@) == entries_view(self.entries@).take(i as int),
            decreases self.entries.len() - i,
        {
            let ghost before = entries_view(entries@);
            let key = self.entries[i].0.clone();
            let value = self.entries[i].1.clone();
            entries.push((key, value));
            assert(entries_view(entries@) =~= before.push(entries_view(self.entries@)[i as int]));
            i = i + 1;
        }
        Properties { entries }
    }
}

impl View for Properties {
    type V = Map<Seq<char>, Seq<char>>;

    open spec fn view(&self) -> Map<Seq<char>, Seq<char>> {
        properties_map(self.pairs())
    }
}

fn position(entries: &Vec<(String, String)>, key: &String) -> (r: Option<usize>)
    ensures
        match r {
            Some(i) => i < entries.len() && entries@[i as int].0@ == key@,
            None => forall|k: int| 0 <= k < entries.len() ==> (#[trigger] entries@[k]).0@ != key@,
        },
{
    let mut i: usize = 0;
    while i < entries.len()
        invariant
            i <= entries.len(),
            forall|k: int| 0 <= k < i ==> (#[trigger] entries@[k]).0@ != key@,
        decreases entries.len() - i,
    {
        if entries[i].0 == *key {
            return Some(i);
        }
        i = i + 1;
    }
    None
}

proof fn lemma_update_map(before: Seq<Pair>, i: int, key: Seq<char>, value: Seq<char>)
    requires
        distinct_keys(before),
        0 <= i < before.len(),
        before[i].0 == key,
    ensures
        distinct_keys(before.update(i, (key, value))),
        properties_map(before.update(i, (key, value))) == properties_map(before).insert(key, value),
        properties_map(before).contains_key(key),
{
    let after = before.update(i, (key, value));
    lemma_map_keys(before);
    lemma_map_keys(after);
    let wanted = properties_map(before).insert(key, value);
    assert forall|k: Seq<char>| properties_map(after).contains_key(k) <==> wanted.contains_key(
        k,
    ) by {
        if properties_map(before).contains_key(k) {
            let j = choose|j: int| 0 <= j < before.len() && (#[trigger] before[j]).0 == k;
            assert(after[j].0 == k);
        }
    }
}

impl Properties {
    #[verifier::type_invariant]
    spec fn distinct(self) -> bool {
        distinct_keys(entries_view(self.entries@))
    }

    /// The entries, in the order in which they are written.
    pub closed spec fn pairs(&self) -> Seq<Pair> {
        entries_view(self.entries@)
    }

    /// The empty mapping.
    pub fn new() -> (r: Self)
        ensures
            r.pairs() == Seq::<Pair>::empty(),
            r@ == Map::<Seq<char>, Seq<char>>::empty(),
    {
        Properties { entries: Vec::new() }
    }

    /// The number of entries.
    pub fn len(&self) -> (r: usize)
        ensures
            r == self.pairs().len(),
            r == self@.len(),
    {
        proof {
            use_type_invariant(self);
            lemma_map_len(self.pairs());
        }
        self.entries.len()
    }

    /// Whether there is no entry.
    pub fn is_empty(&self) -> (r: bool)
        ensures
            r == (self.pairs().len() == 0),
            r == (self@ == Map::<Seq<char>, Seq<char>>::empty()),
    {
        proof {
            use_type_invariant(self);
            lemma_map_len(self.pairs());
        }
        self.entries.len() == 0
    }

    /// The key and the value of the entry at `index`.
    pub fn entry(&self, index: usize) -> (r: (&str, &str))
        requires
            index < self.pairs().len(),
        ensures
            (r.0@, r.1@) == self.pairs()[index as int],
    {
        (self.entries[index].0.as_str(), self.entries[index].1.as_str())
    }

    /// The value under `key`.
    pub fn get(&self, key: &str) -> (r: Option<&str>)
        ensures
            match r {
                Some(value) => self@.contains_key(key@) && self@[key@] == value@,
                None => !self@.contains_key(key@),
            },
    {
        let owned = key.to_owned();
        proof {
            use_type_invariant(self);
            lemma_map_keys(self.pairs());
        }
        match position(&self.entries, &owned) {
            Some(i) => {
                assert(self.pairs()[i as int].0 == key@);
                Some(self.entries[i].1.as_str())
            },
            None => None,
        }
    }

    /// Puts `value` under `key`. A key that is there keeps its place and gets
    /// the new value; a new key goes to the end.
    pub fn insert(&mut self, key: String, value: String)
        ensures
            final(self)@ == old(self)@.insert(key@, value@),
            old(self)@.contains_key(key@) ==> final(self).pairs().len() == old(self).pairs().len(),
            !old(self)@.contains_key(key@) ==> final(self).pairs() == old(self).pairs().push(
                (key@, value@),
            ),
    {
        let ghost before = self.pairs();
        proof {
            use_type_invariant(&*self);
            lemma_map_keys(before);
        }
        let mut entries: Vec<(String, String)> = Vec::new();
        std::mem::swap(&mut self.entries, &mut entries);
        match position(&entries, &key) {
            Some(i) => {
                entries.set(i, (key, value));
                proof {
                    assert(entries_view(entries@) =~= before.update(i as int, (key@, value@)));
                    lemma_update_map(before, i as int, key@, value@);
                }
            },
            None => {
                entries.push((key, value));
                proof {
                    let after = entries_view(entries@);
                    assert(after =~= before.push((key@, value@)));
                    assert(after.drop_last() =~= before);
                }
            },
        }
        std::mem::swap(&mut self.entries, &mut entries);
    }
}

fn run_end_at(text: &Vec<char>, from: usize) -> (r: usize)
    requires
        from <= text.len(),
    ensures
        r == run_end(text@, from as int),
        from <= r <= text.len(),
{
    let mut i: usize = from;
    while i < text.len() && !(text[i] == ':' || text[i] == '|')
        invariant
            from <= i <= text.len(),
            run_end(text@, from as int) == run_end(text@, i as int),
        decreases text.len() - i,
    {
        i = i + 1;
    }
    i
}

/// Reads properties from their wire form. Of two pairs with one key the
/// later one stays.
pub fn parse_properties(text: &str) -> (r: Properties)
    ensures
        r@ == properties_map(parsed_pairs(text@)),
{
    let chars = to_chars(text);
    let mut props = Properties::new();
    let ghost mut found: Seq<Pair> = Seq::empty();
    let mut i: usize = 0;
    while i < chars.len()
        invariant
            i <= chars.len(),
            props@ == properties_map(found),
            pairs_from(chars@, 0) == found + pairs_from(chars@, i as int),
        decreases chars.len() - i,
    {
        let e = run_end_at(&chars, i);
        if i < e && e < chars.len() && chars[e] == ':' {
            let v = run_end_at(&chars, e + 1);
            let key = from_chars(&chars, i, e);
            let value = from_chars(&chars, e + 1, v);
            props.insert(key, value);
            proof {
                let pair = (chars@.subrange(i as int, e as int), chars@.subrange(e + 1, v as int));
                assert(found.push(pair).drop_last() =~= found);
                assert(found.push(pair) + pairs_from(chars@, v as int) =~= found + (seq![pair]
                    + pairs_from(chars@, v as int)));
                found = found.push(pair);
            }
            i = v;
        } else if e > i {
            i = e;
        } else {
            i = i + 1;
        }
    }
    props
}

/// Writes properties in their wire form, in the order of the entries.
pub fn serialize_properties(props: &Properties) -> (r: String)
    ensures
        r@ == properties_text(props.pairs()),
{
    let mut out = String::new();
    let n = props.len();
    let mut i: usize = 0;
    proof {
        reveal_strlit(":");
        reveal_strlit("|");
    }
    while i < n
        invariant
            i <= n,
            n == props.pairs().len(),
            ":"@ == seq![':'],
            "|"@ == seq!['|'],
            properties_text(props.pairs()) == out@ + properties_text_from(props.pairs(), i as int),
        decreases n - i,
    {
        let ghost start = out@;
        let (key, value) = props.entry(i);
        out.append(key);
        out.append(":");
        out.append(value);
        if i + 1 < n {
            out.append("|");
        }
        proof {
            let pairs = props.pairs();
            let step = properties_text_from(pairs, i as int);
            let rest = properties_text_from(pairs, i + 1);
            assert(out@ + rest =~= start + step);
        }
        i = i + 1;
    }
    out
}

} // verus!
