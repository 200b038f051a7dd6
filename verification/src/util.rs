//! The canonical form of the service's own headers, as it enters a signature.

use vstd::prelude::*;
use vstd::relations::sorted_by;
use vstd::relations::total_ordering;
use vstd::seq_lib::lemma_sorted_unique;
use vstd::string::StringExecFns;
use reqwest::header::HeaderMap;
use crate::header::header_map_iter;
use crate::header::header_map_pairs;
use crate::header::pairs_view;
use crate::header::HeaderPair;
use crate::text::chars_le;
use crate::text::from_chars;
use crate::text::lemma_text_le_antisymmetric;
use crate::text::lemma_text_le_reflexive;
use crate::text::lemma_text_le_total;
use crate::text::lemma_text_le_transitive;
use crate::text::text_le;
use crate::text::to_chars;

verus! {

/// The prefix that marks a header as one of the service's own.
pub open spec fn mq_prefix() -> Seq<char> {
    seq!['x', '-', 'm', 'q', '-']
}

/// Whether a header name, already in lower case, begins with the prefix.
pub open spec fn is_mq_name(name: Seq<char>) -> bool {
    name.len() >= 5 && name.take(5) == mq_prefix()
}

/// The order of the canonical form: by name, and by value among headers of
/// one name.
pub open spec fn pair_le(a: HeaderPair, b: HeaderPair) -> bool {
    if a.0 == b.0 {
        text_le(a.1, b.1)
    } else {
        text_le(a.0, b.0)
    }
}

/// `pair_le` as a relation.
pub open spec fn pair_order() -> spec_fn(HeaderPair, HeaderPair) -> bool {
    |a: HeaderPair, b: HeaderPair| pair_le(a, b)
}

/// The test that picks the service's own headers.
pub open spec fn mq_filter() -> spec_fn(HeaderPair) -> bool {
    |p: HeaderPair| is_mq_name(p.0)
}

/// The service's own headers among `pairs`, in ascending order.
pub open spec fn canonical_pairs(pairs: Seq<HeaderPair>) -> Seq<HeaderPair> {
    pairs.filter(mq_filter()).sort_by(pair_order())
}

/// One line for each pair: the name, a colon, the value, a line feed.
pub open spec fn header_lines(pairs: Seq<HeaderPair>) -> Seq<char>
    decreases pairs.len(),
{
    if pairs.len() == 0 {
        Seq::empty()
    } else {
        header_lines(pairs.drop_last()) + pairs.last().0 + seq![':'] + pairs.last().1 + seq!['\n']
    }
}

/// The canonical block of a set of headers: the lines of the service's own
/// headers in ascending order of their names.
pub open spec fn canonical_headers(pairs: Seq<HeaderPair>) -> Seq<char> {
    header_lines(canonical_pairs(pairs))
}

/// `pair_le` is a total order.
pub proof fn lemma_pair_order_total()
    ensures
        total_ordering(pair_order()),
{
    let r = pair_order();
    assert forall|a: HeaderPair| #[trigger] r(a, a) by {
        lemma_text_le_reflexive(a.1);
    }
    assert forall|a: HeaderPair, b: HeaderPair| #[trigger] r(a, b) && #[trigger] r(b, a) implies a
        == b by {
        if a.0 == b.0 {
            lemma_text_le_antisymmetric(a.1, b.1);
        } else {
            lemma_text_le_antisymmetric(a.0, b.0);
        }
    }
    assert forall|a: HeaderPair, b: HeaderPair, c: HeaderPair| #[trigger]
        r(a, b) && #[trigger] r(b, c) implies r(a, c) by {
        lemma_pair_le_transitive(a, b, c);
    }
    assert forall|a: HeaderPair, b: HeaderPair| #[trigger] r(a, b) || #[trigger] r(b, a) by {
        lemma_text_le_total(a.0, b.0);
        lemma_text_le_total(a.1, b.1);
    }
}

proof fn lemma_pair_le_transitive(a: HeaderPair, b: HeaderPair, c: HeaderPair)
    requires
        pair_le(a, b),
        pair_le(b, c),
    ensures
        pair_le(a, c),
{
    lemma_text_le_reflexive(b.0);
    if a.0 == b.0 && b.0 == c.0 {
        lemma_text_le_transitive(a.1, b.1, c.1);
    } else {
        lemma_text_le_transitive(a.0, b.0, c.0);
        if a.0 == c.0 {
            lemma_text_le_antisymmetric(a.0, b.0);
        }
    }
}

/// How often `x` occurs among the members of `s` that pass `pred`.
proof fn lemma_filter_count(s: Seq<HeaderPair>, pred: spec_fn(HeaderPair) -> bool, x: HeaderPair)
    ensures
        s.filter(pred).to_multiset().count(x) == if pred(x) {
            s.to_multiset().count(x)
        } else {
            0
        },
    decreases s.len(),
{
    broadcast use vstd::seq_lib::group_to_multiset_ensures;

    reveal(Seq::filter);
    if s.len() > 0 {
        let init = s.drop_last();
        lemma_filter_count(init, pred, x);
        assert(s =~= init.push(s.last()));
    }
}

/// The canonical block depends on the service's own headers alone, whatever
/// their order: two sequences that hold the same such headers, each as often
/// as the other, have the same canonical block.
pub proof fn lemma_canonical_headers_determined(a: Seq<HeaderPair>, b: Seq<HeaderPair>)
    requires
        a.filter(mq_filter()).to_multiset() == b.filter(mq_filter()).to_multiset(),
    ensures
        canonical_pairs(a) == canonical_pairs(b),
        canonical_headers(a) == canonical_headers(b),
{
    let fa = a.filter(mq_filter());
    let fb = b.filter(mq_filter());
    lemma_pair_order_total();
    fa.lemma_sort_by_ensures(pair_order());
    fb.lemma_sort_by_ensures(pair_order());
    lemma_sorted_unique(fa.sort_by(pair_order()), fb.sort_by(pair_order()), pair_order());
}

/// The canonical block depends on which headers there are, not on the order
/// in which they were put in: two sequences that hold the same headers, each
/// as often as the other, have the same canonical block.
pub proof fn lemma_canonical_headers_order_independent(a: Seq<HeaderPair>, b: Seq<HeaderPair>)
    requires
        a.to_multiset() == b.to_multiset(),
    ensures
        canonical_pairs(a) == canonical_pairs(b),
        canonical_headers(a) == canonical_headers(b),
{
    let fa = a.filter(mq_filter());
    let fb = b.filter(mq_filter());
    assert(fa.to_multiset() =~= fb.to_multiset()) by {
        assert forall|x: HeaderPair| fa.to_multiset().count(x) == fb.to_multiset().count(x) by {
            lemma_filter_count(a, mq_filter(), x);
            lemma_filter_count(b, mq_filter(), x);
        }
    }
    lemma_canonical_headers_determined(a, b);
}

/// A header whose name and value were taken apart into characters.
pub struct HeaderLine {
    pub name: Vec<char>,
    pub value: Vec<char>,
}

impl View for HeaderLine {
    type V = HeaderPair;

    open spec fn view(&self) -> HeaderPair {
        (self.name@, self.value@)
    }
}

/// The pairs that a sequence of lines stands for.
pub open spec fn lines_view(lines: Seq<HeaderLine>) -> Seq<HeaderPair> {
    Seq::new(lines.len(), |i: int| lines[i]@)
}

fn line_le(a: &HeaderLine, b: &HeaderLine) -> (r: bool)
    ensures
        r == pair_le(a@, b@),
{
    let forth = chars_le(&a.name, &b.name);
    let back = chars_le(&b.name, &a.name);
    if forth && back {
        proof {
            lemma_text_le_antisymmetric(a.name@, b.name@);
        }
        chars_le(&a.value, &b.value)
    } else {
        proof {
            lemma_text_le_reflexive(a.name@);
        }
        forth
    }
}

fn has_mq_prefix(name: &Vec<char>) -> (r: bool)
    ensures
        r == is_mq_name(name@),
{
    if name.len() < 5 {
        return false;
    }
    let r = name[0] == 'x' && name[1] == '-' && name[2] == 'm' && name[3] == 'q' && name[4] == '-';
    assert(r ==> name@.take(5) =~= mq_prefix());
    r
}

fn insert_sorted(out: &mut Vec<HeaderLine>, line: HeaderLine)
    requires
        sorted_by(lines_view(old(out)@), pair_order()),
    ensures
        sorted_by(lines_view(final(out)@), pair_order()),
        lines_view(final(out)@).to_multiset() == lines_view(old(out)@).to_multiset().insert(line@),
{
    let ghost before = lines_view(out@);
    let mut k: usize = 0;
    while k < out.len() && line_le(&out[k], &line)
        invariant
            k <= out.len(),
            out@ == old(out)@,
            before == lines_view(out@),
            forall|m: int| 0 <= m < k ==> pair_le(#[trigger] before[m], line@),
        decreases out.len() - k,
    {
        k = k + 1;
    }
    proof {
        lemma_pair_order_total();
        if k < out.len() {
            assert(pair_order()(before[k as int], line@) || pair_order()(line@, before[k as int]));
            assert forall|j: int| k <= j < before.len() implies pair_le(line@, #[trigger] before[j]) by {
                if j > k {
                    assert(pair_order()(before[k as int], before[j]));
                    lemma_pair_le_transitive(line@, before[k as int], before[j]);
                }
            }
        }
    }
    out.insert(k, line);
    proof {
        let after = lines_view(out@);
        assert(after =~= before.insert(k as int, line@));
        vstd::seq_lib::to_multiset_insert(before, k as int, line@);
    }
}

/// The service's own headers among `all`, in ascending order.
pub fn sorted_mq_lines(all: &Vec<(String, String)>) -> (r: Vec<HeaderLine>)
    ensures
        lines_view(r@) == canonical_pairs(pairs_view(all@)),
{
    let ghost pairs = pairs_view(all@);
    let mut out: Vec<HeaderLine> = Vec::new();
    let mut i: usize = 0;
    assert(pairs.take(0).filter(mq_filter()) =~= Seq::<HeaderPair>::empty()) by {
        reveal(Seq::filter);
    }
    assert(lines_view(out@) =~= Seq::<HeaderPair>::empty());
    while i < all.len()
        invariant
            i <= all.len(),
            pairs == pairs_view(all@),
            sorted_by(lines_view(out@), pair_order()),
            lines_view(out@).to_multiset() == pairs.take(i as int).filter(
                mq_filter(),
            ).to_multiset(),
        decreases all.len() - i,
    {
        let name = to_chars(all[i].0.as_str());
        proof {
            reveal(Seq::filter);
            assert(pairs.take(i + 1).drop_last() =~= pairs.take(i as int));
        }
        if has_mq_prefix(&name) {
            let value = to_chars(all[i].1.as_str());
            let line = HeaderLine { name, value };
            proof {
                vstd::seq_lib::to_multiset_build(
                    pairs.take(i as int).filter(mq_filter()),
                    pairs[i as int],
                );
            }
            insert_sorted(&mut out, line);
        }
        i = i + 1;
    }
    proof {
        assert(pairs.take(i as int) == pairs);
        let wanted = pairs.filter(mq_filter());
        lemma_pair_order_total();
        wanted.lemma_sort_by_ensures(pair_order());
        lemma_sorted_unique(lines_view(out@), wanted.sort_by(pair_order()), pair_order());
    }
    out
}

/// The canonical block of the headers of a map: one line `name:value` with a
/// line feed for each header whose name begins with `x-mq-`, in ascending
/// order of the names.
pub fn get_canonicalized_mq_headers(headers: &HeaderMap) -> (r: String)
    ensures
        r@ == canonical_headers(header_map_pairs(*headers)),
{
    let all = header_map_iter(headers);
    let lines = sorted_mq_lines(&all);
    let mut out = String::new();
    let mut i: usize = 0;
    while i < lines.len()
        invariant
            i <= lines.len(),
            out@ == header_lines(lines_view(lines@).take(i as int)),
        decreases lines.len() - i,
    {
        let name = from_chars(&lines[i].name, 0, lines[i].name.len());
        let value = from_chars(&lines[i].value, 0, lines[i].value.len());
        proof {
            let upto = lines_view(lines@).take(i + 1);
            assert(upto.drop_last() =~= lines_view(lines@).take(i as int));
            assert(lines@[i as int].name@.subrange(0, lines@[i as int].name@.len() as int)
                =~= lines@[i as int].name@);
            assert(lines@[i as int].value@.subrange(0, lines@[i as int].value@.len() as int)
                =~= lines@[i as int].value@);
            reveal_strlit(":");
            reveal_strlit("\n");
        }
        out.append(name.as_str());
        out.append(":");
        out.append(value.as_str());
        out.append("\n");
        i = i + 1;
    }
    assert(lines_view(lines@).take(i as int) == lines_view(lines@));
    out
}

} // verus!
