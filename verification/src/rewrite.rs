//! Putting the names that people wrote back into diagnostics.
//!
//! Expanding connectors gives every connector a subgraph of its own, under a
//! made-up service name. A diagnostic about the expanded supergraph speaks
//! of those names. Before it is reported, every occurrence of a service
//! name in its message is replaced by the name of the subgraph that the
//! connector was written in.

use vstd::prelude::*;
use vstd::string::*;

verus! {

/// `text` with `to` after each of its characters.
pub open spec fn spaced(text: Seq<char>, to: Seq<char>) -> Seq<char>
    decreases text.len(),
{
    if text.len() == 0 {
        Seq::empty()
    } else {
        seq![text[0]] + to + spaced(text.skip(1), to)
    }
}

/// Whether `from` stands in `text` at position `at`.
pub open spec fn occurs_at(text: Seq<char>, from: Seq<char>, at: int) -> bool {
    &&& 0 <= at
    &&& at + from.len() <= text.len()
    &&& text.subrange(at, at + from.len()) == from
}

/// `text` with every occurrence of `from` replaced by `to`, reading from
/// the left: an occurrence that overlaps one already replaced is not one.
/// The empty `from` occurs before each character and after the last.
pub open spec fn replaced(text: Seq<char>, from: Seq<char>, to: Seq<char>) -> Seq<char>
    decreases text.len(),
{
    if from.len() == 0 {
        to + spaced(text, to)
    } else if text.len() < from.len() {
        text
    } else if occurs_at(text, from, 0) {
        to + replaced(text.skip(from.len() as int), from, to)
    } else {
        seq![text[0]] + replaced(text.skip(1), from, to)
    }
}

/// `message` after one replacement for each pair of `names`, in their
/// order: each pair's first name gives way to its second, in what the pairs
/// before it have left.
pub open spec fn rewritten(message: Seq<char>, names: Seq<(Seq<char>, Seq<char>)>) -> Seq<char>
    decreases names.len(),
{
    if names.len() == 0 {
        message
    } else {
        replaced(rewritten(message, names.drop_last()), names.last().0, names.last().1)
    }
}

/// A text in which `from` occurs nowhere is left as it is.
pub proof fn lemma_replaced_without_occurrence(text: Seq<char>, from: Seq<char>, to: Seq<char>)
    requires
        from.len() > 0,
        forall|at: int| !occurs_at(text, from, at),
    ensures
        replaced(text, from, to) == text,
    decreases text.len(),
{
    if text.len() >= from.len() {
        assert(!occurs_at(text, from, 0));
        let rest = text.skip(1);
        assert forall|at: int| !occurs_at(rest, from, at) by {
            if occurs_at(rest, from, at) {
                assert(rest.subrange(at, at + from.len()) =~= text.subrange(
                    at + 1,
                    at + 1 + from.len(),
                ));
                assert(occurs_at(text, from, at + 1));
            }
        }
        lemma_replaced_without_occurrence(rest, from, to);
        assert(seq![text[0]] + rest =~= text);
    }
}

/// Where `from` occurs in a text, `to` occurs in what replacing makes of it.
pub proof fn lemma_replaced_holds_replacement(
    text: Seq<char>,
    from: Seq<char>,
    to: Seq<char>,
    at: int,
) -> (found: int)
    requires
        from.len() > 0,
        occurs_at(text, from, at),
    ensures
        occurs_at(replaced(text, from, to), to, found),
    decreases text.len(),
{
    if occurs_at(text, from, 0) {
        let rest = replaced(text.skip(from.len() as int), from, to);
        assert((to + rest).subrange(0, to.len() as int) =~= to);
        0
    } else {
        let rest = text.skip(1);
        assert(rest.subrange(at - 1, at - 1 + from.len()) =~= text.subrange(at, at + from.len()));
        let inner = lemma_replaced_holds_replacement(rest, from, to, at - 1);
        let tail = replaced(rest, from, to);
        assert((seq![text[0]] + tail).subrange(inner + 1, inner + 1 + to.len()) =~= tail.subrange(
            inner,
            inner + to.len(),
        ));
        inner + 1
    }
}

/// Replacing nothing leaves the message as it is.
pub proof fn lemma_rewritten_without_names(message: Seq<char>)
    ensures
        rewritten(message, Seq::empty()) == message,
{
}

/// With one pair of names, rewriting is one replacement.
pub proof fn lemma_rewritten_with_one_name(message: Seq<char>, from: Seq<char>, to: Seq<char>)
    ensures
        rewritten(message, seq![(from, to)]) == replaced(message, from, to),
{
    let names = seq![(from, to)];
    assert(names.drop_last() =~= Seq::empty());
    assert(names.last() == (from, to));
    assert(rewritten(message, names.drop_last()) == message);
}

/// What `String::push` of std does: it appends the character.
pub assume_specification[ String::push ](text: &mut String, c: char)
    ensures
        final(text)@ == old(text)@.push(c),
;

/// The characters of a text.
pub fn chars_of(text: &str) -> (chars: Vec<char>)
    ensures
        chars@ == text@,
{
    let mut chars: Vec<char> = Vec::new();
    for c in it: text.chars()
        invariant
            it.seq() == text@,
            chars@ == it.seq().take(it.index as int),
    {
        chars.push(c);
        proof {
            assert(it.seq().take(it.index + 1) =~= it.seq().take(it.index as int).push(c));
        }
    }
    proof {
        assert(text@.take(text@.len() as int) =~= text@);
    }
    chars
}

/// Whether `from` stands in `text` at position `at`.
fn stands_at(text: &Vec<char>, from: &Vec<char>, at: usize) -> (found: bool)
    requires
        at + from.len() <= text.len(),
    ensures
        found == occurs_at(text@, from@, at as int),
{
    let mut i: usize = 0;
    while i < from.len()
        invariant
            i <= from.len(),
            at + from.len() <= text.len(),
            text@.subrange(at as int, at + i) == from@.take(i as int),
        decreases from.len() - i,
    {
        if text[at + i] != from[i] {
            proof {
                let window = text@.subrange(at as int, at + from.len());
                assert(window[i as int] != from@[i as int]);
            }
            return false;
        }
        proof {
            assert(text@.subrange(at as int, at + i + 1) =~= text@.subrange(
                at as int,
                at + i,
            ).push(text@[at + i]));
            assert(from@.take(i + 1) =~= from@.take(i as int).push(from@[i as int]));
        }
        i += 1;
    }
    proof {
        assert(from@.take(from@.len() as int) =~= from@);
    }
    true
}

/// Replaces every occurrence of `from` in `text` by `to`.
pub fn replace_all(text: &str, from: &str, to: &str) -> (out: String)
    ensures
        out@ == replaced(text@, from@, to@),
{
    let text_chars = chars_of(text);
    let from_chars = chars_of(from);
    let n = text_chars.len();
    let m = from_chars.len();
    let ghost whole = text@;
    let mut out = String::new();
    let mut i: usize = 0;
    proof {
        assert(whole.skip(0) =~= whole);
        assert(out@ + replaced(whole, from@, to@) =~= replaced(whole, from@, to@));
    }
    if m == 0 {
        out.append(to);
        proof {
            assert(out@ + spaced(whole, to@) =~= to@ + spaced(whole, to@));
        }
        while i < n
            invariant
                i <= n,
                n == whole.len(),
                text_chars@ == whole,
                out@ + spaced(whole.skip(i as int), to@) == to@ + spaced(whole, to@),
            decreases n - i,
        {
            let ghost before = out@;
            out.push(text_chars[i]);
            out.append(to);
            proof {
                let rest = whole.skip(i as int);
                assert(rest.skip(1) =~= whole.skip(i + 1));
                assert(before + (seq![rest[0]] + to@ + spaced(rest.skip(1), to@)) =~= (before.push(
                    whole[i as int],
                ) + to@) + spaced(whole.skip(i + 1), to@));
            }
            i += 1;
        }
        proof {
            assert(whole.skip(n as int) =~= Seq::empty());
            assert(out@ + Seq::<char>::empty() =~= out@);
        }
        return out;
    }
    while i < n
        invariant
            i <= n,
            n == whole.len(),
            m == from@.len(),
            m > 0,
            text_chars@ == whole,
            from_chars@ == from@,
            out@ + replaced(whole.skip(i as int), from@, to@) == replaced(whole, from@, to@),
        decreases n - i,
    {
        let ghost rest = whole.skip(i as int);
        let ghost before = out@;
        if n - i < m {
            proof {
                assert(replaced(rest, from@, to@) == rest);
            }
            let mut j: usize = i;
            while j < n
                invariant
                    i <= j <= n,
                    n == whole.len(),
                    text_chars@ == whole,
                    out@ == before + whole.subrange(i as int, j as int),
                decreases n - j,
            {
                out.push(text_chars[j]);
                proof {
                    assert(whole.subrange(i as int, j + 1) =~= whole.subrange(
                        i as int,
                        j as int,
                    ).push(whole[j as int]));
                }
                j += 1;
            }
            proof {
                assert(whole.subrange(i as int, n as int) =~= rest);
                assert(whole.skip(n as int) =~= Seq::empty());
                assert(replaced(whole.skip(n as int), from@, to@) =~= Seq::empty());
                assert(out@ + replaced(whole.skip(n as int), from@, to@) =~= before + rest);
            }
            i = n;
        } else if stands_at(&text_chars, &from_chars, i) {
            out.append(to);
            proof {
                assert(rest.subrange(0, m as int) =~= whole.subrange(i as int, i + m));
                assert(occurs_at(rest, from@, 0));
                assert(rest.skip(m as int) =~= whole.skip(i + m));
                assert(replaced(rest, from@, to@) == to@ + replaced(
                    whole.skip(i + m),
                    from@,
                    to@,
                ));
                assert((before + to@) + replaced(whole.skip(i + m), from@, to@) =~= before + (to@
                    + replaced(whole.skip(i + m), from@, to@)));
            }
            i += m;
        } else {
            out.push(text_chars[i]);
            proof {
                assert(rest.subrange(0, m as int) =~= whole.subrange(i as int, i + m));
                assert(!occurs_at(rest, from@, 0));
                assert(rest.skip(1) =~= whole.skip(i + 1));
                assert(rest[0] == whole[i as int]);
                assert(replaced(rest, from@, to@) == seq![rest[0]] + replaced(
                    whole.skip(i + 1),
                    from@,
                    to@,
                ));
                assert(before.push(whole[i as int]) + replaced(whole.skip(i + 1), from@, to@)
                    =~= before + (seq![rest[0]] + replaced(whole.skip(i + 1), from@, to@)));
            }
            i += 1;
        }
    }
    proof {
        assert(whole.skip(n as int) =~= Seq::empty());
        assert(replaced(whole.skip(n as int), from@, to@) =~= Seq::empty());
        assert(out@ + Seq::<char>::empty() =~= out@);
    }
    out
}

/// Replaces, in a message, each service name by its subgraph's name: one
/// replacement for each pair of `names`, in their order.
pub fn rewrite_message(message: String, names: &Vec<(String, String)>) -> (out: String)
    ensures
        out@ == rewritten(message@, names.deep_view()),
{
    let ghost given = message@;
    let mut out = message;
    let mut i: usize = 0;
    proof {
        assert(names.deep_view().take(0) =~= Seq::empty());
    }
    while i < names.len()
        invariant
            i <= names.len(),
            out@ == rewritten(given, names.deep_view().take(i as int)),
        decreases names.len() - i,
    {
        let pair = &names[i];
        out = replace_all(out.as_str(), pair.0.as_str(), pair.1.as_str());
        proof {
            let upto = names.deep_view().take(i + 1);
            assert(upto.drop_last() =~= names.deep_view().take(i as int));
            assert(upto.last() == (pair.0@, pair.1@));
        }
        i += 1;
    }
    proof {
        assert(names.deep_view().take(i as int) =~= names.deep_view());
    }
    out
}

} // verus!
