//! The parameter splitter: divides the interior of a parenthesized argument
//! list into its top-level comma-separated arguments, trimming whitespace,
//! and stopping at the closing parenthesis that matches the opening one the
//! caller already consumed.
use vstd::prelude::*;

use crate::text::{spec_trim, trim_slice, lemma_trim_len};

verus! {

/// One step of the scan: `s` is the text still to read, `depth` the current
/// parenthesis nesting, `cur` the argument text gathered so far.  A comma at
/// depth zero ends an argument; the closing parenthesis that would take the
/// depth to minus one ends the whole list; text left over when the input runs
/// out without that parenthesis is dropped.
pub open spec fn split_scan(s: Seq<char>, depth: int, cur: Seq<char>) -> Seq<Seq<char>>
    decreases s.len(),
{
    if s.len() == 0 {
        Seq::empty()
    } else {
        let c = s[0];
        let d = if c == '(' {
            depth + 1
        } else if c == ')' {
            depth - 1
        } else {
            depth
        };
        if d == -1 {
            seq![spec_trim(cur)]
        } else if d == 0 && c == ',' {
            seq![spec_trim(cur)] + split_scan(s.drop_first(), d, Seq::empty())
        } else {
            split_scan(s.drop_first(), d, cur.push(c))
        }
    }
}

/// The top-level arguments of `s`, where `s` is the text that follows the
/// opening parenthesis of a call, up through its matching closing one.
pub open spec fn spec_params(s: Seq<char>) -> Seq<Seq<char>> {
    split_scan(s, 0, Seq::empty())
}

/// Every argument needs at least one separator beyond its own characters,
/// so each one is strictly shorter than the gathered and remaining text.
pub proof fn lemma_split_scan_len(s: Seq<char>, depth: int, cur: Seq<char>)
    ensures
        forall|i: int|
            0 <= i < split_scan(s, depth, cur).len() ==> #[trigger] split_scan(s, depth, cur)[i].len()
                + 1 <= cur.len() + s.len(),
    decreases s.len(),
{
    if s.len() > 0 {
        let c = s[0];
        let d = if c == '(' {
            depth + 1
        } else if c == ')' {
            depth - 1
        } else {
            depth
        };
        let r = split_scan(s, depth, cur);
        if d == -1 {
            lemma_trim_len(cur);
        } else if d == 0 && c == ',' {
            lemma_trim_len(cur);
            lemma_split_scan_len(s.drop_first(), d, Seq::empty());
            let rest = split_scan(s.drop_first(), d, Seq::empty());
            assert forall|i: int| 0 <= i < r.len() implies #[trigger] r[i].len() + 1 <= cur.len()
                + s.len() by {
                if i > 0 {
                    assert(r[i] == rest[i - 1]);
                    assert(rest[i - 1].len() + 1 <= s.drop_first().len());
                }
            }
        } else {
            lemma_split_scan_len(s.drop_first(), d, cur.push(c));
            let rest = split_scan(s.drop_first(), d, cur.push(c));
            assert forall|i: int| 0 <= i < r.len() implies #[trigger] r[i].len() + 1 <= cur.len()
                + s.len() by {
                assert(r[i] == rest[i]);
                assert(rest[i].len() + 1 <= cur.push(c).len() + s.drop_first().len());
            }
        }
    }
}

/// Each top-level argument is strictly shorter than the split text.
pub proof fn lemma_params_shorter(s: Seq<char>)
    ensures
        forall|i: int|
            0 <= i < spec_params(s).len() ==> #[trigger] spec_params(s)[i].len() < s.len(),
{
    lemma_split_scan_len(s, 0, Seq::empty());
}

/// The text of each element of a vector of character vectors.
pub open spec fn seq_views(p: Seq<Vec<char>>) -> Seq<Seq<char>> {
    p.map_values(|v: Vec<char>| v@)
}

/// Splits the interior of an argument list into its top-level arguments.
///
/// `text` is everything that follows the opening parenthesis of one call;
/// scanning stops at the matching closing parenthesis and later characters
/// are not read.  Unbalanced input raises no error: an argument under way
/// when the text ends without its closing parenthesis is discarded.
pub fn get_instruction_params(text: &[char]) -> (params: Vec<Vec<char>>)
    ensures
        seq_views(params@) == spec_params(text@),
        forall|i: int| 0 <= i < params@.len() ==> #[trigger] params@[i]@.len() < text@.len(),
{
    let ghost total = spec_params(text@);
    let mut params: Vec<Vec<char>> = Vec::new();
    let mut cur: Vec<char> = Vec::new();
    let mut depth: i128 = 0;
    let mut i: usize = 0;
    proof {
        lemma_params_shorter(text@);
        assert(text@.subrange(0, text@.len() as int) =~= text@);
        assert(seq_views(params@) =~= Seq::<Seq<char>>::empty());
    }
    while i < text.len()
        invariant
            i <= text@.len(),
            total == spec_params(text@),
            total == seq_views(params@) + split_scan(
                text@.subrange(i as int, text@.len() as int),
                depth as int,
                cur@,
            ),
            0 <= depth <= i,
            forall|k: int|
                0 <= k < spec_params(text@).len() ==> #[trigger] spec_params(text@)[k].len()
                    < text@.len(),
        decreases text@.len() - i,
    {
        let ghost rem = text@.subrange(i as int, text@.len() as int);
        proof {
            assert(rem.drop_first() =~= text@.subrange(i + 1, text@.len() as int));
            assert(rem[0] == text@[i as int]);
        }
        let c = text[i];
        let d: i128 = if c == '(' {
            depth + 1
        } else if c == ')' {
            depth - 1
        } else {
            depth
        };
        if d == -1 {
            let last = trim_slice(cur.as_slice());
            let ghost old_params = params@;
            params.push(last);
            proof {
                assert(seq_views(params@) =~= seq_views(old_params).push(last@));
                assert(seq_views(params@) =~= total);
                assert forall|k: int| 0 <= k < params@.len() implies #[trigger] params@[k]@.len()
                    < text@.len() by {
                    assert(seq_views(params@)[k] == params@[k]@);
                    assert(spec_params(text@)[k].len() < text@.len());
                }
            }
            return params;
        }
        if d == 0 && c == ',' {
            let piece = trim_slice(cur.as_slice());
            let ghost old_params = params@;
            params.push(piece);
            cur = Vec::new();
            proof {
                assert(seq_views(params@) =~= seq_views(old_params).push(piece@));
                assert(seq_views(old_params).push(piece@) + split_scan(
                    rem.drop_first(),
                    d as int,
                    Seq::empty(),
                ) =~= seq_views(old_params) + (seq![piece@] + split_scan(
                    rem.drop_first(),
                    d as int,
                    Seq::empty(),
                )));
                assert(cur@ =~= Seq::<char>::empty());
            }
        } else {
            cur.push(c);
        }
        depth = d;
        i = i + 1;
    }
    proof {
        assert(text@.subrange(i as int, text@.len() as int) =~= Seq::<char>::empty());
        assert(seq_views(params@) + Seq::<Seq<char>>::empty() =~= seq_views(params@));
        assert forall|k: int| 0 <= k < params@.len() implies #[trigger] params@[k]@.len()
            < text@.len() by {
            assert(seq_views(params@)[k] == params@[k]@);
            assert(spec_params(text@)[k].len() < text@.len());
        }
    }
    params
}

} // verus!
