//! The text of a display, line by line, from its cells in display order.

use std::collections::HashMap;
use vstd::prelude::*;
use vstd::std_specs::hash::group_hash_axioms;

verus! {

broadcast use group_hash_axioms;

/// The characters of the cells that stand on `line`, in the order of the
/// cells.
pub open spec fn line_text(cells: Seq<(i32, char)>, line: i32) -> Seq<char>
    decreases cells.len(),
{
    if cells.len() == 0 {
        Seq::empty()
    } else if cells.last().0 == line {
        line_text(cells.drop_last(), line).push(cells.last().1)
    } else {
        line_text(cells.drop_last(), line)
    }
}

/// Whether a cell of `cells` stands on `line`.
pub open spec fn has_line(cells: Seq<(i32, char)>, line: i32) -> bool {
    exists|i: int| 0 <= i < cells.len() && (#[trigger] cells[i]).0 == line
}

/// `String::push`: the text with one more character at its end.
#[verifier::external_body]
fn push_char(text: &mut String, c: char)
    ensures
        final(text)@ == old(text)@.push(c),
{
    text.push(c);
}

/// Collects the characters of each line. Every line that has a cell has an
/// entry, with the characters of its cells in their order; no other line
/// has one.
pub fn buffer(cells: &Vec<(i32, char)>) -> (output: HashMap<i32, String>)
    ensures
        forall|line: i32| output@.contains_key(line) <==> has_line(cells@, line),
        forall|line: i32| #[trigger]
            output@.contains_key(line) ==> output@[line]@ == line_text(cells@, line),
{
    let mut output: HashMap<i32, String> = HashMap::new();
    let mut i: usize = 0;
    while i < cells.len()
        invariant
            i <= cells.len(),
            forall|line: i32|
                output@.contains_key(line) <==> has_line(cells@.take(i as int), line),
            forall|line: i32| #[trigger]
                output@.contains_key(line) ==> output@[line]@ == line_text(
                    cells@.take(i as int),
                    line,
                ),
        decreases cells.len() - i,
    {
        let (line, c) = cells[i];
        let ghost seen = cells@.take(i as int);
        let ghost next = cells@.take(i + 1);
        let ghost before = output@;
        let mut text = match output.remove(&line) {
            Some(text) => text,
            None => String::new(),
        };
        proof {
            assert(next.drop_last() =~= seen);
            assert(next.last() == (line, c));
            if !has_line(seen, line) {
                lemma_absent_line_is_empty(seen, line);
            }
        }
        push_char(&mut text, c);
        output.insert(line, text);
        i += 1;
        proof {
            assert forall|other: i32| output@.contains_key(other) <==> has_line(next, other) by {
                if other == line {
                    assert(next[i - 1].0 == line);
                } else if has_line(next, other) {
                    let j = choose|j: int| 0 <= j < next.len() && (#[trigger] next[j]).0 == other;
                    assert(seen[j] == next[j]);
                } else if has_line(seen, other) {
                    let j = choose|j: int| 0 <= j < seen.len() && (#[trigger] seen[j]).0 == other;
                    assert(seen[j] == next[j]);
                }
            }
        }
    }
    assert(cells@.take(i as int) =~= cells@);
    output
}

/// A line without cells has no text.
pub proof fn lemma_absent_line_is_empty(cells: Seq<(i32, char)>, line: i32)
    requires
        !has_line(cells, line),
    ensures
        line_text(cells, line) == Seq::<char>::empty(),
    decreases cells.len(),
{
    if cells.len() > 0 {
        assert(cells[cells.len() - 1].0 != line);
        assert forall|i: int| 0 <= i < cells.drop_last().len() implies (#[trigger] cells.drop_last()[i]).0
            != line by {
            assert(cells[i] == cells.drop_last()[i]);
        }
        lemma_absent_line_is_empty(cells.drop_last(), line);
    }
}

} // verus!
