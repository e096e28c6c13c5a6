//! Records written to a command's log: one newline-terminated record per
//! captured output line, whichever stream it came from.
use vstd::prelude::*;
use vstd::seq_lib::{to_multiset_contains, to_multiset_len};
use vstd::string::*;

verus! {

broadcast use vstd::multiset::group_multiset_axioms;

/// How many newline characters `s` holds.
pub open spec fn newline_count(s: Seq<char>) -> nat
    decreases s.len(),
{
    if s.len() == 0 {
        0
    } else {
        newline_count(s.drop_last()) + if s.last() == '\n' { 1nat } else { 0nat }
    }
}

/// Whether a captured line holds no line break, as a line reader yields it.
pub open spec fn is_single_line(l: Seq<char>) -> bool {
    !l.contains('\n')
}

/// The log text after the given lines were written, in that order.
pub open spec fn sink_text(lines: Seq<Seq<char>>) -> Seq<char>
    decreases lines.len(),
{
    if lines.len() == 0 {
        Seq::empty()
    } else {
        sink_text(lines.drop_last()) + lines.last() + seq!['\n']
    }
}

/// The record written to the log for one captured line.
pub fn log_record(line: &str) -> (r: String)
    ensures
        r@ == line@ + seq!['\n'],
{
    proof {
        reveal_strlit("\n");
    }
    let mut r = String::from_str(line);
    r.append("\n");
    r
}

proof fn lemma_newline_count_concat(a: Seq<char>, b: Seq<char>)
    ensures
        newline_count(a + b) == newline_count(a) + newline_count(b),
    decreases b.len(),
{
    if b.len() == 0 {
        assert(a + b =~= a);
    } else {
        assert((a + b).drop_last() =~= a + b.drop_last());
        lemma_newline_count_concat(a, b.drop_last());
    }
}

proof fn lemma_single_line_count(l: Seq<char>)
    requires
        is_single_line(l),
    ensures
        newline_count(l) == 0,
    decreases l.len(),
{
    if l.len() > 0 {
        assert(l.last() == l[l.len() - 1]);
        assert(is_single_line(l.drop_last())) by {
            if l.drop_last().contains('\n') {
                let k = choose|k: int| 0 <= k < l.drop_last().len() && l.drop_last()[k] == '\n';
                assert(l[k] == '\n');
            }
        }
        lemma_single_line_count(l.drop_last());
    }
}

proof fn lemma_sink_count(lines: Seq<Seq<char>>)
    requires
        forall|i: int| 0 <= i < lines.len() ==> is_single_line(#[trigger] lines[i]),
    ensures
        newline_count(sink_text(lines)) == lines.len(),
    decreases lines.len(),
{
    if lines.len() > 0 {
        let init = lines.drop_last();
        assert forall|i: int| 0 <= i < init.len() implies is_single_line(#[trigger] init[i]) by {
            assert(init[i] == lines[i]);
        }
        lemma_sink_count(init);
        lemma_single_line_count(lines.last());
        lemma_newline_count_concat(sink_text(init), lines.last());
        lemma_newline_count_concat(sink_text(init) + lines.last(), seq!['\n']);
        assert(seq!['\n'].drop_last() =~= Seq::<char>::empty());
        assert(newline_count(Seq::<char>::empty()) == 0);
        assert(seq!['\n'].last() == '\n');
        assert(newline_count(seq!['\n']) == 1);
        assert(sink_text(lines) == sink_text(init) + lines.last() + seq!['\n']);
    }
}

/// However the two readers interleave, the log of a command that wrote `out`
/// on standard output and `err` on standard error holds exactly
/// `out.len() + err.len()` newline-terminated records: no line is lost,
/// doubled or split.
pub proof fn lemma_capture_complete(out: Seq<Seq<char>>, err: Seq<Seq<char>>, written: Seq<Seq<char>>)
    requires
        forall|i: int| 0 <= i < out.len() ==> is_single_line(#[trigger] out[i]),
        forall|i: int| 0 <= i < err.len() ==> is_single_line(#[trigger] err[i]),
        written.to_multiset() == out.to_multiset().add(err.to_multiset()),
    ensures
        newline_count(sink_text(written)) == out.len() + err.len(),
        written.len() == out.len() + err.len(),
{
    to_multiset_len(written);
    to_multiset_len(out);
    to_multiset_len(err);
    assert forall|i: int| 0 <= i < written.len() implies is_single_line(#[trigger] written[i]) by {
        let l = written[i];
        assert(written.contains(l));
        to_multiset_contains(written, l);
        to_multiset_contains(out, l);
        to_multiset_contains(err, l);
        if out.contains(l) {
            let k = choose|k: int| 0 <= k < out.len() && out[k] == l;
            assert(is_single_line(out[k]));
        } else {
            let k = choose|k: int| 0 <= k < err.len() && err[k] == l;
            assert(is_single_line(err[k]));
        }
    }
    lemma_sink_count(written);
}

} // verus!
