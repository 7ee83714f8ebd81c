use vstd::prelude::*;
use vstd::string::StringExecFns;

verus! {

/// One primary annotation of a rendered diagnostic: a byte range within
/// the source text and the message attached to it.
#[derive(Debug, PartialEq, Eq)]
pub struct SpanLabel {
    pub start: usize,
    pub end: usize,
    pub message: String,
}

/// The indented tail of a cause-chain report: one line per cause, each
/// prefixed by a tab and ended by a newline, outermost cause first.
pub open spec fn spec_cause_lines(causes: Seq<Seq<char>>) -> Seq<char>
    decreases causes.len(),
{
    if causes.len() == 0 {
        Seq::empty()
    } else {
        spec_cause_lines(causes.drop_last()) + seq!['\t'] + causes.last() + seq!['\n']
    }
}

/// The full cause-chain report: the top message on the first line —
/// followed by a colon and a space when a cause chain follows — then one
/// indented line per cause, outermost first.
pub open spec fn spec_error_report(top: Seq<char>, causes: Seq<Seq<char>>) -> Seq<char> {
    if causes.len() == 0 {
        top + seq!['\n']
    } else {
        top + seq![':', ' ', '\n'] + spec_cause_lines(causes)
    }
}

/// Render a top-level error message and its chain of underlying causes
/// as a flat, tab-indented report, ready to be written to an error
/// stream.
pub fn format_error_chain(top: &str, causes: &Vec<String>) -> (r: String)
    ensures
        r@ == spec_error_report(top@, causes.deep_view()),
{
    let ghost causes_view: Seq<Seq<char>> = causes.deep_view();
    let mut r = String::from_str(top);
    if causes.len() > 0 {
        r.append(": \n");
        proof {
            reveal_strlit(": \n");
            assert(r@ =~= top@ + seq![':', ' ', '\n']);
        }
    } else {
        r.append("\n");
        proof {
            reveal_strlit("\n");
            assert(r@ =~= top@ + seq!['\n']);
        }
    }
    let ghost header: Seq<char> = r@;
    let mut i: usize = 0;
    while i < causes.len()
        invariant
            i <= causes.len(),
            causes_view == causes.deep_view(),
            causes_view.len() == causes.len(),
            r@ == header + spec_cause_lines(causes_view.take(i as int)),
        decreases causes.len() - i,
    {
        r.append("\t");
        r.append(causes[i].as_str());
        r.append("\n");
        proof {
            reveal_strlit("\t");
            reveal_strlit("\n");
            assert(causes_view.take(i as int + 1).drop_last() =~= causes_view.take(i as int));
            assert(causes_view.take(i as int + 1).last() == causes_view[i as int]);
            assert(r@ =~= header + spec_cause_lines(causes_view.take(i as int + 1)));
        }
        i = i + 1;
    }
    proof {
        assert(causes_view.take(causes_view.len() as int) =~= causes_view);
    }
    r
}

/// A report over exactly two chained causes is three newline-terminated
/// lines: the top message followed by a colon and a space, then each
/// cause on a line of its own, indented by one tab, outer cause first.
pub proof fn lemma_two_cause_report_lines(top: Seq<char>, c1: Seq<char>, c2: Seq<char>)
    ensures
        spec_error_report(top, seq![c1, c2]) == (top + seq![':', ' ', '\n']) + (seq!['\t'] + c1
            + seq!['\n']) + (seq!['\t'] + c2 + seq!['\n']),
{
    let causes = seq![c1, c2];
    assert(causes.last() == c2);
    assert(causes.drop_last() =~= seq![c1]);
    assert(seq![c1].last() == c1);
    assert(seq![c1].drop_last() =~= Seq::<Seq<char>>::empty());
    assert(spec_cause_lines(Seq::<Seq<char>>::empty()) == Seq::<char>::empty());
    assert(spec_cause_lines(seq![c1]) =~= seq!['\t'] + c1 + seq!['\n']);
    assert(spec_cause_lines(causes) =~= spec_cause_lines(seq![c1]) + seq!['\t'] + c2 + seq!['\n']);
    assert(spec_error_report(top, causes) =~= (top + seq![':', ' ', '\n']) + (seq!['\t'] + c1
        + seq!['\n']) + (seq!['\t'] + c2 + seq!['\n']));
}

/// Whether a compiler-reported span resolves to a valid byte range of a
/// source text with `source_len` bytes. The all-zero span is the
/// conventional "unknown location" marker and resolves to nothing; a
/// resolvable span must be well-ordered and lie within the source.
pub open spec fn spec_span_valid(start: u32, end: u32, source_len: int) -> bool {
    &&& !(start == 0 && end == 0)
    &&& start <= end
    &&& end <= source_len
}

/// Build the primary labels of an annotated diagnostic, one per reported
/// span, in order. Returns `None` exactly when some span fails to
/// resolve to a valid byte range of the source text; the caller treats
/// that as fatal, since the spans and the source are supposed to come
/// from the same compilation unit.
pub fn build_span_labels(spans: &Vec<(u32, u32, String)>, source_len: usize) -> (r: Option<
    Vec<SpanLabel>,
>)
    ensures
        (r is Some) <==> (forall|i: int|
            0 <= i < spans@.len() ==> spec_span_valid(
                spans@[i].0,
                spans@[i].1,
                source_len as int,
            )),
        r matches Some(v) ==> {
            &&& v@.len() == spans@.len()
            &&& forall|i: int|
                0 <= i < spans@.len() ==> {
                    &&& (#[trigger] v@[i]).start == spans@[i].0
                    &&& v@[i].end == spans@[i].1
                    &&& v@[i].message@ == spans@[i].2@
                }
        },
{
    let mut labels: Vec<SpanLabel> = Vec::new();
    let mut i: usize = 0;
    while i < spans.len()
        invariant
            i <= spans.len(),
            labels@.len() == i,
            forall|j: int|
                0 <= j < i ==> spec_span_valid(spans@[j].0, spans@[j].1, source_len as int),
            forall|j: int|
                0 <= j < i ==> {
                    &&& (#[trigger] labels@[j]).start == spans@[j].0
                    &&& labels@[j].end == spans@[j].1
                    &&& labels@[j].message@ == spans@[j].2@
                },
        decreases spans.len() - i,
    {
        let start = spans[i].0;
        let end = spans[i].1;
        if (start == 0 && end == 0) || start > end || (end as usize) > source_len {
            return None;
        }
        let message = spans[i].2.clone();
        labels.push(SpanLabel { start: start as usize, end: end as usize, message });
        i = i + 1;
    }
    Some(labels)
}

} // verus!
