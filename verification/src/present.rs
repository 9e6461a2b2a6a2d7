//! Rendering of collected response envelopes into display lines.
//!
//! Each envelope that carries a pull-request payload yields exactly one line,
//! `<category label> <title> <url>`, in input order. An envelope with no
//! payload, or whose resource is not a pull request, is silently skipped;
//! skipping never disturbs the lines of the other entries.

use crate::response::{
    classify, category_label, spec_classify, spec_label, PullRequestSummary, Resource,
    ResponseEnvelope,
};
use vstd::prelude::*;
use vstd::string::StringExecFns;

verus! {

/// Whether an envelope carries a pull-request payload, i.e. yields a line.
pub open spec fn spec_displayable(envelope: ResponseEnvelope) -> bool {
    match envelope.data {
        Some(data) => match data.resource {
            Some(Resource::PullRequest(_)) => true,
            _ => false,
        },
        None => false,
    }
}

/// The pull-request payload of a displayable envelope.
pub open spec fn spec_summary(envelope: ResponseEnvelope) -> PullRequestSummary
    recommends
        spec_displayable(envelope),
{
    match envelope.data {
        Some(data) => match data.resource {
            Some(Resource::PullRequest(summary)) => summary,
            _ => arbitrary(),
        },
        None => arbitrary(),
    }
}

/// The one display line of a pull-request payload.
pub open spec fn spec_line_of(summary: PullRequestSummary) -> Seq<char> {
    spec_label(spec_classify(summary.review_decision)) + " "@ + summary.title@ + " "@
        + summary.url@
}

/// The lines one envelope contributes: one for a pull-request payload,
/// none otherwise.
pub open spec fn spec_entry_lines(envelope: ResponseEnvelope) -> Seq<Seq<char>> {
    if spec_displayable(envelope) {
        seq![spec_line_of(spec_summary(envelope))]
    } else {
        Seq::empty()
    }
}

/// The display lines of a whole ordered result list.
pub open spec fn spec_present(results: Seq<ResponseEnvelope>) -> Seq<Seq<char>>
    decreases results.len(),
{
    if results.len() == 0 {
        Seq::empty()
    } else {
        spec_entry_lines(results[0]) + spec_present(results.drop_first())
    }
}

/// Presentation is compositional: the lines of two batches laid end to end
/// are the lines of the first followed by the lines of the second.
pub proof fn lemma_present_append(a: Seq<ResponseEnvelope>, b: Seq<ResponseEnvelope>)
    ensures
        spec_present(a + b) == spec_present(a) + spec_present(b),
    decreases a.len(),
{
    if a.len() == 0 {
        assert(a + b =~= b);
        assert(spec_present(a) =~= Seq::<Seq<char>>::empty());
        assert(spec_present(a) + spec_present(b) =~= spec_present(b));
    } else {
        assert((a + b).len() != 0);
        assert((a + b)[0] == a[0]);
        assert((a + b).drop_first() =~= a.drop_first() + b);
        lemma_present_append(a.drop_first(), b);
        assert(spec_present(a + b) =~= spec_present(a) + spec_present(b));
    }
}

/// The lines of a single envelope are its entry lines.
proof fn lemma_present_single(envelope: ResponseEnvelope)
    ensures
        spec_present(seq![envelope]) == spec_entry_lines(envelope),
{
    let single = seq![envelope];
    assert(single.drop_first() =~= Seq::<ResponseEnvelope>::empty());
    assert(spec_present(Seq::<ResponseEnvelope>::empty()) =~= Seq::<Seq<char>>::empty());
    assert(spec_present(single) =~= spec_entry_lines(envelope));
}

/// A non-displayable envelope — no payload, or a resource that is not a
/// pull request — contributes no line, and removing it from a batch leaves
/// the output of every other entry unchanged.
pub proof fn lemma_skipped_entry(
    before: Seq<ResponseEnvelope>,
    envelope: ResponseEnvelope,
    after: Seq<ResponseEnvelope>,
)
    requires
        !spec_displayable(envelope),
    ensures
        spec_present(before + seq![envelope] + after) == spec_present(before + after),
{
    lemma_present_single(envelope);
    lemma_present_append(before, seq![envelope]);
    lemma_present_append(before + seq![envelope], after);
    lemma_present_append(before, after);
    assert(spec_present(before + seq![envelope] + after) =~= spec_present(before + after));
}

/// Renders one line per displayable envelope, in input order.
///
/// An envelope without a pull-request payload is a benign no-op: it is
/// skipped without an error and without affecting the other entries. An
/// unrecognized review decision is likewise never an error: it is rendered
/// under the `Pending` label.
#[verifier::loop_isolation(false)]
pub fn present(results: &Vec<ResponseEnvelope>) -> (lines: Vec<String>)
    ensures
        lines@.len() == spec_present(results@).len(),
        forall|i: int| 0 <= i < lines@.len() ==> lines@[i]@ == spec_present(results@)[i],
{
    let mut lines: Vec<String> = Vec::new();
    let mut i: usize = 0;
    while i < results.len()
        invariant
            i <= results@.len(),
            lines@.len() == spec_present(results@.take(i as int)).len(),
            forall|j: int|
                0 <= j < lines@.len() ==> lines@[j]@ == spec_present(results@.take(i as int))[j],
        decreases results@.len() - i,
    {
        let ghost entry = results@[i as int];
        proof {
            assert(results@.take(i + 1) =~= results@.take(i as int) + seq![entry]);
            lemma_present_append(results@.take(i as int), seq![entry]);
            lemma_present_single(entry);
        }
        match &results[i].data {
            Some(data) => match &data.resource {
                Some(Resource::PullRequest(summary)) => {
                    proof {
                        assert(spec_displayable(entry));
                        assert(*summary == spec_summary(entry));
                    }
                    let category = classify(&summary.review_decision);
                    let label = category_label(&category);
                    let mut line = String::from_str(label);
                    line.append(" ");
                    line.append(summary.title.as_str());
                    line.append(" ");
                    line.append(summary.url.as_str());
                    proof {
                        assert(line@ == spec_line_of(spec_summary(entry)));
                    }
                    lines.push(line);
                },
                _ => {},
            },
            None => {},
        }
        i = i + 1;
        proof {
            assert(forall|j: int|
                0 <= j < lines@.len() ==> lines@[j]@ == spec_present(results@.take(i as int))[j]);
        }
    }
    proof {
        assert(results@.take(results@.len() as int) =~= results@);
    }
    lines
}

} // verus!
