//! Order-preserving, fail-fast collection of the per-request outcomes of a
//! batch of concurrent remote lookups.
//!
//! The caller issues the lookups (however it schedules them) and records one
//! transport outcome per request, in input order. Collecting then either
//! yields every response envelope, in that same order, or fails with the
//! first transport error — a stale partial report is never produced.

use crate::response::ResponseEnvelope;
use vstd::prelude::*;

verus! {

/// A failed remote call: the connection broke or the response body could not
/// be decoded. Any one of these aborts the whole batch.
#[derive(Debug)]
pub struct TransportError {
    pub message: String,
}

/// The index of the first failed outcome, or the length of the sequence when
/// every outcome succeeded.
pub open spec fn spec_first_failure(outcomes: Seq<Result<ResponseEnvelope, TransportError>>) -> int
    decreases outcomes.len(),
{
    if outcomes.len() == 0 {
        0
    } else if outcomes[0] is Err {
        0
    } else {
        1 + spec_first_failure(outcomes.drop_first())
    }
}

/// The first failure of a sequence whose first `k` outcomes succeed and whose
/// outcome at `k` fails (or is the end) is exactly `k`.
proof fn lemma_first_failure_at(outcomes: Seq<Result<ResponseEnvelope, TransportError>>, k: int)
    requires
        0 <= k <= outcomes.len(),
        forall|i: int| 0 <= i < k ==> outcomes[i] is Ok,
        k < outcomes.len() ==> outcomes[k] is Err,
    ensures
        spec_first_failure(outcomes) == k,
    decreases outcomes.len(),
{
    if outcomes.len() == 0 {
    } else if k == 0 {
    } else {
        assert(outcomes[0] is Ok);
        assert(forall|i: int|
            0 <= i < k - 1 ==> outcomes.drop_first()[i] == outcomes[i + 1] && outcomes[i
                + 1] is Ok);
        lemma_first_failure_at(outcomes.drop_first(), k - 1);
    }
}

/// Collects the per-request outcomes of one batch.
///
/// When every outcome succeeded, the result is the list of response
/// envelopes, one per request and in the same order. When any outcome
/// failed, the whole batch fails with the first transport error in input
/// order, and no partial list is exposed.
#[verifier::loop_isolation(false)]
pub fn collect_responses(outcomes: Vec<Result<ResponseEnvelope, TransportError>>) -> (collected:
    Result<Vec<ResponseEnvelope>, TransportError>)
    ensures
        collected is Ok <==> (forall|i: int| 0 <= i < outcomes@.len() ==> outcomes@[i] is Ok),
        collected matches Ok(envelopes) ==> {
            &&& envelopes@.len() == outcomes@.len()
            &&& forall|i: int| 0 <= i < outcomes@.len() ==> envelopes@[i] == outcomes@[i]->Ok_0
        },
        collected matches Err(e) ==> {
            &&& spec_first_failure(outcomes@) < outcomes@.len()
            &&& outcomes@[spec_first_failure(outcomes@)] is Err
            &&& e == outcomes@[spec_first_failure(outcomes@)]->Err_0
        },
{
    let ghost all = outcomes@;
    let mut remaining = outcomes;
    let mut envelopes: Vec<ResponseEnvelope> = Vec::new();
    proof {
        assert(all =~= all.take(0) + remaining@);
    }
    while remaining.len() > 0
        invariant
            envelopes@.len() + remaining@.len() == all.len(),
            all == all.take(envelopes@.len() as int) + remaining@,
            forall|i: int| 0 <= i < envelopes@.len() ==> all[i] is Ok,
            forall|i: int| 0 <= i < envelopes@.len() ==> envelopes@[i] == all[i]->Ok_0,
        decreases remaining@.len(),
    {
        let ghost k = envelopes@.len() as int;
        let outcome = remaining.remove(0);
        proof {
            assert(all[k] == outcome);
            assert(all.take(k + 1) =~= all.take(k).push(outcome));
        }
        match outcome {
            Ok(envelope) => {
                envelopes.push(envelope);
                proof {
                    assert(all =~= all.take(k + 1) + remaining@);
                }
            },
            Err(e) => {
                proof {
                    lemma_first_failure_at(all, k);
                }
                return Err(e);
            },
        }
    }
    proof {
        assert(all =~= all.take(envelopes@.len() as int));
        assert(forall|i: int| 0 <= i < all.len() ==> all[i] is Ok);
        lemma_first_failure_at(all, all.len() as int);
    }
    Ok(envelopes)
}

} // verus!
