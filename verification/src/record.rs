//! Locally tracked change records and the filter that selects the published
//! ones for remote lookup.

use vstd::prelude::*;

verus! {

/// One tracked local change. The pull-request number is absent until the
/// change has been published to the remote review service.
pub struct LocalChangeRecord {
    /// Stable identifier of the change on the local side.
    pub local_id: u64,
    /// Remote pull-request number, if the change has been published.
    pub pull_request_number: Option<u64>,
}

/// The pull-request numbers of the published records, in input order.
pub open spec fn spec_pull_request_numbers(records: Seq<LocalChangeRecord>) -> Seq<u64>
    decreases records.len(),
{
    if records.len() == 0 {
        Seq::empty()
    } else {
        match records[0].pull_request_number {
            Some(n) => seq![n] + spec_pull_request_numbers(records.drop_first()),
            None => spec_pull_request_numbers(records.drop_first()),
        }
    }
}

proof fn lemma_spec_pull_request_numbers_snoc(records: Seq<LocalChangeRecord>, r: LocalChangeRecord)
    ensures
        spec_pull_request_numbers(records.push(r)) == match r.pull_request_number {
            Some(n) => spec_pull_request_numbers(records).push(n),
            None => spec_pull_request_numbers(records),
        },
    decreases records.len(),
{
    let whole = records.push(r);
    if records.len() == 0 {
        assert(whole[0] == r);
        assert(whole.drop_first() =~= Seq::<LocalChangeRecord>::empty());
        assert(spec_pull_request_numbers(Seq::<LocalChangeRecord>::empty())
            =~= Seq::<u64>::empty());
        match r.pull_request_number {
            Some(n) => {
                assert(spec_pull_request_numbers(whole) =~= seq![n]);
                assert(spec_pull_request_numbers(records).push(n) =~= seq![n]);
            },
            None => {
                assert(spec_pull_request_numbers(whole) =~= Seq::<u64>::empty());
            },
        }
    } else {
        assert(whole.drop_first() =~= records.drop_first().push(r));
        lemma_spec_pull_request_numbers_snoc(records.drop_first(), r);
        match r.pull_request_number {
            Some(n) => {
                match records[0].pull_request_number {
                    Some(m) => {
                        assert(spec_pull_request_numbers(whole) =~= seq![m]
                            + spec_pull_request_numbers(records.drop_first()).push(n));
                        assert(spec_pull_request_numbers(records).push(n) =~= seq![m]
                            + spec_pull_request_numbers(records.drop_first()).push(n));
                    },
                    None => {},
                }
            },
            None => {},
        }
    }
}

/// Filters the ordered records down to those that already carry a remote
/// pull-request number, keeping the input order.
pub fn pull_request_numbers(records: &Vec<LocalChangeRecord>) -> (numbers: Vec<u64>)
    ensures
        numbers@ == spec_pull_request_numbers(records@),
{
    let mut numbers: Vec<u64> = Vec::new();
    let mut i: usize = 0;
    while i < records.len()
        invariant
            i <= records@.len(),
            numbers@ == spec_pull_request_numbers(records@.take(i as int)),
        decreases records@.len() - i,
    {
        proof {
            assert(records@.take(i + 1) =~= records@.take(i as int).push(records@[i as int]));
            lemma_spec_pull_request_numbers_snoc(records@.take(i as int), records@[i as int]);
        }
        match records[i].pull_request_number {
            Some(n) => numbers.push(n),
            None => {},
        }
        i = i + 1;
    }
    proof {
        assert(records@.take(records@.len() as int) =~= records@);
    }
    numbers
}

} // verus!
