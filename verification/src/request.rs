//! Planning of remote lookups: the canonical pull-request URL and one
//! request per published change.

use vstd::prelude::*;
use vstd::string::StringExecFns;

verus! {

/// The character for one decimal digit value.
pub open spec fn spec_digit_char(d: nat) -> char {
    if d == 0 {
        '0'
    } else if d == 1 {
        '1'
    } else if d == 2 {
        '2'
    } else if d == 3 {
        '3'
    } else if d == 4 {
        '4'
    } else if d == 5 {
        '5'
    } else if d == 6 {
        '6'
    } else if d == 7 {
        '7'
    } else if d == 8 {
        '8'
    } else {
        '9'
    }
}

/// The usual decimal rendering of a number: most significant digit first,
/// no leading zero except for the number zero itself.
pub open spec fn spec_decimal(n: nat) -> Seq<char>
    decreases n,
{
    if n < 10 {
        seq![spec_digit_char(n)]
    } else {
        spec_decimal(n / 10) + seq![spec_digit_char(n % 10)]
    }
}

fn digit_str(d: u64) -> (s: &'static str)
    requires
        d < 10,
    ensures
        s@ =~= seq![spec_digit_char(d as nat)],
{
    proof {
        reveal_strlit("0");
        reveal_strlit("1");
        reveal_strlit("2");
        reveal_strlit("3");
        reveal_strlit("4");
        reveal_strlit("5");
        reveal_strlit("6");
        reveal_strlit("7");
        reveal_strlit("8");
        reveal_strlit("9");
    }
    if d == 0 {
        "0"
    } else if d == 1 {
        "1"
    } else if d == 2 {
        "2"
    } else if d == 3 {
        "3"
    } else if d == 4 {
        "4"
    } else if d == 5 {
        "5"
    } else if d == 6 {
        "6"
    } else if d == 7 {
        "7"
    } else if d == 8 {
        "8"
    } else {
        "9"
    }
}

/// The digit characters of `digits`, highest-index digit first.
spec fn spec_digits_reversed(digits: Seq<u64>) -> Seq<char> {
    Seq::new(digits.len(), |i: int| spec_digit_char(digits[digits.len() - 1 - i] as nat))
}

/// Renders a number in decimal, most significant digit first.
pub fn decimal_string(n: u64) -> (s: String)
    ensures
        s@ == spec_decimal(n as nat),
{
    let mut digits: Vec<u64> = Vec::new();
    let mut m: u64 = n;
    proof {
        assert(spec_digits_reversed(digits@) =~= Seq::<char>::empty());
        assert(spec_decimal(n as nat) =~= spec_decimal(n as nat) + spec_digits_reversed(digits@));
    }
    loop
        invariant_except_break
            spec_decimal(n as nat) == spec_decimal(m as nat) + spec_digits_reversed(digits@),
            forall|j: int| 0 <= j < digits@.len() ==> digits@[j] < 10,
        ensures
            spec_decimal(n as nat) == spec_digits_reversed(digits@),
            forall|j: int| 0 <= j < digits@.len() ==> digits@[j] < 10,
        decreases m,
    {
        let ghost before = digits@;
        let d = m % 10;
        digits.push(d);
        proof {
            assert(digits@.drop_last() =~= before);
            assert(spec_digits_reversed(digits@) =~= seq![spec_digit_char(d as nat)]
                + spec_digits_reversed(before));
        }
        if m < 10 {
            proof {
                assert(spec_decimal(m as nat) =~= seq![spec_digit_char(d as nat)]);
                assert(spec_decimal(n as nat) =~= spec_digits_reversed(digits@));
            }
            break;
        }
        proof {
            assert(spec_decimal(m as nat) =~= spec_decimal((m / 10) as nat)
                + seq![spec_digit_char(d as nat)]);
            assert(spec_decimal(n as nat) =~= spec_decimal((m / 10) as nat)
                + spec_digits_reversed(digits@));
        }
        m = m / 10;
    }
    let ghost all = digits@;
    let mut s = String::new();
    proof {
        assert(spec_digits_reversed(all).take(0) =~= Seq::<char>::empty());
    }
    let mut i: usize = digits.len();
    while i > 0
        invariant
            i <= digits@.len(),
            digits@ == all,
            forall|j: int| 0 <= j < all.len() ==> all[j] < 10,
            s@ == spec_digits_reversed(all).take(all.len() - i),
        decreases i,
    {
        i = i - 1;
        s.append(digit_str(digits[i]));
        proof {
            assert(s@ =~= spec_digits_reversed(all).take(all.len() - i));
        }
    }
    proof {
        assert(spec_digits_reversed(all).take(all.len() as int) =~= spec_digits_reversed(all));
        assert(s@ =~= spec_decimal(n as nat));
    }
    s
}

/// The canonical URL of a pull request on the remote service.
pub open spec fn spec_pull_request_url(owner: Seq<char>, repo: Seq<char>, number: nat) -> Seq<char> {
    "https://github.com/"@ + owner + "/"@ + repo + "/pull/"@ + spec_decimal(number)
}

/// One planned remote lookup, pointing at the canonical pull-request URL.
pub struct LookupRequest {
    pub url: String,
}

/// A batched review-status query against one remote repository.
pub struct LookupReview {
    /// Owner of the remote repository.
    pub owner: String,
    /// Name of the remote repository.
    pub repo: String,
}

impl LookupReview {
    pub fn new(owner: String, repo: String) -> (q: Self)
        ensures
            q.owner@ == owner@,
            q.repo@ == repo@,
    {
        LookupReview { owner, repo }
    }

    /// The canonical URL of one pull request of the configured repository.
    pub fn request_url(&self, number: u64) -> (url: String)
        ensures
            url@ == spec_pull_request_url(self.owner@, self.repo@, number as nat),
    {
        let digits = decimal_string(number);
        let mut url = String::from_str("https://github.com/");
        url.append(self.owner.as_str());
        url.append("/");
        url.append(self.repo.as_str());
        url.append("/pull/");
        url.append(digits.as_str());
        url
    }

    /// One lookup request per pull-request number, in input order.
    pub fn requests(&self, numbers: &Vec<u64>) -> (reqs: Vec<LookupRequest>)
        ensures
            reqs@.len() == numbers@.len(),
            forall|i: int|
                0 <= i < numbers@.len() ==> reqs@[i].url@ == spec_pull_request_url(
                    self.owner@,
                    self.repo@,
                    numbers@[i] as nat,
                ),
    {
        let mut reqs: Vec<LookupRequest> = Vec::new();
        let mut i: usize = 0;
        while i < numbers.len()
            invariant
                i <= numbers@.len(),
                reqs@.len() == i,
                forall|j: int|
                    0 <= j < i ==> reqs@[j].url@ == spec_pull_request_url(
                        self.owner@,
                        self.repo@,
                        numbers@[j] as nat,
                    ),
            decreases numbers@.len() - i,
        {
            let url = self.request_url(numbers[i]);
            reqs.push(LookupRequest { url });
            i = i + 1;
        }
        reqs
    }
}

} // verus!
