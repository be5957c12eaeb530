//! The bookkeeping of the run history that the report shows: which run logs
//! to keep, and how a run is labelled.
use vstd::prelude::*;

verus! {

/// Whether run `j` comes before run `i` in newest-first order: a higher run
/// number, or the same number and an earlier place in the listing.
pub open spec fn outranks(nums: Seq<u64>, j: int, i: int) -> bool {
    nums[j] > nums[i] || (nums[j] == nums[i] && j < i)
}

/// How many of the first `n` runs come before run `i`.
pub open spec fn count_ahead(nums: Seq<u64>, i: int, n: int) -> nat
    decreases n,
{
    if n <= 0 {
        0
    } else {
        count_ahead(nums, i, n - 1) + if outranks(nums, n - 1, i) {
            1nat
        } else {
            0nat
        }
    }
}

/// The place of run `i` in newest-first order, from 0.
pub open spec fn rank(nums: Seq<u64>, i: int) -> nat {
    count_ahead(nums, i, nums.len() as int)
}

/// Of the runs with numbers `nums`, which ones fall outside the newest
/// `keep`: `r[i]` holds exactly when run `i` is not among them.
pub fn stale_runs(nums: &Vec<u64>, keep: usize) -> (r: Vec<bool>)
    ensures
        r@.len() == nums@.len(),
        forall|i: int| 0 <= i < nums@.len() ==> r@[i] == (rank(nums@, i) >= keep),
{
    let mut r: Vec<bool> = Vec::new();
    let mut i: usize = 0;
    while i < nums.len()
        invariant
            i <= nums@.len(),
            r@.len() == i,
            forall|k: int| 0 <= k < i ==> r@[k] == (rank(nums@, k) >= keep),
        decreases nums.len() - i,
    {
        let mut ahead: usize = 0;
        let mut j: usize = 0;
        while j < nums.len()
            invariant
                i < nums@.len(),
                j <= nums@.len(),
                ahead as nat == count_ahead(nums@, i as int, j as int),
                ahead <= j,
            decreases nums.len() - j,
        {
            if nums[j] > nums[i] || (nums[j] == nums[i] && j < i) {
                ahead = ahead + 1;
            }
            j = j + 1;
        }
        r.push(ahead >= keep);
        i = i + 1;
    }
    r
}

/// Whether `s` holds two dashes in a row starting at `i`.
pub open spec fn dashes_at(s: Seq<char>, i: int) -> bool {
    0 <= i && i + 1 < s.len() && s[i] == '-' && s[i + 1] == '-'
}

/// Whether `s` holds two dashes in a row.
pub open spec fn has_dashes(s: Seq<char>) -> bool {
    exists|i: int| dashes_at(s, i)
}

/// Relies on `str::split_once`: splits `s` around the first `--`, or gives
/// `None` when `s` holds none.
#[verifier::external_body]
fn split_at_dashes(s: &str) -> (r: Option<(&str, &str)>)
    ensures
        r is None <==> !has_dashes(s@),
        r matches Some(p) ==> s@ == p.0@ + seq!['-', '-'] + p.1@ && !has_dashes(p.0@.push('-')),
{
    s.split_once("--")
}

/// Relies on `str::strip_suffix`: `s` without a trailing `.txt`, or `None`
/// when it does not end with one.
#[verifier::external_body]
fn strip_txt(s: &str) -> (r: Option<&str>)
    ensures
        r is None <==> !(s@.len() >= 4 && s@.subrange(s@.len() - 4, s@.len() as int)
            == ".txt"@),
        r matches Some(x) ==> s@ == x@ + ".txt"@,
{
    s.strip_suffix(".txt")
}

/// A run log's file name without its `.txt` extension.
pub open spec fn stem(name: Seq<char>) -> Seq<char> {
    if name.len() >= 4 && name.subrange(name.len() - 4, name.len() as int) == ".txt"@ {
        name.subrange(0, name.len() - 4)
    } else {
        name
    }
}

/// Whether the first two dashes in a row in `s` start at `k`.
pub open spec fn first_dashes(s: Seq<char>, k: int) -> bool {
    dashes_at(s, k) && forall|j: int| 0 <= j < k ==> !dashes_at(s, j)
}

/// The label of a run log named `run-<number>--<date>.txt`: the file name
/// without its extension, with what follows the first `--` in parentheses.
pub fn run_label(file_name: &str) -> (r: String)
    ensures
        !has_dashes(stem(file_name@)) ==> r@ == stem(file_name@),
        forall|k: int|
            first_dashes(stem(file_name@), k) ==> r@ == stem(file_name@).subrange(0, k) + " ("@
                + stem(file_name@).subrange(k + 2, stem(file_name@).len() as int) + ")"@,
{
    proof {
        reveal_strlit(".txt");
    }
    let base = match strip_txt(file_name) {
        Some(x) => {
            assert(file_name@.subrange(0, file_name@.len() - 4) =~= x@);
            x
        },
        None => file_name,
    };
    let ghost s = stem(file_name@);
    assert(base@ == s);
    match split_at_dashes(base) {
        Some((run, date)) => {
            let mut label = run.to_string();
            label.append(" (");
            label.append(date);
            label.append(")");
            proof {
                let k = run@.len() as int;
                assert(s[k] == '-' && s[k + 1] == '-');
                assert(dashes_at(s, k));
                assert forall|j: int| 0 <= j < k implies !dashes_at(s, j) by {
                    if dashes_at(s, j) {
                        assert(dashes_at(run@.push('-'), j));
                    }
                }
                assert forall|k2: int| first_dashes(s, k2) implies k2 == k by {
                    if k2 < k {
                        assert(!dashes_at(s, k2));
                    } else if k2 > k {
                        assert(!dashes_at(s, k));
                    }
                }
                assert(s.subrange(0, k) =~= run@);
                assert(s.subrange(k + 2, s.len() as int) =~= date@);
            }
            label
        },
        None => base.to_string(),
    }
}

} // verus!
