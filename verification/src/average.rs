//! Multi-round averaging of conversion readings.
//!
//! A round counts only when it classifies `Valid`; suspect and invalid
//! rounds are silently discarded and retried. The accumulator carries the
//! raw Q21.10 sum, so the arithmetic mean of the valid readings is
//! `sum_raw / (1024 * rounds)` degrees Celsius, computed by the caller in
//! whatever numeric type it prefers.

use crate::reading::{reading_in_range, LTC2983Result};
use vstd::prelude::*;

verus! {

/// Whether a round's reading counts towards the average.
pub open spec fn outcome_valid(o: LTC2983Result) -> bool {
    o is Valid
}

/// The raw temperature a valid reading contributes; 0 otherwise.
pub open spec fn outcome_value(o: LTC2983Result) -> int {
    match o {
        LTC2983Result::Valid(v) => v as int,
        _ => 0,
    }
}

/// How many readings of a sequence of round outcomes are valid.
pub open spec fn valid_count(s: Seq<LTC2983Result>) -> nat
    decreases s.len(),
{
    if s.len() == 0 {
        0
    } else {
        valid_count(s.drop_last()) + (if outcome_valid(s.last()) {
            1nat
        } else {
            0nat
        })
    }
}

/// The sum of the raw temperatures of the valid readings in a sequence of
/// round outcomes.
pub open spec fn valid_sum(s: Seq<LTC2983Result>) -> int
    decreases s.len(),
{
    if s.len() == 0 {
        0
    } else {
        valid_sum(s.drop_last()) + (if outcome_valid(s.last()) {
            outcome_value(s.last())
        } else {
            0
        })
    }
}

proof fn lemma_valid_take_succ(s: Seq<LTC2983Result>, i: int)
    requires
        0 <= i < s.len(),
    ensures
        valid_count(s.take(i + 1)) == valid_count(s.take(i)) + (if outcome_valid(s[i]) {
            1nat
        } else {
            0nat
        }),
        valid_sum(s.take(i + 1)) == valid_sum(s.take(i)) + (if outcome_valid(s[i]) {
            outcome_value(s[i])
        } else {
            0
        }),
{
    assert(s.take(i + 1).drop_last() =~= s.take(i));
    assert(s.take(i + 1).last() == s[i]);
}

/// A prefix never holds more valid readings than the whole sequence.
proof fn lemma_valid_count_prefix(s: Seq<LTC2983Result>, i: int)
    requires
        0 <= i <= s.len(),
    ensures
        valid_count(s.take(i)) <= valid_count(s),
    decreases s.len() - i,
{
    if i < s.len() {
        lemma_valid_take_succ(s, i);
        lemma_valid_count_prefix(s, i + 1);
    } else {
        assert(s.take(i) =~= s);
    }
}

/// The accumulated outcome of single-channel averaging: the raw Q21.10 sum
/// of the valid readings of `rounds` rounds.
pub struct TemperatureAverage {
    pub sum_raw: i64,
    pub rounds: usize,
}

/// The accumulated outcome of multi-channel averaging: one raw Q21.10 sum
/// per requested channel, over `rounds` all-valid rounds.
pub struct MultiTemperatureAverage {
    pub sums_raw: Vec<i64>,
    pub rounds: usize,
}

/// Run the averaging consumption rule over a scripted sequence of round
/// outcomes: rounds are consumed in order, a valid round adds its raw
/// temperature to the sum, any other round is discarded, and consumption
/// stops as soon as `target` valid rounds have been taken. Returns the sum
/// of exactly those valid readings and the number of rounds consumed, or
/// `None` when the script holds fewer than `target` valid rounds.
pub fn average_outcomes(outcomes: &Vec<LTC2983Result>, target: usize) -> (r: Option<(i64, usize)>)
    requires
        outcomes@.len() <= 0x4000_0000,
        forall|k: int| 0 <= k < outcomes@.len() ==> reading_in_range(#[trigger] outcomes@[k]),
    ensures
        r is Some <==> valid_count(outcomes@) >= target,
        r matches Some(pair) ==> {
            &&& pair.1 <= outcomes@.len()
            &&& valid_count(outcomes@.take(pair.1 as int)) == target
            &&& pair.0 as int == valid_sum(outcomes@.take(pair.1 as int))
            &&& (pair.1 > 0 ==> outcome_valid(outcomes@[pair.1 as int - 1]))
        },
{
    let mut i: usize = 0;
    let mut count: usize = 0;
    let mut sum: i64 = 0;
    while i < outcomes.len() && count < target
        invariant
            i <= outcomes@.len(),
            outcomes@.len() <= 0x4000_0000,
            forall|k: int| 0 <= k < outcomes@.len() ==> reading_in_range(#[trigger] outcomes@[k]),
            count <= i,
            count <= target,
            count == valid_count(outcomes@.take(i as int)),
            sum as int == valid_sum(outcomes@.take(i as int)),
            -(count as int) * 0x800000 <= sum as int <= (count as int) * 0x800000,
            target == 0 ==> i == 0,
            (target > 0 && count == target) ==> (i > 0 && outcome_valid(
                outcomes@[i as int - 1],
            )),
        decreases outcomes@.len() - i,
    {
        proof {
            lemma_valid_take_succ(outcomes@, i as int);
        }
        match &outcomes[i] {
            LTC2983Result::Valid(v) => {
                sum = sum + (*v as i64);
                count = count + 1;
            },
            _ => {},
        }
        i = i + 1;
    }
    if count >= target {
        proof {
            lemma_valid_count_prefix(outcomes@, i as int);
        }
        Some((sum, i))
    } else {
        proof {
            assert(outcomes@.take(i as int) =~= outcomes@);
        }
        None
    }
}

/// Whether one channel's entry of a multi-channel round counts as valid.
pub open spec fn round_entry_valid<T>(e: Result<LTC2983Result, T>) -> bool {
    match e {
        Ok(res) => outcome_valid(res),
        Err(_) => false,
    }
}

/// The raw temperature one channel's entry contributes; 0 otherwise.
pub open spec fn round_entry_value<T>(e: Result<LTC2983Result, T>) -> int {
    match e {
        Ok(res) => outcome_value(res),
        Err(_) => 0,
    }
}

/// Fold one multi-channel round into the per-channel accumulators. Only a
/// round in which every channel delivered a valid reading is taken; any
/// bus error, suspect or invalid reading discards the whole round and
/// leaves the accumulators untouched.
pub fn accumulate_round<T>(sums: &mut Vec<i64>, outcomes: &Vec<Result<LTC2983Result, T>>) -> (ok:
    bool)
    requires
        old(sums)@.len() == outcomes@.len(),
        forall|k: int| 0 <= k < outcomes@.len() ==> (#[trigger] outcomes@[k] matches Ok(res)
            ==> reading_in_range(res)),
        forall|k: int|
            0 <= k < old(sums)@.len() ==> -0x40_0000_0000_0000 <= #[trigger] old(sums)@[k]
                <= 0x40_0000_0000_0000,
    ensures
        final(sums)@.len() == old(sums)@.len(),
        ok <==> (forall|k: int| 0 <= k < outcomes@.len() ==> round_entry_valid(
            #[trigger] outcomes@[k],
        )),
        ok ==> (forall|k: int|
            0 <= k < outcomes@.len() ==> #[trigger] final(sums)@[k] == old(sums)@[k]
                + round_entry_value(outcomes@[k])),
        !ok ==> final(sums)@ == old(sums)@,
{
    let mut k: usize = 0;
    while k < outcomes.len()
        invariant
            k <= outcomes@.len(),
            forall|j: int| 0 <= j < k ==> round_entry_valid(#[trigger] outcomes@[j]),
        decreases outcomes@.len() - k,
    {
        match &outcomes[k] {
            Ok(res) => match res {
                LTC2983Result::Valid(_) => {},
                _ => {
                    return false;
                },
            },
            Err(_) => {
                return false;
            },
        }
        k = k + 1;
    }
    let mut updated: Vec<i64> = Vec::new();
    let mut j: usize = 0;
    while j < outcomes.len()
        invariant
            j <= outcomes@.len(),
            outcomes@.len() == sums@.len(),
            updated@.len() == j,
            forall|m: int| 0 <= m < outcomes@.len() ==> round_entry_valid(#[trigger] outcomes@[m]),
            forall|m: int| 0 <= m < outcomes@.len() ==> (#[trigger] outcomes@[m] matches Ok(res)
                ==> reading_in_range(res)),
            forall|m: int|
                0 <= m < sums@.len() ==> -0x40_0000_0000_0000 <= #[trigger] sums@[m]
                    <= 0x40_0000_0000_0000,
            forall|m: int|
                0 <= m < j ==> #[trigger] updated@[m] == sums@[m] + round_entry_value(
                    outcomes@[m],
                ),
        decreases outcomes@.len() - j,
    {
        let add: i64 = match &outcomes[j] {
            Ok(res) => match res {
                LTC2983Result::Valid(v) => *v as i64,
                _ => 0,
            },
            Err(_) => 0,
        };
        updated.push(sums[j] + add);
        j = j + 1;
    }
    *sums = updated;
    true
}


/// Appending a reading extends the valid count and sum by that reading's
/// contribution.
pub(crate) proof fn lemma_valid_push(s: Seq<LTC2983Result>, v: LTC2983Result)
    ensures
        valid_count(s.push(v)) == valid_count(s) + (if outcome_valid(v) {
            1nat
        } else {
            0nat
        }),
        valid_sum(s.push(v)) == valid_sum(s) + (if outcome_valid(v) {
            outcome_value(v)
        } else {
            0
        }),
{
    assert(s.push(v).drop_last() =~= s);
    assert(s.push(v).last() == v);
}

/// A complete set of accepted single-channel rounds: exactly `rounds`
/// readings, every one of them valid and in range, whose sum of raw
/// temperatures is `total`.
pub open spec fn accepted_rounds(s: Seq<LTC2983Result>, rounds: int, total: int) -> bool {
    &&& s.len() == rounds
    &&& valid_count(s) == rounds
    &&& (forall|i: int|
        0 <= i < s.len() ==> outcome_valid(#[trigger] s[i]) && reading_in_range(s[i]))
    &&& valid_sum(s) == total
}

/// The raw-temperature total of channel (column) `j` over a set of
/// multi-channel rounds.
pub open spec fn column_sum(s: Seq<Seq<LTC2983Result>>, j: int) -> int
    decreases s.len(),
{
    if s.len() == 0 {
        0
    } else {
        column_sum(s.drop_last(), j) + outcome_value(s.last()[j])
    }
}

/// Appending a round extends every column total by that round's reading.
pub(crate) proof fn lemma_column_sum_push(s: Seq<Seq<LTC2983Result>>, row: Seq<LTC2983Result>, j: int)
    ensures
        column_sum(s.push(row), j) == column_sum(s, j) + outcome_value(row[j]),
{
    assert(s.push(row).drop_last() =~= s);
    assert(s.push(row).last() == row);
}

/// A complete set of accepted multi-channel rounds: exactly `rounds` rounds
/// of `width` readings each, every reading valid and in range, with the
/// per-channel column totals equal to `totals`.
pub open spec fn accepted_multi_rounds(
    s: Seq<Seq<LTC2983Result>>,
    width: int,
    rounds: int,
    totals: Seq<i64>,
) -> bool {
    &&& s.len() == rounds
    &&& totals.len() == width
    &&& (forall|i: int| 0 <= i < s.len() ==> (#[trigger] s[i]).len() == width)
    &&& (forall|i: int, j: int|
        0 <= i < s.len() && 0 <= j < width ==> outcome_valid(#[trigger] s[i][j])
            && reading_in_range(s[i][j]))
    &&& (forall|j: int| 0 <= j < width ==> totals[j] == #[trigger] column_sum(s, j))
}

/// Fold one single-channel round into the accumulator: only a valid
/// reading is taken and adds its raw temperature; a suspect or invalid
/// reading, or a failed result read, leaves the sum untouched.
pub fn accumulate_reading<T>(sum_raw: &mut i64, outcome: &Result<LTC2983Result, T>) -> (taken:
    bool)
    requires
        -0x40_0000_0000_0000 <= *old(sum_raw) <= 0x40_0000_0000_0000,
        *outcome matches Ok(res) ==> reading_in_range(res),
    ensures
        taken <==> round_entry_valid(*outcome),
        taken ==> *final(sum_raw) == *old(sum_raw) + round_entry_value(*outcome),
        !taken ==> *final(sum_raw) == *old(sum_raw),
{
    match outcome {
        Ok(res) => match res {
            LTC2983Result::Valid(v) => {
                *sum_raw = *sum_raw + (*v as i64);
                true
            },
            _ => false,
        },
        Err(_) => false,
    }
}

} // verus!
