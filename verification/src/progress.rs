//! Progress: how far the copy into one destination has come, as the copy
//! worker reports it to the display.

use vstd::prelude::*;
use vstd::arithmetic::div_mod::{lemma_div_is_ordered, lemma_div_multiples_vanish};

verus! {

/// The share of `total` bytes that `copied` bytes are, in whole percent and
/// never above 100. An empty source is either untouched or done.
pub open spec fn percentage_of(copied: nat, total: nat) -> nat {
    if total == 0 {
        if copied == 0 {
            0
        } else {
            100
        }
    } else if copied * 100 / total >= 100 {
        100
    } else {
        copied * 100 / total
    }
}

/// The share of `total` bytes that `copied` bytes are, in whole percent.
pub fn percentage(copied: u64, total: u64) -> (percent: usize)
    ensures
        percent == percentage_of(copied as nat, total as nat),
        percent <= 100,
{
    if total == 0 {
        if copied == 0 {
            0
        } else {
            100
        }
    } else {
        let share: u128 = (copied as u128) * 100 / (total as u128);
        if share >= 100 {
            100
        } else {
            share as usize
        }
    }
}

/// One progress report: the bytes copied into a destination so far, the
/// share of the source that they are, and the destination they went to.
#[derive(Debug)]
pub struct CopyingState {
    pub bytes_copied: u64,
    pub percentage: usize,
    pub destination: String,
}

/// A progress report as plain values.
pub struct CopyingStateView {
    pub bytes_copied: nat,
    pub percentage: nat,
    pub destination: Seq<char>,
}

impl View for CopyingState {
    type V = CopyingStateView;

    open spec fn view(&self) -> CopyingStateView {
        CopyingStateView {
            bytes_copied: self.bytes_copied as nat,
            percentage: self.percentage as nat,
            destination: self.destination@,
        }
    }
}

impl Clone for CopyingState {
    fn clone(&self) -> (state: CopyingState)
        ensures
            state == *self,
    {
        CopyingState {
            bytes_copied: self.bytes_copied,
            percentage: self.percentage,
            destination: self.destination.clone(),
        }
    }
}

impl CopyingState {
    /// A report is well formed when its percentage is one: at most 100.
    pub open spec fn wf(&self) -> bool {
        self.percentage <= 100
    }

    /// The report for `bytes_copied` bytes out of `total_bytes`, copied into
    /// `destination`.
    pub fn new(bytes_copied: u64, total_bytes: u64, destination: String) -> (state: CopyingState)
        ensures
            state.bytes_copied == bytes_copied,
            state.percentage == percentage_of(bytes_copied as nat, total_bytes as nat),
            state.destination == destination,
            state.wf(),
    {
        CopyingState { bytes_copied, percentage: percentage(bytes_copied, total_bytes), destination }
    }
}

/// The percentage never falls while the bytes copied grow.
pub proof fn lemma_percentage_monotonic(earlier: nat, later: nat, total: nat)
    requires
        earlier <= later,
    ensures
        percentage_of(earlier, total) <= percentage_of(later, total),
{
    if total > 0 {
        lemma_div_is_ordered(earlier as int * 100, later as int * 100, total as int);
    }
}

/// The percentage starts at 0, stays within 100, and is 100 once every byte
/// of a source that has any is copied.
pub proof fn lemma_percentage_range(copied: nat, total: nat)
    ensures
        percentage_of(0, total) == 0,
        percentage_of(copied, total) <= 100,
        total > 0 && copied >= total ==> percentage_of(copied, total) == 100,
        total > 0 && copied < total ==> percentage_of(copied, total) < 100,
{
    if total > 0 {
        assert(0int * 100 / total as int == 0) by {
            lemma_div_multiples_vanish(0, total as int);
        }
        if copied >= total {
            lemma_div_is_ordered(total as int * 100, copied as int * 100, total as int);
            assert(total as int * 100 / total as int == 100) by {
                lemma_div_multiples_vanish(100, total as int);
            }
        } else {
            vstd::arithmetic::div_mod::lemma_multiply_divide_lt(
                copied as int * 100,
                total as int,
                100,
            );
        }
    }
}

} // verus!
