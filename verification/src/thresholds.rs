//! The warnings of a grace period: how much time is announced as left.

use vstd::prelude::*;

verus! {

/// The announced amounts of time, in seconds, in ascending order.
pub open spec fn threshold_table() -> Seq<u64> {
    seq![60, 120, 180, 240, 300, 600, 900, 1800, 3600, 7200]
}

/// The threshold that announces `seconds_until`: the smallest entry of the
/// table above it, and the largest entry where none is above it.
pub open spec fn closest_threshold(seconds_until: u64) -> u64 {
    if seconds_until < 60 {
        60
    } else if seconds_until < 120 {
        120
    } else if seconds_until < 180 {
        180
    } else if seconds_until < 240 {
        240
    } else if seconds_until < 300 {
        300
    } else if seconds_until < 600 {
        600
    } else if seconds_until < 900 {
        900
    } else if seconds_until < 1800 {
        1800
    } else if seconds_until < 3600 {
        3600
    } else {
        7200
    }
}

/// `t` is the entry of `table` that announces `seconds_until`.
pub open spec fn announces(table: Seq<u64>, t: u64, seconds_until: u64) -> bool {
    &&& table.contains(t)
    &&& if exists|i: int| 0 <= i < table.len() && table[i] > seconds_until {
        &&& t > seconds_until
        &&& forall|i: int| 0 <= i < table.len() && table[i] > seconds_until ==> t <= table[i]
    } else {
        t == table.last()
    }
}

/// The closest threshold is the smallest entry of the table above the
/// seconds that are left, and the largest entry where none is above them.
pub proof fn lemma_closest_threshold_announces(seconds_until: u64)
    ensures
        announces(threshold_table(), closest_threshold(seconds_until), seconds_until),
{
    let table = threshold_table();
    let t = closest_threshold(seconds_until);
    let i: int = if seconds_until < 60 {
        0
    } else if seconds_until < 120 {
        1
    } else if seconds_until < 180 {
        2
    } else if seconds_until < 240 {
        3
    } else if seconds_until < 300 {
        4
    } else if seconds_until < 600 {
        5
    } else if seconds_until < 900 {
        6
    } else if seconds_until < 1800 {
        7
    } else if seconds_until < 3600 {
        8
    } else {
        9
    };
    assert(table[i] == t);
}

/// The threshold that announces `seconds_until` seconds.
pub fn threshold_for(seconds_until: u64) -> (t: u64)
    ensures
        t == closest_threshold(seconds_until),
        announces(threshold_table(), t, seconds_until),
{
    let table: [u64; 10] = [60, 120, 180, 240, 300, 600, 900, 1800, 3600, 7200];
    assert(table@ =~= threshold_table());
    let mut i: usize = 0;
    while i < 10
        invariant
            i <= 10,
            table@ == threshold_table(),
            forall|j: int| 0 <= j < i ==> table@[j] <= seconds_until,
        decreases 10 - i,
    {
        if table[i] > seconds_until {
            assert(threshold_table()[i as int] == table@[i as int]);
            assert(threshold_table().contains(table@[i as int]));
            return table[i];
        }
        i += 1;
    }
    assert(threshold_table()[9] == 7200);
    assert(threshold_table().contains(7200u64));
    table[9]
}

/// How the threshold `threshold` is called in a warning.
pub open spec fn threshold_label(threshold: u64) -> Seq<char> {
    if threshold <= 60 {
        "1 minute"@
    } else if threshold <= 120 {
        "2 minutes"@
    } else if threshold <= 180 {
        "3 minutes"@
    } else if threshold <= 240 {
        "4 minutes"@
    } else if threshold <= 300 {
        "5 minutes"@
    } else if threshold <= 600 {
        "10 minutes"@
    } else if threshold <= 900 {
        "15 minutes"@
    } else if threshold <= 1800 {
        "30 minutes"@
    } else if threshold <= 3600 {
        "1 hour"@
    } else {
        "2 hours"@
    }
}

/// The name of `threshold` in a warning.
pub fn label_for(threshold: u64) -> (label: &'static str)
    ensures
        label@ == threshold_label(threshold),
{
    if threshold <= 60 {
        "1 minute"
    } else if threshold <= 120 {
        "2 minutes"
    } else if threshold <= 180 {
        "3 minutes"
    } else if threshold <= 240 {
        "4 minutes"
    } else if threshold <= 300 {
        "5 minutes"
    } else if threshold <= 600 {
        "10 minutes"
    } else if threshold <= 900 {
        "15 minutes"
    } else if threshold <= 1800 {
        "30 minutes"
    } else if threshold <= 3600 {
        "1 hour"
    } else {
        "2 hours"
    }
}

} // verus!
