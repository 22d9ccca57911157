use vstd::prelude::*;

use crate::measurement::Dht22Measurement;

verus! {

/// Watering interval, in seconds, when the temperature exceeds no breakpoint.
pub const WATERING_INTERVAL_DEFAULT_S: u32 = 10800;

/// The breakpoint at position `i` of the schedule: a temperature threshold in
/// tenths of a degree Celsius, and the watering interval in seconds that
/// applies once the temperature is strictly above it.
pub open spec fn spec_breakpoint(i: int) -> (i32, u32) {
    if i == 0 {
        (50, 10800)
    } else if i == 1 {
        (100, 7200)
    } else if i == 2 {
        (150, 5400)
    } else if i == 3 {
        (200, 3600)
    } else if i == 4 {
        (250, 1800)
    } else {
        (300, 900)
    }
}

/// The schedule, in ascending order of threshold.
pub open spec fn spec_breakpoints() -> Seq<(i32, u32)> {
    Seq::new(6, |i: int| spec_breakpoint(i))
}

/// The interval of the last breakpoint of `table` whose threshold lies
/// strictly below `temp`, or `default` where there is none.
pub open spec fn interval_of(table: Seq<(i32, u32)>, default: u32, temp: int) -> u32
    decreases table.len(),
{
    if table.len() == 0 {
        default
    } else if (table.last().0 as int) < temp {
        table.last().1
    } else {
        interval_of(table.drop_last(), default, temp)
    }
}

/// The watering interval that the schedule gives for a temperature in tenths
/// of a degree Celsius.
pub open spec fn spec_interval_for(temp: int) -> u32 {
    interval_of(spec_breakpoints(), WATERING_INTERVAL_DEFAULT_S, temp)
}

/// Whether `x` is the default interval or the interval of a breakpoint.
pub open spec fn is_schedule_interval(x: u32) -> bool {
    x == WATERING_INTERVAL_DEFAULT_S || exists|i: int|
        0 <= i < spec_breakpoints().len() && #[trigger] spec_breakpoints()[i].1 == x
}

pub open spec fn thresholds_increasing(table: Seq<(i32, u32)>) -> bool {
    forall|i: int, j: int| 0 <= i < j < table.len() ==> table[i].0 < table[j].0
}

/// Later breakpoints never have longer intervals, and none is longer than the default.
pub open spec fn intervals_non_increasing(table: Seq<(i32, u32)>, default: u32) -> bool {
    &&& forall|i: int, j: int| 0 <= i < j < table.len() ==> table[j].1 <= table[i].1
    &&& forall|i: int| 0 <= i < table.len() ==> table[i].1 <= default
}

proof fn lemma_schedule_ordered()
    ensures
        spec_breakpoints().len() == 6,
        thresholds_increasing(spec_breakpoints()),
        intervals_non_increasing(spec_breakpoints(), WATERING_INTERVAL_DEFAULT_S),
{
    let t = spec_breakpoints();
    assert forall|i: int, j: int| 0 <= i < j < t.len() implies t[i].0 < t[j].0 && t[j].1 <= t[i].1 by {
        assert(t[i] == spec_breakpoint(i));
        assert(t[j] == spec_breakpoint(j));
    }
    assert forall|i: int| 0 <= i < t.len() implies t[i].1 <= WATERING_INTERVAL_DEFAULT_S by {
        assert(t[i] == spec_breakpoint(i));
    }
}

/// Breakpoints from position `i` on that the temperature does not exceed
/// leave the interval to the ones before them.
proof fn lemma_interval_of_prefix(table: Seq<(i32, u32)>, default: u32, temp: int, i: int)
    requires
        0 <= i <= table.len(),
        forall|k: int| i <= k < table.len() ==> temp <= table[k].0,
    ensures
        interval_of(table, default, temp) == interval_of(table.take(i), default, temp),
    decreases table.len(),
{
    if table.len() == i {
        assert(table.take(i) =~= table);
    } else {
        let shorter = table.drop_last();
        assert(table.last() == table[table.len() - 1]);
        lemma_interval_of_prefix(shorter, default, temp, i);
        assert(shorter.take(i) =~= table.take(i));
    }
}

/// Every interval that the lookup gives is at least any lower bound of the
/// default and of all intervals of the table.
proof fn lemma_interval_of_bounded_below(table: Seq<(i32, u32)>, default: u32, temp: int, x: u32)
    requires
        x <= default,
        forall|k: int| 0 <= k < table.len() ==> x <= table[k].1,
    ensures
        x <= interval_of(table, default, temp),
    decreases table.len(),
{
    if table.len() > 0 {
        assert(table.last() == table[table.len() - 1]);
        let shorter = table.drop_last();
        assert forall|k: int| 0 <= k < shorter.len() implies x <= shorter[k].1 by {
            assert(shorter[k] == table[k]);
        }
        lemma_interval_of_bounded_below(shorter, default, temp, x);
    }
}

proof fn lemma_interval_of_monotone(table: Seq<(i32, u32)>, default: u32, t1: int, t2: int)
    requires
        t1 <= t2,
        intervals_non_increasing(table, default),
    ensures
        interval_of(table, default, t2) <= interval_of(table, default, t1),
    decreases table.len(),
{
    if table.len() > 0 {
        let n = table.len() - 1;
        let shorter = table.drop_last();
        assert(table.last() == table[n]);
        assert forall|k: int| 0 <= k < shorter.len() implies shorter[k] == table[k] by {}
        if (table[n].0 as int) < t2 && t1 <= table[n].0 {
            lemma_interval_of_bounded_below(shorter, default, t1, table[n].1);
        } else if t2 <= table[n].0 {
            lemma_interval_of_monotone(shorter, default, t1, t2);
        }
    }
}

proof fn lemma_interval_of_listed(table: Seq<(i32, u32)>, default: u32, temp: int)
    ensures
        interval_of(table, default, temp) == default || exists|k: int|
            0 <= k < table.len() && #[trigger] table[k].1 == interval_of(table, default, temp),
    decreases table.len(),
{
    if table.len() > 0 {
        let n = table.len() - 1;
        let shorter = table.drop_last();
        assert(table.last() == table[n]);
        if temp <= table[n].0 {
            lemma_interval_of_listed(shorter, default, temp);
            if interval_of(shorter, default, temp) != default {
                let k = choose|k: int|
                    0 <= k < shorter.len() && #[trigger] shorter[k].1 == interval_of(
                        shorter,
                        default,
                        temp,
                    );
                assert(table[k] == shorter[k]);
            }
        }
    }
}

/// The interval that the schedule gives is always the default or the interval
/// of one of its breakpoints.
pub proof fn lemma_interval_is_scheduled(temp: int)
    ensures
        is_schedule_interval(spec_interval_for(temp)),
{
    lemma_interval_of_listed(spec_breakpoints(), WATERING_INTERVAL_DEFAULT_S, temp);
}

/// A reading below the lowest breakpoint gets the default interval.
pub proof fn lemma_below_lowest_breakpoint(m: Dht22Measurement)
    requires
        (m.temp as int) < spec_breakpoints()[0].0,
    ensures
        spec_interval_for(m.temp as int) == WATERING_INTERVAL_DEFAULT_S,
{
    lemma_schedule_ordered();
    let t = spec_breakpoints();
    lemma_interval_of_prefix(t, WATERING_INTERVAL_DEFAULT_S, m.temp as int, 0);
}

/// A reading exactly at a breakpoint's threshold does not get that
/// breakpoint's interval: it gets the one of the breakpoint before, or the
/// default at the first.
pub proof fn lemma_at_breakpoint(m: Dht22Measurement, k: int)
    requires
        0 <= k < spec_breakpoints().len(),
        m.temp == spec_breakpoints()[k].0,
    ensures
        k == 0 ==> spec_interval_for(m.temp as int) == WATERING_INTERVAL_DEFAULT_S,
        k > 0 ==> spec_interval_for(m.temp as int) == spec_breakpoints()[k - 1].1,
{
    lemma_schedule_ordered();
    let t = spec_breakpoints();
    lemma_interval_of_prefix(t, WATERING_INTERVAL_DEFAULT_S, m.temp as int, k);
    if k > 0 {
        assert(t.take(k).last() == t[k - 1]);
    }
}

/// The warmer of two readings never gets a longer interval.
pub proof fn lemma_interval_monotone(cooler: Dht22Measurement, warmer: Dht22Measurement)
    requires
        cooler.temp <= warmer.temp,
    ensures
        spec_interval_for(warmer.temp as int) <= spec_interval_for(cooler.temp as int),
{
    lemma_schedule_ordered();
    lemma_interval_of_monotone(
        spec_breakpoints(),
        WATERING_INTERVAL_DEFAULT_S,
        cooler.temp as int,
        warmer.temp as int,
    );
}

fn breakpoints() -> (r: Vec<(i32, u32)>)
    ensures
        r@ == spec_breakpoints(),
{
    let r = vec![(50, 10800), (100, 7200), (150, 5400), (200, 3600), (250, 1800), (300, 900)];
    assert(r@ =~= spec_breakpoints());
    r
}

/// The watering interval, in seconds, for a reading: the interval of the last
/// breakpoint whose threshold the temperature strictly exceeds, or the
/// default where it exceeds none.
pub fn interval_for(measurement: &Dht22Measurement) -> (r: u32)
    ensures
        r == spec_interval_for(measurement.temp as int),
{
    let table = breakpoints();
    let temp = measurement.temp;
    let mut selected: u32 = WATERING_INTERVAL_DEFAULT_S;
    let mut i: usize = 0;
    proof {
        lemma_schedule_ordered();
    }
    while i < table.len() && temp > table[i].0
        invariant
            i <= table.len(),
            table@ == spec_breakpoints(),
            thresholds_increasing(table@),
            selected == interval_of(table@.take(i as int), WATERING_INTERVAL_DEFAULT_S, temp as int),
        decreases table.len() - i,
    {
        selected = table[i].1;
        i = i + 1;
        assert(table@.take(i as int).last() == table@[i - 1]);
    }
    proof {
        lemma_interval_of_prefix(table@, WATERING_INTERVAL_DEFAULT_S, temp as int, i as int);
    }
    selected
}

} // verus!
