//! Leap years: the 33-year rule, and the table of the years in which it is off.

use vstd::prelude::*;

verus! {

/// Years that are not leap although the 33-year rule says they are.
///
/// The year after each of them is leap although the rule says it is not. The
/// table agrees with the astronomical calendar on the 52.5 degrees east
/// meridian from 1178 to 3000. It is sorted ascending.
pub const NON_LEAP_CORRECTION: [i32; 78] = [
    1502, 1601, 1634, 1667, 1700, 1733, 1766, 1799, 1832, 1865, 1898, 1931, 1964, 1997,
    2030, 2059, 2063, 2096, 2129, 2158, 2162, 2191, 2195, 2224, 2228, 2257, 2261, 2290,
    2294, 2323, 2327, 2356, 2360, 2389, 2393, 2422, 2426, 2455, 2459, 2488, 2492, 2521,
    2525, 2554, 2558, 2587, 2591, 2620, 2624, 2653, 2657, 2686, 2690, 2719, 2723, 2748,
    2752, 2756, 2781, 2785, 2789, 2818, 2822, 2847, 2851, 2855, 2880, 2884, 2888, 2913,
    2917, 2921, 2946, 2950, 2954, 2979, 2983, 2987,
];

/// The leap years from 1210 to 1500 as published, to hold the rule against.
pub const LEAPS_1210_TO_1500: [i32; 71] = [
    1210, 1214, 1218, 1222, 1226, 1230, 1234, 1238, 1243, 1247, 1251, 1255, 1259, 1263,
    1267, 1271, 1276, 1280, 1284, 1288, 1292, 1296, 1300, 1304, 1309, 1313, 1317, 1321,
    1325, 1329, 1333, 1337, 1342, 1346, 1350, 1354, 1358, 1362, 1366, 1370, 1375, 1379,
    1383, 1387, 1391, 1395, 1399, 1403, 1408, 1412, 1416, 1420, 1424, 1428, 1432, 1436,
    1441, 1445, 1449, 1453, 1457, 1461, 1465, 1469, 1474, 1478, 1482, 1486, 1490, 1494,
    1498,
];

/// The entry of [`NON_LEAP_CORRECTION`] at `index`.
#[verifier::opaque]
pub open spec fn correction_entry(index: int) -> int {
    NON_LEAP_CORRECTION[index] as int
}

/// The entry of [`LEAPS_1210_TO_1500`] at `index`.
#[verifier::opaque]
pub open spec fn listed_leap(index: int) -> int {
    LEAPS_1210_TO_1500[index] as int
}

/// Whether `year` is an entry of [`NON_LEAP_CORRECTION`].
pub open spec fn is_correction_year(year: int) -> bool {
    exists|i: int| 0 <= i < 78 && #[trigger] correction_entry(i) == year
}

/// Whether `year` is an entry of [`LEAPS_1210_TO_1500`].
pub open spec fn is_listed_leap(year: int) -> bool {
    exists|i: int| 0 <= i < 71 && #[trigger] listed_leap(i) == year
}

/// The 33-year rule: eight leap years in every cycle of 33.
pub open spec fn cycle_rule(year: int) -> bool {
    (25 * year + 11) % 33 < 8
}

/// Whether `year` has 366 days.
///
/// A table entry is never leap. The year after a table entry is leap. Every
/// other year follows the 33-year rule.
pub open spec fn is_leap_year(year: int) -> bool {
    if is_correction_year(year) {
        false
    } else if is_correction_year(year - 1) {
        true
    } else {
        cycle_rule(year)
    }
}

/// The number of days of `year`.
pub open spec fn year_length(year: int) -> int {
    if is_leap_year(year) {
        366
    } else {
        365
    }
}

/// The correction table is strictly ascending.
pub proof fn lemma_correction_sorted()
    ensures
        forall|i: int, j: int|
            0 <= i < j < 78 ==> #[trigger] correction_entry(i) < #[trigger] correction_entry(j),
{
    assert forall|i: int| 0 <= i < 77 implies #[trigger] correction_entry(i) < correction_entry(
        i + 1,
    ) by {
        reveal(correction_entry);
    }
    assert forall|i: int, j: int| 0 <= i < j < 78 implies #[trigger] correction_entry(i)
        < #[trigger] correction_entry(j) by {
        lemma_ascending_between(i, j);
    }
}

proof fn lemma_ascending_between(i: int, j: int)
    requires
        0 <= i < j < 78,
        forall|k: int| 0 <= k < 77 ==> #[trigger] correction_entry(k) < correction_entry(k + 1),
    ensures
        correction_entry(i) < correction_entry(j),
    decreases j - i,
{
    if i + 1 < j {
        lemma_ascending_between(i, j - 1);
    }
}

/// Every entry of the correction table lies within 1502..=2987.
pub proof fn lemma_correction_range(year: int)
    requires
        is_correction_year(year),
    ensures
        1502 <= year <= 2987,
{
    lemma_correction_sorted();
    let i = choose|i: int| 0 <= i < 78 && #[trigger] correction_entry(i) == year;
    assert(correction_entry(0) == 1502 && correction_entry(77) == 2987) by {
        reveal(correction_entry);
    }
}

/// A year outside 1502..=2988 follows the 33-year rule.
pub proof fn lemma_leap_outside_table(year: int)
    requires
        year < 1502 || year > 2988,
    ensures
        is_leap_year(year) == cycle_rule(year),
{
    if is_correction_year(year) {
        lemma_correction_range(year);
    }
    if is_correction_year(year - 1) {
        lemma_correction_range(year - 1);
    }
}

/// The last year that a 32-bit count can name is a leap year.
pub proof fn lemma_last_year_is_leap()
    ensures
        year_length(i32::MAX as int) == 366,
{
    lemma_leap_outside_table(i32::MAX as int);
}

/// From 1210 to 1500 the leap years are exactly the years of the published list.
pub proof fn lemma_listed_leaps_agree(year: int)
    requires
        1210 <= year <= 1500,
    ensures
        is_leap_year(year) <==> is_listed_leap(year),
{
    if is_correction_year(year) {
        lemma_correction_range(year);
    }
    if is_correction_year(year - 1) {
        lemma_correction_range(year - 1);
    }
    assert(is_leap_year(year) == cycle_rule(year));
    if is_listed_leap(year) {
        let i = choose|i: int| 0 <= i < 71 && #[trigger] listed_leap(i) == year;
        assert(cycle_rule(listed_leap(i))) by {
            reveal(listed_leap);
        }
    }
    if cycle_rule(year) {
        // The rule gives the place of the year within its cycle of 33, and the
        // list holds the year of each such place.
        let i = listed_index(year);
        assert(0 <= i < 71 && listed_leap(i) == year) by {
            reveal(listed_leap);
        }
    }
}

/// Where a leap year between 1210 and 1500 stands in the published list.
///
/// Each cycle of 33 years holds eight leap years, four years apart, and the
/// next cycle starts five years after the eighth. The list starts with a cycle.
spec fn listed_index(year: int) -> int {
    let since: int = year - 1210;
    (since / 33) * 8 + (since % 33) / 4
}

/// Looks `year` up in the correction table by binary search.
pub fn is_correction(year: i32) -> (r: bool)
    ensures
        r == is_correction_year(year as int),
{
    proof {
        lemma_correction_sorted();
    }
    let mut low: usize = 0;
    let mut high: usize = 78;
    while low < high
        invariant
            0 <= low <= high <= 78,
            forall|i: int| 0 <= i < low ==> #[trigger] correction_entry(i) < year,
            forall|i: int| high <= i < 78 ==> #[trigger] correction_entry(i) > year,
            forall|i: int, j: int|
                0 <= i < j < 78 ==> #[trigger] correction_entry(i) < #[trigger] correction_entry(j),
        decreases high - low,
    {
        let middle: usize = low + (high - low) / 2;
        let entry: i32 = NON_LEAP_CORRECTION[middle];
        assert(entry == correction_entry(middle as int)) by {
            reveal(correction_entry);
        }
        if entry == year {
            return true;
        } else if entry < year {
            low = middle + 1;
        } else {
            high = middle;
        }
    }
    false
}

} // verus!
