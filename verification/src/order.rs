//! The order of months, days and years, and what holds of it.

use crate::calendar::{day_number, lemma_day_number_order};
use crate::date::Date;
use crate::month_day::MonthDay;
use crate::primitive::{Month, Ordinal, Year};
use core::cmp::Ordering;
use vstd::prelude::*;
use vstd::std_specs::cmp::PartialOrdSpecImpl;

verus! {

/// How the number `left` stands to the number `right`.
pub open spec fn compare_numbers(left: int, right: int) -> Ordering {
    if left < right {
        Ordering::Less
    } else if left > right {
        Ordering::Greater
    } else {
        Ordering::Equal
    }
}

/// How the pair `left` stands to the pair `right`: the first parts decide, and
/// the second parts only where the first are equal.
pub open spec fn compare_pairs(left: (int, int), right: (int, int)) -> Ordering {
    if left.0 == right.0 {
        compare_numbers(left.1, right.1)
    } else {
        compare_numbers(left.0, right.0)
    }
}

/// `order` seen from the other side.
pub open spec fn reverse_order(order: Ordering) -> Ordering {
    match order {
        Ordering::Less => Ordering::Greater,
        Ordering::Equal => Ordering::Equal,
        Ordering::Greater => Ordering::Less,
    }
}

/// The order of pairs is transitive.
pub proof fn lemma_compare_pairs_transitive(first: (int, int), second: (int, int), third: (int, int))
    requires
        compare_pairs(first, second) == Ordering::Less,
        compare_pairs(second, third) == Ordering::Less,
    ensures
        compare_pairs(first, third) == Ordering::Less,
{
}

/// Swapping the two sides of a comparison reverses its result, and the result
/// is `Equal` for equal pairs only.
pub proof fn lemma_compare_pairs_antisymmetric(left: (int, int), right: (int, int))
    ensures
        compare_pairs(right, left) == reverse_order(compare_pairs(left, right)),
        compare_pairs(left, right) == Ordering::Equal <==> left == right,
{
}

impl Month {
    /// How this month stands to `other` within a year.
    pub fn cmp(&self, other: &Month) -> (r: Ordering)
        ensures
            r == compare_numbers(self@, other@),
    {
        if self.0 < other.0 {
            Ordering::Less
        } else if self.0 > other.0 {
            Ordering::Greater
        } else {
            Ordering::Equal
        }
    }
}

impl PartialOrd for Month {
    fn partial_cmp(&self, other: &Month) -> (r: Option<Ordering>) {
        Some(self.cmp(other))
    }
}

impl PartialOrdSpecImpl for Month {
    open spec fn obeys_partial_cmp_spec() -> bool {
        true
    }

    open spec fn partial_cmp_spec(&self, other: &Month) -> Option<Ordering> {
        Some(compare_numbers(self@, other@))
    }
}

impl Ordinal {
    /// How this day of the year stands to `other`.
    pub fn cmp(&self, other: &Ordinal) -> (r: Ordering)
        ensures
            r == compare_numbers(self@, other@),
    {
        if self.0 < other.0 {
            Ordering::Less
        } else if self.0 > other.0 {
            Ordering::Greater
        } else {
            Ordering::Equal
        }
    }
}

impl PartialOrd for Ordinal {
    fn partial_cmp(&self, other: &Ordinal) -> (r: Option<Ordering>) {
        Some(self.cmp(other))
    }
}

impl PartialOrdSpecImpl for Ordinal {
    open spec fn obeys_partial_cmp_spec() -> bool {
        true
    }

    open spec fn partial_cmp_spec(&self, other: &Ordinal) -> Option<Ordering> {
        Some(compare_numbers(self@, other@))
    }
}

impl Year {
    /// How this year stands to `other`.
    pub fn cmp(&self, other: &Year) -> (r: Ordering)
        ensures
            r == compare_numbers(self@, other@),
    {
        if self.0 < other.0 {
            Ordering::Less
        } else if self.0 > other.0 {
            Ordering::Greater
        } else {
            Ordering::Equal
        }
    }
}

impl PartialOrd for Year {
    fn partial_cmp(&self, other: &Year) -> (r: Option<Ordering>) {
        Some(self.cmp(other))
    }
}

impl PartialOrdSpecImpl for Year {
    open spec fn obeys_partial_cmp_spec() -> bool {
        true
    }

    open spec fn partial_cmp_spec(&self, other: &Year) -> Option<Ordering> {
        Some(compare_numbers(self@, other@))
    }
}

impl MonthDay {
    /// How this day stands to `other` within a year: the months decide, and the
    /// days only within one month.
    pub fn cmp(&self, other: &MonthDay) -> (r: Ordering)
        ensures
            r == compare_pairs(self@, other@),
    {
        match self.month.cmp(&other.month) {
            Ordering::Equal => {
                if self.day < other.day {
                    Ordering::Less
                } else if self.day > other.day {
                    Ordering::Greater
                } else {
                    Ordering::Equal
                }
            },
            decided => decided,
        }
    }
}

impl PartialOrd for MonthDay {
    fn partial_cmp(&self, other: &MonthDay) -> (r: Option<Ordering>) {
        Some(self.cmp(other))
    }
}

impl PartialOrdSpecImpl for MonthDay {
    open spec fn obeys_partial_cmp_spec() -> bool {
        true
    }

    open spec fn partial_cmp_spec(&self, other: &MonthDay) -> Option<Ordering> {
        Some(compare_pairs(self@, other@))
    }
}

impl Date {
    /// How this date stands to `other` in time: the years decide, and the days
    /// only within one year.
    pub fn cmp(&self, other: &Date) -> (r: Ordering)
        ensures
            r == compare_pairs(self@, other@),
    {
        match self.year.cmp(&other.year) {
            Ordering::Equal => self.ordinal.cmp(&other.ordinal),
            decided => decided,
        }
    }
}

impl PartialOrd for Date {
    fn partial_cmp(&self, other: &Date) -> (r: Option<Ordering>) {
        Some(self.cmp(other))
    }
}

impl PartialOrdSpecImpl for Date {
    open spec fn obeys_partial_cmp_spec() -> bool {
        true
    }

    open spec fn partial_cmp_spec(&self, other: &Date) -> Option<Ordering> {
        Some(compare_pairs(self@, other@))
    }
}

/// If one date is before a second and that before a third, the first is before
/// the third.
pub proof fn lemma_date_order_transitive(first: Date, second: Date, third: Date)
    requires
        vstd::std_specs::cmp::PartialOrdSpec::partial_cmp_spec(&first, &second) == Some(
            Ordering::Less,
        ),
        vstd::std_specs::cmp::PartialOrdSpec::partial_cmp_spec(&second, &third) == Some(
            Ordering::Less,
        ),
    ensures
        vstd::std_specs::cmp::PartialOrdSpec::partial_cmp_spec(&first, &third) == Some(
            Ordering::Less,
        ),
{
    lemma_compare_pairs_transitive(first@, second@, third@);
}

/// Comparing two dates one way gives the reverse of comparing them the other
/// way, and gives `Equal` for one and the same date only.
pub proof fn lemma_date_order_antisymmetric(left: Date, right: Date)
    ensures
        compare_pairs(right@, left@) == reverse_order(compare_pairs(left@, right@)),
        compare_pairs(left@, right@) == Ordering::Equal <==> left == right,
{
    lemma_compare_pairs_antisymmetric(left@, right@);
    left.lemma_view_injective(right);
}

/// The order of dates is the order of their years and, within a year, of their
/// days; and it is the order in which the days follow each other.
pub proof fn lemma_date_order_by_fields(left: Date, right: Date)
    requires
        left.is_valid(),
        right.is_valid(),
    ensures
        compare_pairs(left@, right@) == Ordering::Less <==> left@.0 < right@.0 || (left@.0
            == right@.0 && left@.1 < right@.1),
        compare_pairs(left@, right@) == Ordering::Less <==> day_number(left@) < day_number(
            right@,
        ),
{
    lemma_day_number_order(left@, right@);
}

} // verus!
