//! Formatting of durations.
use crate::styling::{decimal_text, write_decimal, StyledWrite};
use vstd::prelude::*;

verus! {

/// A "human-readable" duration: days, hours, minutes, seconds, milliseconds,
/// microseconds and nanoseconds.
#[derive(Debug, Clone, Copy, PartialEq, Eq, Hash)]
pub struct HumanDuration {
    days: u128,
    hours: u8,
    minutes: u8,
    seconds: u8,
    milliseconds: u16,
    microseconds: u16,
    nanoseconds: u16,
}

/// How many of each component make one of the component before it (hours in a day,
/// and so on).
pub open spec fn component_limit(i: int) -> nat {
    if i == 1 {
        24
    } else if i == 2 || i == 3 {
        60
    } else {
        1000
    }
}

/// Whether `parts` (days first, nanoseconds last) are seven components each below
/// its limit, days excepted.
pub open spec fn components_in_range(parts: Seq<u128>) -> bool {
    &&& parts.len() == 7
    &&& forall|i: int| 1 <= i < 7 ==> parts[i] < component_limit(i)
}

/// The duration that `parts` stand for, in nanoseconds.
pub open spec fn total_nanoseconds(parts: Seq<u128>) -> int {
    ((((((parts[0] * 24 + parts[1]) * 60 + parts[2]) * 60 + parts[3]) * 1000 + parts[4]) * 1000
        + parts[5]) * 1000 + parts[6]) as int
}

impl View for HumanDuration {
    type V = Seq<u128>;

    /// The components, days first and nanoseconds last.
    closed spec fn view(&self) -> Seq<u128> {
        seq![
            self.days,
            self.hours as u128,
            self.minutes as u128,
            self.seconds as u128,
            self.milliseconds as u128,
            self.microseconds as u128,
            self.nanoseconds as u128,
        ]
    }
}

impl HumanDuration {
    /// A duration of the given components, which must be in range:
    /// fewer than 24 hours, 60 minutes and seconds, 1000 of the smaller units.
    pub fn new(
        days: u128,
        hours: u8,
        minutes: u8,
        seconds: u8,
        milliseconds: u16,
        microseconds: u16,
        nanoseconds: u16,
    ) -> (r: Self)
        requires
            hours < 24,
            minutes < 60,
            seconds < 60,
            milliseconds < 1000,
            microseconds < 1000,
            nanoseconds < 1000,
        ensures
            r@ == seq![
                days,
                hours as u128,
                minutes as u128,
                seconds as u128,
                milliseconds as u128,
                microseconds as u128,
                nanoseconds as u128,
            ],
            components_in_range(r@),
    {
        HumanDuration { days, hours, minutes, seconds, milliseconds, microseconds, nanoseconds }
    }

    /// A duration of the given components, or `None` when one of them is out of range.
    pub fn try_new(
        days: u128,
        hours: u8,
        minutes: u8,
        seconds: u8,
        milliseconds: u16,
        microseconds: u16,
        nanoseconds: u16,
    ) -> (r: Option<Self>)
        ensures
            r is Some <==> (hours < 24 && minutes < 60 && seconds < 60 && milliseconds < 1000
                && microseconds < 1000 && nanoseconds < 1000),
            r is Some ==> r->Some_0@ == seq![
                days,
                hours as u128,
                minutes as u128,
                seconds as u128,
                milliseconds as u128,
                microseconds as u128,
                nanoseconds as u128,
            ],
    {
        if hours < 24 && minutes < 60 && seconds < 60 && milliseconds < 1000 && microseconds
            < 1000 && nanoseconds < 1000 {
            Some(
                HumanDuration {
                    days,
                    hours,
                    minutes,
                    seconds,
                    milliseconds,
                    microseconds,
                    nanoseconds,
                },
            )
        } else {
            None
        }
    }

    /// The duration of `seconds` seconds and `subsec_nanos` nanoseconds, as a
    /// `std::time::Duration` gives them.
    pub fn from_duration(seconds: u64, subsec_nanos: u32) -> (r: Self)
        requires
            subsec_nanos < 1_000_000_000,
        ensures
            components_in_range(r@),
            total_nanoseconds(r@) == seconds * 1_000_000_000 + subsec_nanos,
    {
        let micros = subsec_nanos / 1000;
        let nanoseconds = (subsec_nanos % 1000) as u16;
        let milliseconds = (micros / 1000) as u16;
        let microseconds = (micros % 1000) as u16;
        let minutes = seconds / 60;
        let secs = (seconds % 60) as u8;
        let hours = minutes / 60;
        let mins = (minutes % 60) as u8;
        let days = hours / 24;
        let hrs = (hours % 24) as u8;
        let r = HumanDuration {
            days: days as u128,
            hours: hrs,
            minutes: mins,
            seconds: secs,
            milliseconds,
            microseconds,
            nanoseconds,
        };
        assert(components_in_range(r@));
        r
    }

    /// The duration of `nanoseconds` nanoseconds.
    pub fn from_nanoseconds(nanoseconds: u128) -> (r: Self)
        ensures
            components_in_range(r@),
            total_nanoseconds(r@) == nanoseconds,
    {
        let micros = nanoseconds / 1000;
        let ns = (nanoseconds % 1000) as u16;
        let millis = micros / 1000;
        let us = (micros % 1000) as u16;
        let secs = millis / 1000;
        let ms = (millis % 1000) as u16;
        let mins = secs / 60;
        let s = (secs % 60) as u8;
        let hours = mins / 60;
        let m = (mins % 60) as u8;
        let days = hours / 24;
        let h = (hours % 24) as u8;
        let r = HumanDuration {
            days,
            hours: h,
            minutes: m,
            seconds: s,
            milliseconds: ms,
            microseconds: us,
            nanoseconds: ns,
        };
        assert(components_in_range(r@));
        r
    }

    /// The duration of `microseconds` microseconds.
    pub fn from_microseconds(microseconds: u128) -> (r: Self)
        ensures
            components_in_range(r@),
            r@[6] == 0,
            total_nanoseconds(r@) == microseconds * 1000,
    {
        let millis = microseconds / 1000;
        let us = (microseconds % 1000) as u16;
        let secs = millis / 1000;
        let ms = (millis % 1000) as u16;
        let mins = secs / 60;
        let s = (secs % 60) as u8;
        let hours = mins / 60;
        let m = (mins % 60) as u8;
        let days = hours / 24;
        let h = (hours % 24) as u8;
        let r = HumanDuration {
            days,
            hours: h,
            minutes: m,
            seconds: s,
            milliseconds: ms,
            microseconds: us,
            nanoseconds: 0,
        };
        assert(components_in_range(r@));
        r
    }

    /// The duration of `milliseconds` milliseconds.
    pub fn from_milliseconds(milliseconds: u128) -> (r: Self)
        ensures
            components_in_range(r@),
            r@[5] == 0 && r@[6] == 0,
            total_nanoseconds(r@) == milliseconds * 1_000_000,
    {
        let secs = milliseconds / 1000;
        let ms = (milliseconds % 1000) as u16;
        let mins = secs / 60;
        let s = (secs % 60) as u8;
        let hours = mins / 60;
        let m = (mins % 60) as u8;
        let days = hours / 24;
        let h = (hours % 24) as u8;
        let r = HumanDuration {
            days,
            hours: h,
            minutes: m,
            seconds: s,
            milliseconds: ms,
            microseconds: 0,
            nanoseconds: 0,
        };
        assert(components_in_range(r@));
        r
    }

    /// The duration of `seconds` seconds.
    pub fn from_seconds(seconds: u128) -> (r: Self)
        ensures
            components_in_range(r@),
            r@[4] == 0 && r@[5] == 0 && r@[6] == 0,
            total_nanoseconds(r@) == seconds * 1_000_000_000,
    {
        let mins = seconds / 60;
        let s = (seconds % 60) as u8;
        let hours = mins / 60;
        let m = (mins % 60) as u8;
        let days = hours / 24;
        let h = (hours % 24) as u8;
        let r = HumanDuration {
            days,
            hours: h,
            minutes: m,
            seconds: s,
            milliseconds: 0,
            microseconds: 0,
            nanoseconds: 0,
        };
        assert(components_in_range(r@));
        r
    }

    /// The duration of `minutes` minutes.
    pub fn from_minutes(minutes: u128) -> (r: Self)
        ensures
            components_in_range(r@),
            r@[3] == 0 && r@[4] == 0 && r@[5] == 0 && r@[6] == 0,
            total_nanoseconds(r@) == minutes * 60_000_000_000,
    {
        let hours = minutes / 60;
        let m = (minutes % 60) as u8;
        let days = hours / 24;
        let h = (hours % 24) as u8;
        let r = HumanDuration {
            days,
            hours: h,
            minutes: m,
            seconds: 0,
            milliseconds: 0,
            microseconds: 0,
            nanoseconds: 0,
        };
        assert(components_in_range(r@));
        r
    }

    /// The duration of `hours` hours.
    pub fn from_hours(hours: u128) -> (r: Self)
        ensures
            components_in_range(r@),
            r@[0] == hours / 24 && r@[1] == hours % 24,
            r@[2] == 0 && r@[3] == 0 && r@[4] == 0 && r@[5] == 0 && r@[6] == 0,
    {
        let r = HumanDuration {
            days: hours / 24,
            hours: (hours % 24) as u8,
            minutes: 0,
            seconds: 0,
            milliseconds: 0,
            microseconds: 0,
            nanoseconds: 0,
        };
        assert(components_in_range(r@));
        r
    }

    /// The duration of `days` days.
    pub fn from_days(days: u128) -> (r: Self)
        ensures
            r@ == seq![days, 0u128, 0u128, 0u128, 0u128, 0u128, 0u128],
    {
        HumanDuration {
            days,
            hours: 0,
            minutes: 0,
            seconds: 0,
            milliseconds: 0,
            microseconds: 0,
            nanoseconds: 0,
        }
    }

    /// The days component.
    pub fn days(&self) -> (r: u128)
        ensures
            r == self@[0],
    {
        self.days
    }

    /// The hours component.
    pub fn hours(&self) -> (r: u8)
        ensures
            r == self@[1],
    {
        self.hours
    }

    /// The minutes component.
    pub fn minutes(&self) -> (r: u8)
        ensures
            r == self@[2],
    {
        self.minutes
    }

    /// The seconds component.
    pub fn seconds(&self) -> (r: u8)
        ensures
            r == self@[3],
    {
        self.seconds
    }

    /// The milliseconds component.
    pub fn milliseconds(&self) -> (r: u16)
        ensures
            r == self@[4],
    {
        self.milliseconds
    }

    /// The microseconds component.
    pub fn microseconds(&self) -> (r: u16)
        ensures
            r == self@[5],
    {
        self.microseconds
    }

    /// The nanoseconds component.
    pub fn nanoseconds(&self) -> (r: u16)
        ensures
            r == self@[6],
    {
        self.nanoseconds
    }

    /// The truncation of this duration to days precision.
    pub fn truncated_to_days(&self) -> (r: Self)
        ensures
            r@ == truncated(self@, 1),
    {
        let r = HumanDuration {
            hours: 0,
            minutes: 0,
            seconds: 0,
            milliseconds: 0,
            microseconds: 0,
            nanoseconds: 0,
            ..*self
        };
        assert(r@ =~= truncated(self@, 1));
        r
    }

    /// The truncation of this duration to hours precision.
    pub fn truncated_to_hours(&self) -> (r: Self)
        ensures
            r@ == truncated(self@, 2),
    {
        let r = HumanDuration {
            minutes: 0,
            seconds: 0,
            milliseconds: 0,
            microseconds: 0,
            nanoseconds: 0,
            ..*self
        };
        assert(r@ =~= truncated(self@, 2));
        r
    }

    /// The truncation of this duration to minutes precision.
    pub fn truncated_to_minutes(&self) -> (r: Self)
        ensures
            r@ == truncated(self@, 3),
    {
        let r = HumanDuration {
            seconds: 0,
            milliseconds: 0,
            microseconds: 0,
            nanoseconds: 0,
            ..*self
        };
        assert(r@ =~= truncated(self@, 3));
        r
    }

    /// The truncation of this duration to seconds precision.
    pub fn truncated_to_seconds(&self) -> (r: Self)
        ensures
            r@ == truncated(self@, 4),
    {
        let r = HumanDuration { milliseconds: 0, microseconds: 0, nanoseconds: 0, ..*self };
        assert(r@ =~= truncated(self@, 4));
        r
    }

    /// The truncation of this duration to milliseconds precision.
    pub fn truncated_to_milliseconds(&self) -> (r: Self)
        ensures
            r@ == truncated(self@, 5),
    {
        let r = HumanDuration { microseconds: 0, nanoseconds: 0, ..*self };
        assert(r@ =~= truncated(self@, 5));
        r
    }

    /// The truncation of this duration to microseconds precision.
    pub fn truncated_to_microseconds(&self) -> (r: Self)
        ensures
            r@ == truncated(self@, 6),
    {
        let r = HumanDuration { nanoseconds: 0, ..*self };
        assert(r@ =~= truncated(self@, 6));
        r
    }

    fn components(&self) -> (r: Vec<u128>)
        ensures
            r@ == self@,
    {
        let r = vec![
            self.days,
            self.hours as u128,
            self.minutes as u128,
            self.seconds as u128,
            self.milliseconds as u128,
            self.microseconds as u128,
            self.nanoseconds as u128,
        ];
        assert(r@ =~= self@);
        r
    }
}

/// The first `kept` components of `parts`, and zeros in place of the others.
pub open spec fn truncated(parts: Seq<u128>, kept: int) -> Seq<u128> {
    Seq::new(parts.len(), |i: int| if i < kept { parts[i] } else { 0u128 })
}

/// The unit written after the component at `i`.
pub open spec fn unit_text(i: int) -> Seq<char> {
    if i == 0 {
        "d"@
    } else if i == 1 {
        "h"@
    } else if i == 2 {
        "m"@
    } else if i == 3 {
        "s"@
    } else if i == 4 {
        "ms"@
    } else if i == 5 {
        "\u{b5}s"@
    } else {
        "ns"@
    }
}

fn unit_str(i: usize) -> (r: &'static str)
    ensures
        r@ == unit_text(i as int),
{
    if i == 0 {
        "d"
    } else if i == 1 {
        "h"
    } else if i == 2 {
        "m"
    } else if i == 3 {
        "s"
    } else if i == 4 {
        "ms"
    } else if i == 5 {
        "\u{b5}s"
    } else {
        "ns"
    }
}

/// Whether any of the first `n` components is selected.
pub open spec fn any_selected(select: Seq<bool>, n: nat) -> bool
    decreases n,
{
    if n == 0 {
        false
    } else {
        any_selected(select, (n - 1) as nat) || select[n - 1]
    }
}

/// The selected ones among the first `n` components, each followed by its unit,
/// separated by single spaces.
pub open spec fn parts_text(parts: Seq<u128>, select: Seq<bool>, n: nat) -> Seq<char>
    decreases n,
{
    if n == 0 {
        Seq::empty()
    } else {
        let before = parts_text(parts, select, (n - 1) as nat);
        let part = decimal_text(parts[n - 1] as nat) + unit_text(n - 1);
        if !select[n - 1] {
            before
        } else if any_selected(select, (n - 1) as nat) {
            before + " "@ + part
        } else {
            part
        }
    }
}

/// Every component.
pub open spec fn select_all() -> Seq<bool> {
    Seq::new(7, |i: int| true)
}

/// The components that are not zero.
pub open spec fn select_nonzero(parts: Seq<u128>) -> Seq<bool> {
    Seq::new(7, |i: int| parts[i] != 0)
}

/// The components from the most significant one that is not zero on.
pub open spec fn select_from_first_nonzero(parts: Seq<u128>) -> Seq<bool> {
    Seq::new(7, |i: int| exists|j: int| 0 <= j <= i && parts[j] != 0)
}

/// The components up to the least significant one that is not zero.
pub open spec fn select_to_last_nonzero(parts: Seq<u128>) -> Seq<bool> {
    Seq::new(7, |i: int| exists|j: int| i <= j < 7 && parts[j] != 0)
}

/// The components from the most to the least significant one that is not zero.
pub open spec fn select_between_nonzero(parts: Seq<u128>) -> Seq<bool> {
    Seq::new(
        7,
        |i: int|
            (exists|j: int| 0 <= j <= i && parts[j] != 0) && (exists|j: int|
                i <= j < 7 && parts[j] != 0),
    )
}

proof fn lemma_nothing_selected(parts: Seq<u128>, select: Seq<bool>, n: nat)
    requires
        !any_selected(select, n),
    ensures
        parts_text(parts, select, n) == Seq::<char>::empty(),
    decreases n,
{
    if n > 0 {
        lemma_nothing_selected(parts, select, (n - 1) as nat);
    }
}

/// Writes the selected components with their units, separated by spaces.
fn write_parts<W: StyledWrite>(writer: &mut W, parts: &Vec<u128>, select: &Vec<bool>) -> (r:
    Result<(), std::io::Error>)
    requires
        parts.len() == 7,
        select.len() == 7,
    ensures
        final(writer).current_style() == old(writer).current_style(),
        final(writer).sink_never_fails() == old(writer).sink_never_fails(),
        final(writer).style_never_fails() == old(writer).style_never_fails(),
        old(writer).sink_never_fails() ==> r is Ok,
        r is Ok ==> final(writer).emitted() == old(writer).emitted() + parts_text(
            parts@,
            select@,
            7,
        ),
{
    let ghost start = writer.emitted();
    let mut is_first = true;
    let mut i: usize = 0;
    while i < 7
        invariant
            parts.len() == 7,
            select.len() == 7,
            0 <= i <= 7,
            writer.current_style() == old(writer).current_style(),
            writer.sink_never_fails() == old(writer).sink_never_fails(),
            writer.style_never_fails() == old(writer).style_never_fails(),
            writer.emitted() == start + parts_text(parts@, select@, i as nat),
            is_first == !any_selected(select@, i as nat),
        decreases 7 - i,
    {
        if select[i] {
            if !is_first {
                writer.write_str(" ")?;
            }
            write_decimal(writer, parts[i])?;
            writer.write_str(unit_str(i))?;
            proof {
                let part = decimal_text(parts[i as int] as nat) + unit_text(i as int);
                assert(parts_text(parts@, select@, (i + 1) as nat) == if is_first {
                    part
                } else {
                    parts_text(parts@, select@, i as nat) + " "@ + part
                });
                if is_first {
                    lemma_nothing_selected(parts@, select@, i as nat);
                }
                assert(writer.emitted() =~= start + parts_text(parts@, select@, (i + 1) as nat));
            }
            is_first = false;
        }
        i += 1;
    }
    Ok(())
}

/// Writes every component of `duration`.
pub fn write_all<W: StyledWrite>(writer: &mut W, duration: HumanDuration) -> (r: Result<
    (),
    std::io::Error,
>)
    ensures
        final(writer).current_style() == old(writer).current_style(),
        final(writer).sink_never_fails() == old(writer).sink_never_fails(),
        final(writer).style_never_fails() == old(writer).style_never_fails(),
        old(writer).sink_never_fails() ==> r is Ok,
        r is Ok ==> final(writer).emitted() == old(writer).emitted() + parts_text(
            duration@,
            select_all(),
            7,
        ),
{
    let select = vec![true, true, true, true, true, true, true];
    assert(select@ =~= select_all());
    write_parts(writer, &duration.components(), &select)
}

/// Writes the components of `duration` that are not zero.
pub fn write_nonzero<W: StyledWrite>(writer: &mut W, duration: HumanDuration) -> (r: Result<
    (),
    std::io::Error,
>)
    ensures
        final(writer).current_style() == old(writer).current_style(),
        final(writer).sink_never_fails() == old(writer).sink_never_fails(),
        final(writer).style_never_fails() == old(writer).style_never_fails(),
        old(writer).sink_never_fails() ==> r is Ok,
        r is Ok ==> final(writer).emitted() == old(writer).emitted() + parts_text(
            duration@,
            select_nonzero(duration@),
            7,
        ),
{
    let parts = duration.components();
    let mut select: Vec<bool> = Vec::new();
    let mut i: usize = 0;
    while i < 7
        invariant
            parts@ == duration@,
            0 <= i <= 7,
            select.len() == i,
            forall|k: int| 0 <= k < i ==> select[k] == (parts[k] != 0),
        decreases 7 - i,
    {
        select.push(parts[i] != 0);
        i += 1;
    }
    assert(select@ =~= select_nonzero(duration@));
    write_parts(writer, &parts, &select)
}

/// Writes the components of `duration` that are asked for.
#[allow(clippy::too_many_arguments)]
pub fn write_some<W: StyledWrite>(
    writer: &mut W,
    duration: HumanDuration,
    days: bool,
    hours: bool,
    minutes: bool,
    seconds: bool,
    milliseconds: bool,
    microseconds: bool,
    nanoseconds: bool,
) -> (r: Result<(), std::io::Error>)
    ensures
        final(writer).current_style() == old(writer).current_style(),
        final(writer).sink_never_fails() == old(writer).sink_never_fails(),
        final(writer).style_never_fails() == old(writer).style_never_fails(),
        old(writer).sink_never_fails() ==> r is Ok,
        r is Ok ==> final(writer).emitted() == old(writer).emitted() + parts_text(
            duration@,
            seq![days, hours, minutes, seconds, milliseconds, microseconds, nanoseconds],
            7,
        ),
{
    let select = vec![days, hours, minutes, seconds, milliseconds, microseconds, nanoseconds];
    assert(select@ =~= seq![days, hours, minutes, seconds, milliseconds, microseconds, nanoseconds]);
    write_parts(writer, &duration.components(), &select)
}

/// Writes `duration` from its most significant component that is not zero on.
pub fn write_skip_high_zeros<W: StyledWrite>(writer: &mut W, duration: HumanDuration) -> (r:
    Result<(), std::io::Error>)
    ensures
        final(writer).current_style() == old(writer).current_style(),
        final(writer).sink_never_fails() == old(writer).sink_never_fails(),
        final(writer).style_never_fails() == old(writer).style_never_fails(),
        old(writer).sink_never_fails() ==> r is Ok,
        r is Ok ==> final(writer).emitted() == old(writer).emitted() + parts_text(
            duration@,
            select_from_first_nonzero(duration@),
            7,
        ),
{
    let parts = duration.components();
    let select = from_first_nonzero(&parts);
    write_parts(writer, &parts, &select)
}

/// Writes `duration` up to its least significant component that is not zero.
pub fn write_skip_low_zeros<W: StyledWrite>(writer: &mut W, duration: HumanDuration) -> (r:
    Result<(), std::io::Error>)
    ensures
        final(writer).current_style() == old(writer).current_style(),
        final(writer).sink_never_fails() == old(writer).sink_never_fails(),
        final(writer).style_never_fails() == old(writer).style_never_fails(),
        old(writer).sink_never_fails() ==> r is Ok,
        r is Ok ==> final(writer).emitted() == old(writer).emitted() + parts_text(
            duration@,
            select_to_last_nonzero(duration@),
            7,
        ),
{
    let parts = duration.components();
    let select = to_last_nonzero(&parts);
    write_parts(writer, &parts, &select)
}

/// Writes `duration` from its most to its least significant component that is not zero.
pub fn write_skip_high_and_low_zeros<W: StyledWrite>(
    writer: &mut W,
    duration: HumanDuration,
) -> (r: Result<(), std::io::Error>)
    ensures
        final(writer).current_style() == old(writer).current_style(),
        final(writer).sink_never_fails() == old(writer).sink_never_fails(),
        final(writer).style_never_fails() == old(writer).style_never_fails(),
        old(writer).sink_never_fails() ==> r is Ok,
        r is Ok ==> final(writer).emitted() == old(writer).emitted() + parts_text(
            duration@,
            select_between_nonzero(duration@),
            7,
        ),
{
    let parts = duration.components();
    let high = from_first_nonzero(&parts);
    let low = to_last_nonzero(&parts);
    let mut select: Vec<bool> = Vec::new();
    let mut i: usize = 0;
    while i < 7
        invariant
            0 <= i <= 7,
            high@ == select_from_first_nonzero(parts@),
            low@ == select_to_last_nonzero(parts@),
            select.len() == i,
            forall|k: int| 0 <= k < i ==> select[k] == (high[k] && low[k]),
        decreases 7 - i,
    {
        select.push(high[i] && low[i]);
        i += 1;
    }
    assert(select@ =~= select_between_nonzero(parts@));
    write_parts(writer, &parts, &select)
}

fn from_first_nonzero(parts: &Vec<u128>) -> (r: Vec<bool>)
    requires
        parts.len() == 7,
    ensures
        r@ == select_from_first_nonzero(parts@),
{
    let mut select: Vec<bool> = Vec::new();
    let mut seen = false;
    let mut i: usize = 0;
    while i < 7
        invariant
            parts.len() == 7,
            0 <= i <= 7,
            select.len() == i,
            seen == (exists|j: int| 0 <= j < i && parts[j] != 0),
            forall|k: int|
                0 <= k < i ==> select[k] == (exists|j: int| 0 <= j <= k && parts[j] != 0),
        decreases 7 - i,
    {
        seen = seen || parts[i] != 0;
        select.push(seen);
        i += 1;
    }
    assert(select@ =~= select_from_first_nonzero(parts@));
    select
}

fn to_last_nonzero(parts: &Vec<u128>) -> (r: Vec<bool>)
    requires
        parts.len() == 7,
    ensures
        r@ == select_to_last_nonzero(parts@),
{
    let mut count: usize = 0;
    let mut i: usize = 0;
    while i < 7
        invariant
            parts.len() == 7,
            0 <= count <= i <= 7,
            count > 0 ==> parts[count - 1] != 0,
            forall|j: int| count <= j < i ==> parts[j] == 0,
        decreases 7 - i,
    {
        if parts[i] != 0 {
            count = i + 1;
        }
        i += 1;
    }
    let mut select: Vec<bool> = Vec::new();
    let mut k: usize = 0;
    while k < 7
        invariant
            parts.len() == 7,
            0 <= count <= 7,
            count > 0 ==> parts[count - 1] != 0,
            forall|j: int| count <= j < 7 ==> parts[j] == 0,
            0 <= k <= 7,
            select.len() == k,
            forall|m: int|
                0 <= m < k ==> select[m] == (exists|j: int| m <= j < 7 && parts[j] != 0),
        decreases 7 - k,
    {
        assert((k < count) == (exists|j: int| k <= j < 7 && parts[j] != 0)) by {
            if k < count {
                assert(k <= count - 1 < 7 && parts[count - 1] != 0);
            }
        }
        select.push(k < count);
        k += 1;
    }
    assert(select@ =~= select_to_last_nonzero(parts@));
    select
}

} // verus!
