//! Value objects of a stove's controls: operating modes, heating schedules
//! and status labels.
use vstd::prelude::*;

use crate::text::{
    all_digits, decimal, digit_char, digit_value, is_digit, padded2, padded2_text, signed_decimal,
    signed_decimal_text,
};

verus! {

/// A human-meaningful label for what a stove is doing.
#[derive(Clone, Copy, Debug, PartialEq, Eq, Structural)]
pub enum StatusDetail {
    Baking,
    BurnOff,
    Cleaning,
    Running,
    DeepCleaning,
    ExternalRequest,
    FrostProtection,
    HeatingUp,
    Ignition,
    Off,
    Standby,
    Startup,
    Unknown,
    SplitLogMode,
    SplitLogCheck,
}

/// One change that can be made to a stove's controls.
pub enum StoveControl {
    OperatingMode(OperatingMode),
    HeatingPower(i32),
    EnableHeatingSchedule(bool),
    HeatingSchedule(HeatingSchedule),
}

/// How a stove decides on its heating power.
#[derive(Clone, Copy, Debug, PartialEq, Eq, Structural)]
pub enum OperatingMode {
    Manual,
    Auto,
    Comfort,
}

/// Why a schedule value or an operating mode was refused.
#[derive(Clone, Copy, Debug, PartialEq, Eq, Structural)]
pub enum ModelError {
    InvalidOperatingMode(i32),
    HoursOutOfRange,
    MinutesOutOfRange,
    PeriodOverlapsTwoDays,
    MalformedTime,
    MalformedPeriod,
}

/// The number by which the portal knows an operating mode.
pub open spec fn mode_code(mode: OperatingMode) -> u8 {
    match mode {
        OperatingMode::Manual => 0,
        OperatingMode::Auto => 1,
        OperatingMode::Comfort => 2,
    }
}

/// The operating mode that the portal's number `code` stands for.
pub open spec fn mode_of_code(code: int) -> Option<OperatingMode> {
    if code == 0 {
        Some(OperatingMode::Manual)
    } else if code == 1 {
        Some(OperatingMode::Auto)
    } else if code == 2 {
        Some(OperatingMode::Comfort)
    } else {
        None
    }
}

impl OperatingMode {
    /// The number by which the portal knows this mode.
    pub fn code(self) -> (r: u8)
        ensures
            r == mode_code(self),
    {
        match self {
            OperatingMode::Manual => 0,
            OperatingMode::Auto => 1,
            OperatingMode::Comfort => 2,
        }
    }

    /// The mode that the portal's number `mode` stands for.
    pub fn parse(mode: i32) -> (r: Result<OperatingMode, ModelError>)
        ensures
            match mode_of_code(mode as int) {
                Some(m) => r == Ok::<OperatingMode, ModelError>(m),
                None => r == Err::<OperatingMode, ModelError>(ModelError::InvalidOperatingMode(mode)),
            },
    {
        match mode {
            0 => Ok(OperatingMode::Manual),
            1 => Ok(OperatingMode::Auto),
            2 => Ok(OperatingMode::Comfort),
            num => Err(ModelError::InvalidOperatingMode(num)),
        }
    }
}

impl ModelError {
    /// The text that explains this error.
    pub open spec fn message_spec(self) -> Seq<char> {
        match self {
            ModelError::InvalidOperatingMode(n) => signed_decimal(n as int)
                + " is not a valid OperatingMode"@,
            ModelError::HoursOutOfRange => "hours must be 0 <= hh <= 23"@,
            ModelError::MinutesOutOfRange => "minutes must be 0 <= hh <= 59"@,
            ModelError::PeriodOverlapsTwoDays => "Heat period can't overlap 2 days"@,
            ModelError::MalformedTime => "Heat time must be written as 4 digits HHMM"@,
            ModelError::MalformedPeriod => "Heat period must be written as 8 digits HHMMhhmm"@,
        }
    }

    /// The text that explains this error.
    pub fn message(&self) -> (r: String)
        ensures
            r@ == self.message_spec(),
    {
        match self {
            ModelError::InvalidOperatingMode(n) => {
                let number = signed_decimal_text(*n);
                number.concat(" is not a valid OperatingMode")
            },
            ModelError::HoursOutOfRange => "hours must be 0 <= hh <= 23".to_owned(),
            ModelError::MinutesOutOfRange => "minutes must be 0 <= hh <= 59".to_owned(),
            ModelError::PeriodOverlapsTwoDays => "Heat period can't overlap 2 days".to_owned(),
            ModelError::MalformedTime => "Heat time must be written as 4 digits HHMM".to_owned(),
            ModelError::MalformedPeriod => "Heat period must be written as 8 digits HHMMhhmm".to_owned(),
        }
    }
}

/// A time of day, to the minute.
#[derive(Clone, Copy, Debug, PartialEq, Eq, Structural)]
pub struct HeatTime {
    hours: u8,
    minutes: u8,
}

impl View for HeatTime {
    /// Hours, then minutes.
    type V = (u8, u8);

    closed spec fn view(&self) -> (u8, u8) {
        (self.hours, self.minutes)
    }
}

/// The error that `hours:minutes` is refused with as a time of day, if any.
pub open spec fn time_error(hours: int, minutes: int) -> Option<ModelError> {
    if hours > 23 {
        Some(ModelError::HoursOutOfRange)
    } else if minutes > 59 {
        Some(ModelError::MinutesOutOfRange)
    } else {
        None
    }
}

pub open spec fn valid_time(t: (u8, u8)) -> bool {
    t.0 <= 23 && t.1 <= 59
}

impl HeatTime {
    /// The time `hours:minutes`, refused unless it is a time of day.
    pub fn new(hours: u8, minutes: u8) -> (r: Result<HeatTime, ModelError>)
        ensures
            match time_error(hours as int, minutes as int) {
                None => r matches Ok(t) && t@ == (hours, minutes),
                Some(e) => r == Err::<HeatTime, ModelError>(e),
            },
    {
        if hours > 23 {
            return Err(ModelError::HoursOutOfRange);
        }
        if minutes > 59 {
            return Err(ModelError::MinutesOutOfRange);
        }
        Ok(HeatTime { hours, minutes })
    }

    /// Reads a time from its text `HHMM`.
    pub fn parse(s: &str) -> (r: Result<HeatTime, ModelError>)
        ensures
            match parse_time_spec(s@) {
                Ok(v) => r matches Ok(t) && t@ == v,
                Err(e) => r == Err::<HeatTime, ModelError>(e),
            },
    {
        if s.unicode_len() != 4 || !all_digits_exec(s) {
            return Err(ModelError::MalformedTime);
        }
        HeatTime::new(two_digits_exec(s, 0), two_digits_exec(s, 2))
    }
}

impl std::str::FromStr for HeatTime {
    type Err = ModelError;

    fn from_str(s: &str) -> Result<HeatTime, ModelError> {
        HeatTime::parse(s)
    }
}

impl Default for HeatTime {
    /// Midnight.
    fn default() -> (r: HeatTime)
        ensures
            r@ == (0u8, 0u8),
    {
        HeatTime { hours: 0, minutes: 0 }
    }
}

/// A span of heating within one day, from `begin` to `end`.
#[derive(Clone, Copy, Debug, PartialEq, Eq, Structural)]
pub struct HeatPeriod {
    begin: HeatTime,
    end: HeatTime,
}

impl View for HeatPeriod {
    /// Begin, then end.
    type V = ((u8, u8), (u8, u8));

    closed spec fn view(&self) -> ((u8, u8), (u8, u8)) {
        (self.begin@, self.end@)
    }
}

/// The empty period, midnight to midnight, that stands for "no heating".
pub open spec fn midnight() -> ((u8, u8), (u8, u8)) {
    ((0u8, 0u8), (0u8, 0u8))
}

pub open spec fn valid_period(p: ((u8, u8), (u8, u8))) -> bool {
    valid_time(p.0) && valid_time(p.1)
}

/// Whether `bh:bm` comes strictly before `eh:em` on the same day.
pub open spec fn ends_after_begin(bh: int, bm: int, eh: int, em: int) -> bool {
    bh < eh || (bh == eh && bm < em)
}

/// The error that a period from `bh:bm` to `eh:em` is refused with, if any:
/// only one that does not end after it begins, on the same day. The two
/// times are taken as they are, without a range check.
pub open spec fn period_error(bh: int, bm: int, eh: int, em: int) -> Option<ModelError> {
    if !ends_after_begin(bh, bm, eh, em) {
        Some(ModelError::PeriodOverlapsTwoDays)
    } else {
        None
    }
}

/// The wire form of a time: `HHMM`.
pub open spec fn time_text(t: (u8, u8)) -> Seq<char> {
    padded2(t.0 as nat) + padded2(t.1 as nat)
}

/// The wire form of a period: `HHMMhhmm`, begin then end.
pub open spec fn period_text(p: ((u8, u8), (u8, u8))) -> Seq<char> {
    time_text(p.0) + time_text(p.1)
}

/// The number written by the two digits of `s` at `i` and `i + 1`.
pub open spec fn two_digits_at(s: Seq<char>, i: int) -> int {
    10 * digit_value(s[i]) + digit_value(s[i + 1])
}

/// What the text `s` of a time reads as: four digits `HHMM` that make a
/// time of day.
pub open spec fn parse_time_spec(s: Seq<char>) -> Result<(u8, u8), ModelError> {
    if s.len() != 4 || !all_digits(s) {
        Err(ModelError::MalformedTime)
    } else {
        let h = two_digits_at(s, 0);
        let m = two_digits_at(s, 2);
        if time_error(h, m) is Some {
            Err(time_error(h, m)->0)
        } else {
            Ok((h as u8, m as u8))
        }
    }
}

/// What the wire form `s` of a period reads as: eight digits `HHMMhhmm`
/// that make two times of day.
pub open spec fn parse_period_spec(s: Seq<char>) -> Result<((u8, u8), (u8, u8)), ModelError> {
    if s.len() != 8 || !all_digits(s) {
        Err(ModelError::MalformedPeriod)
    } else {
        let bh = two_digits_at(s, 0);
        let bm = two_digits_at(s, 2);
        let eh = two_digits_at(s, 4);
        let em = two_digits_at(s, 6);
        if time_error(bh, bm) is Some {
            Err(time_error(bh, bm)->0)
        } else if time_error(eh, em) is Some {
            Err(time_error(eh, em)->0)
        } else {
            Ok(((bh as u8, bm as u8), (eh as u8, em as u8)))
        }
    }
}

/// The period that an optional wire form stands for; absent or unreadable
/// text stands for the empty period.
pub open spec fn period_or_midnight(s: Option<Seq<char>>) -> ((u8, u8), (u8, u8)) {
    match s {
        Some(t) => match parse_period_spec(t) {
            Ok(p) => p,
            Err(_) => midnight(),
        },
        None => midnight(),
    }
}

/// The character view of an optional string.
pub open spec fn text_of(s: Option<String>) -> Option<Seq<char>> {
    match s {
        Some(t) => Some(t@),
        None => None,
    }
}

proof fn lemma_digit_char(d: int)
    requires
        0 <= d < 10,
    ensures
        is_digit(digit_char(d)),
        digit_value(digit_char(d)) == d,
{
}

proof fn lemma_padded2(n: nat)
    requires
        n < 100,
    ensures
        padded2(n).len() == 2,
        is_digit(padded2(n)[0]),
        is_digit(padded2(n)[1]),
        10 * digit_value(padded2(n)[0]) + digit_value(padded2(n)[1]) == n,
{
    lemma_digit_char((n % 10) as int);
    lemma_digit_char((n / 10) as int);
    if n >= 10 {
        reveal_with_fuel(decimal, 2);
        assert(decimal(n / 10) == seq![digit_char((n / 10) as int)]);
    }
}

/// Writing a period in its wire form and reading it back gives the same
/// period.
pub proof fn lemma_period_round_trip(p: ((u8, u8), (u8, u8)))
    requires
        valid_period(p),
    ensures
        parse_period_spec(period_text(p)) == Ok::<((u8, u8), (u8, u8)), ModelError>(p),
{
    let a = padded2(p.0.0 as nat);
    let b = padded2(p.0.1 as nat);
    let c = padded2(p.1.0 as nat);
    let d = padded2(p.1.1 as nat);
    lemma_padded2(p.0.0 as nat);
    lemma_padded2(p.0.1 as nat);
    lemma_padded2(p.1.0 as nat);
    lemma_padded2(p.1.1 as nat);
    let s = period_text(p);
    assert(s =~= seq![a[0], a[1], b[0], b[1], c[0], c[1], d[0], d[1]]);
    assert forall|i: int| 0 <= i < s.len() implies #[trigger] is_digit(s[i]) by {
        if i < 2 {
        } else if i < 4 {
        } else if i < 6 {
        } else {
        }
    }
    assert(two_digits_at(s, 0) == p.0.0);
    assert(two_digits_at(s, 2) == p.0.1);
    assert(two_digits_at(s, 4) == p.1.0);
    assert(two_digits_at(s, 6) == p.1.1);
}

/// Writing the two periods of a day in their wire form and reading the day
/// back from those texts gives the same day.
pub proof fn lemma_daily_schedule_round_trip(day: DailySchedule)
    requires
        valid_period(day.first@),
        valid_period(day.second@),
    ensures
        period_or_midnight(Some(period_text(day.first@))) == day.first@,
        period_or_midnight(Some(period_text(day.second@))) == day.second@,
        forall|read: DailySchedule|
            read.first@ == period_or_midnight(Some(period_text(day.first@))) && read.second@
                == period_or_midnight(Some(period_text(day.second@))) ==> read == day,
{
    lemma_period_round_trip(day.first@);
    lemma_period_round_trip(day.second@);
    assert forall|read: DailySchedule|
        read.first@ == period_or_midnight(Some(period_text(day.first@))) && read.second@
            == period_or_midnight(Some(period_text(day.second@))) implies read == day by {
        HeatPeriod::lemma_view_injective(read.first, day.first);
        HeatPeriod::lemma_view_injective(read.second, day.second);
    }
}

/// Whether every character of `s` is a digit.
fn all_digits_exec(s: &str) -> (r: bool)
    ensures
        r == all_digits(s@),
{
    let n = s.unicode_len();
    let mut i: usize = 0;
    while i < n
        invariant
            n == s@.len(),
            i <= n,
            forall|j: int| 0 <= j < i ==> #[trigger] is_digit(s@[j]),
        decreases n - i,
    {
        let c = s.get_char(i);
        if !('0' <= c && c <= '9') {
            assert(!is_digit(s@[i as int]));
            return false;
        }
        i = i + 1;
    }
    true
}

/// Reads the two digits of `s` at `i` and `i + 1` as a number.
fn two_digits_exec(s: &str, i: usize) -> (r: u8)
    requires
        s@.len() <= 8,
        i + 2 <= s@.len(),
        is_digit(s@[i as int]),
        is_digit(s@[i + 1]),
    ensures
        r as int == two_digits_at(s@, i as int),
{
    let tens = s.get_char(i) as u32 - '0' as u32;
    let ones = s.get_char(i + 1) as u32 - '0' as u32;
    (tens * 10 + ones) as u8
}

impl HeatPeriod {
    /// The period from `begin_hours:begin_minutes` to `end_hours:end_minutes`,
    /// refused unless it ends after it begins, on the same day.
    pub fn new(begin_hours: u8, begin_minutes: u8, end_hours: u8, end_minutes: u8) -> (r: Result<
        HeatPeriod,
        ModelError,
    >)
        ensures
            match period_error(
                begin_hours as int,
                begin_minutes as int,
                end_hours as int,
                end_minutes as int,
            ) {
                None => r matches Ok(p) && p@ == ((begin_hours, begin_minutes), (
                    end_hours,
                    end_minutes,
                )),
                Some(e) => r == Err::<HeatPeriod, ModelError>(e),
            },
    {
        if begin_hours == end_hours {
            if begin_minutes >= end_minutes {
                return Err(ModelError::PeriodOverlapsTwoDays);
            }
        } else if begin_hours > end_hours {
            return Err(ModelError::PeriodOverlapsTwoDays);
        }
        Ok(
            HeatPeriod {
                begin: HeatTime { hours: begin_hours, minutes: begin_minutes },
                end: HeatTime { hours: end_hours, minutes: end_minutes },
            },
        )
    }

    /// Reads a period from its wire form `HHMMhhmm`.
    pub fn parse(s: &str) -> (r: Result<HeatPeriod, ModelError>)
        ensures
            match parse_period_spec(s@) {
                Ok(v) => r matches Ok(p) && p@ == v,
                Err(e) => r == Err::<HeatPeriod, ModelError>(e),
            },
    {
        if s.unicode_len() != 8 || !all_digits_exec(s) {
            return Err(ModelError::MalformedPeriod);
        }
        let begin = HeatTime::new(two_digits_exec(s, 0), two_digits_exec(s, 2))?;
        let end = HeatTime::new(two_digits_exec(s, 4), two_digits_exec(s, 6))?;
        Ok(HeatPeriod { begin, end })
    }

    /// The wire form `HHMMhhmm` of this period.
    pub fn encode(self) -> (r: String)
        ensures
            r@ == period_text(self@),
    {
        let bh = padded2_text(self.begin.hours);
        let bm = padded2_text(self.begin.minutes);
        let eh = padded2_text(self.end.hours);
        let em = padded2_text(self.end.minutes);
        let r = bh.concat(bm.as_str()).concat(eh.as_str()).concat(em.as_str());
        assert(r@ =~= period_text(self@));
        r
    }

    /// Two periods with the same times are the same value.
    pub proof fn lemma_view_injective(a: HeatPeriod, b: HeatPeriod)
        ensures
            a@ == b@ <==> a == b,
    {
    }
}

impl Default for HeatPeriod {
    /// The empty period, midnight to midnight.
    fn default() -> (r: HeatPeriod)
        ensures
            r@ == midnight(),
    {
        HeatPeriod { begin: HeatTime::default(), end: HeatTime::default() }
    }
}

impl std::str::FromStr for HeatPeriod {
    type Err = ModelError;

    fn from_str(s: &str) -> Result<HeatPeriod, ModelError> {
        HeatPeriod::parse(s)
    }
}

/// The heating of one day: two periods, the second empty when unused.
#[derive(Clone, Copy, Debug, PartialEq, Eq, Structural)]
pub struct DailySchedule {
    pub first: HeatPeriod,
    pub second: HeatPeriod,
}

impl DailySchedule {
    /// A day with `first_period`, and `second_period` or else an empty one.
    pub fn new(first_period: HeatPeriod, second_period: Option<HeatPeriod>) -> (r: DailySchedule)
        ensures
            r.first == first_period,
            second_period matches Some(p) ==> r.second == p,
            second_period is None ==> r.second@ == midnight(),
    {
        let second = match second_period {
            Some(p) => p,
            None => HeatPeriod::default(),
        };
        DailySchedule { first: first_period, second }
    }

    /// A day with one period of heating.
    pub fn single(heat_period: HeatPeriod) -> (r: DailySchedule)
        ensures
            r.first == heat_period,
            r.second@ == midnight(),
    {
        DailySchedule { first: heat_period, second: HeatPeriod::default() }
    }

    /// A day with two periods of heating.
    pub fn dual(first_period: HeatPeriod, second_period: HeatPeriod) -> (r: DailySchedule)
        ensures
            r.first == first_period,
            r.second == second_period,
    {
        DailySchedule { first: first_period, second: second_period }
    }

    /// A day read from the wire forms of its two periods; a missing or
    /// unreadable one is the empty period.
    pub fn from(first: Option<String>, second: Option<String>) -> (r: DailySchedule)
        ensures
            r.first@ == period_or_midnight(text_of(first)),
            r.second@ == period_or_midnight(text_of(second)),
    {
        read_daily(&first, &second)
    }
}

/// A day read from the optional wire forms of its two periods.
pub(crate) fn read_daily(first: &Option<String>, second: &Option<String>) -> (r: DailySchedule)
    ensures
        r.first@ == period_or_midnight(text_of(*first)),
        r.second@ == period_or_midnight(text_of(*second)),
{
    DailySchedule { first: period_or_default(first), second: period_or_default(second) }
}

/// The period that an optional wire form stands for.
fn period_or_default(text: &Option<String>) -> (r: HeatPeriod)
    ensures
        r@ == period_or_midnight(text_of(*text)),
{
    match text {
        Some(s) => match HeatPeriod::parse(s.as_str()) {
            Ok(p) => p,
            Err(_) => HeatPeriod::default(),
        },
        None => HeatPeriod::default(),
    }
}

impl Default for DailySchedule {
    /// A day without heating.
    fn default() -> (r: DailySchedule)
        ensures
            r.first@ == midnight(),
            r.second@ == midnight(),
    {
        DailySchedule { first: HeatPeriod::default(), second: HeatPeriod::default() }
    }
}

/// The heating of each day of the week.
#[derive(Clone, Copy, Debug, PartialEq, Eq, Structural)]
pub struct HeatingSchedule {
    pub monday: DailySchedule,
    pub tuesday: DailySchedule,
    pub wednesday: DailySchedule,
    pub thursday: DailySchedule,
    pub friday: DailySchedule,
    pub saturday: DailySchedule,
    pub sunday: DailySchedule,
}

impl HeatingSchedule {
    /// The same heating on every day.
    pub fn all_same(day_schedule: DailySchedule) -> (r: HeatingSchedule)
        ensures
            r.monday == day_schedule,
            r.tuesday == day_schedule,
            r.wednesday == day_schedule,
            r.thursday == day_schedule,
            r.friday == day_schedule,
            r.saturday == day_schedule,
            r.sunday == day_schedule,
    {
        HeatingSchedule {
            monday: day_schedule,
            tuesday: day_schedule,
            wednesday: day_schedule,
            thursday: day_schedule,
            friday: day_schedule,
            saturday: day_schedule,
            sunday: day_schedule,
        }
    }

    /// `week_day` from Monday to Friday, `week_end` on Saturday and Sunday.
    pub fn week_vs_end_days(week_day: DailySchedule, week_end: DailySchedule) -> (r:
        HeatingSchedule)
        ensures
            r.monday == week_day,
            r.tuesday == week_day,
            r.wednesday == week_day,
            r.thursday == week_day,
            r.friday == week_day,
            r.saturday == week_end,
            r.sunday == week_end,
    {
        HeatingSchedule {
            monday: week_day,
            tuesday: week_day,
            wednesday: week_day,
            thursday: week_day,
            friday: week_day,
            saturday: week_end,
            sunday: week_end,
        }
    }
}

} // verus!
