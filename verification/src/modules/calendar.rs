//! Calendar module: configuration, Gregorian and Discordian date
//! arithmetic, the date shown on the bar and the cells of the month/season
//! grid in the popup. Dates are checked and numbered by `chrono`.

use vstd::prelude::*;
use crate::text::{i32_to_string, int_to_decimal, nat_digits, u64_to_string};
use crate::widgets::{CellStyle, TableCell};

verus! {

/// Calendar system used for date display.
#[derive(Debug, Clone, Copy, Default, PartialEq, Eq, Structural)]
pub enum CalendarSystem {
    #[default]
    Gregorian,
    Discordian,
    Custom,
}

/// Configuration for the calendar / date display module.
#[derive(Debug, Default, Clone, PartialEq, Eq)]
pub struct CalendarConfig {
    /// Calendar system to display.
    pub system: CalendarSystem,
    /// Show week numbers in the grid.
    pub show_week_numbers: bool,
    /// First day of the week: "monday" or "sunday".
    pub first_day: String,
    /// Custom strftime format for Gregorian display (overrides default).
    pub date_format: Option<String>,
}

/// Default first day of the week.
pub fn default_first_day() -> (r: String)
    ensures
        r@ == "monday"@,
{
    "monday".to_owned()
}

/// Gregorian leap-year rule.
pub open spec fn is_leap_year_spec(year: int) -> bool {
    (year % 4 == 0 && year % 100 != 0) || year % 400 == 0
}

/// Is `year` a Gregorian leap year?
pub fn is_leap_year(year: i32) -> (r: bool)
    ensures
        r == is_leap_year_spec(year as int),
{
    (year % 4 == 0 && year % 100 != 0) || year % 400 == 0
}

/// Number of days of a Gregorian month.
pub open spec fn days_in_month_spec(year: int, month: int) -> int {
    if month == 2 {
        if is_leap_year_spec(year) {
            29
        } else {
            28
        }
    } else if month == 4 || month == 6 || month == 9 || month == 11 {
        30
    } else {
        31
    }
}

/// `year-month-day` is a day of the Gregorian calendar.
pub open spec fn valid_date(year: int, month: int, day: int) -> bool {
    1 <= month <= 12 && 1 <= day <= days_in_month_spec(year, month)
}

/// Years `chrono::NaiveDate` can represent.
pub open spec fn in_date_range(year: int) -> bool {
    -262143 <= year <= 262142
}

/// Days of the year before the first of `month`.
pub open spec fn days_before_month(year: int, month: int) -> int
    decreases month,
{
    if month <= 1 {
        0
    } else {
        days_before_month(year, month - 1) + days_in_month_spec(year, month - 1)
    }
}

/// Day of the year, counted from 1.
pub open spec fn ordinal_spec(year: int, month: int, day: int) -> int {
    days_before_month(year, month) + day
}

/// Leap years from year 0 up to, not including, `year` (counted negative
/// for years before 0).
pub open spec fn leap_years_before(year: int) -> int {
    (year - 1) / 4 - (year - 1) / 100 + (year - 1) / 400 + 1
}

/// Days from 0000-01-01 of the proleptic Gregorian calendar to
/// `year-month-day` (negative before it).
pub open spec fn day_number(year: int, month: int, day: int) -> int {
    365 * year + leap_years_before(year) + ordinal_spec(year, month, day) - 1
}

/// Day of the week of a date, 0 for Sunday; 0000-01-01, day number 0, was
/// a Saturday.
pub open spec fn weekday_from_sunday(year: int, month: int, day: int) -> int {
    (day_number(year, month, day) + 6) % 7
}

/// English name of a weekday, 0 for Sunday.
pub open spec fn weekday_name(w: int) -> Seq<char> {
    if w == 0 {
        "Sunday"@
    } else if w == 1 {
        "Monday"@
    } else if w == 2 {
        "Tuesday"@
    } else if w == 3 {
        "Wednesday"@
    } else if w == 4 {
        "Thursday"@
    } else if w == 5 {
        "Friday"@
    } else {
        "Saturday"@
    }
}

/// Decimal digits of `n`, with leading zeros up to `width` characters.
pub open spec fn zero_padded(n: nat, width: nat) -> Seq<char> {
    let digits = nat_digits(n);
    if digits.len() < width {
        Seq::new((width - digits.len()) as nat, |i: int| '0') + digits
    } else {
        digits
    }
}

/// A year as `%Y` writes it: years 0 to 9999 as four digits, other years
/// with a sign and at least four digits.
pub open spec fn year_text(year: int) -> Seq<char> {
    if 0 <= year <= 9999 {
        zero_padded(year as nat, 4)
    } else if year < 0 {
        seq!['-'] + zero_padded((-year) as nat, 4)
    } else {
        seq!['+'] + zero_padded(year as nat, 4)
    }
}

/// `%A, %B %-d, %Y`: weekday and month by name, the day without padding,
/// then the year, e.g. `Saturday, April 4, 2026`.
pub open spec fn long_date_text(year: int, month: int, day: int) -> Seq<char> {
    weekday_name(weekday_from_sunday(year, month, day)) + ", "@ + month_name(month) + " "@
        + nat_digits(day as nat) + ", "@ + year_text(year)
}

/// `%Y-%m-%d`: the year, then month and day as two digits each, e.g.
/// `2026-04-04`.
pub open spec fn iso_date_text(year: int, month: int, day: int) -> Seq<char> {
    year_text(year) + "-"@ + zero_padded(month as nat, 2) + "-"@ + zero_padded(day as nat, 2)
}

/// `chrono::NaiveDate::from_ymd_opt`, answering with the date's day of the
/// year (`Datelike::ordinal`). Some exactly for a real date in chrono's year
/// range.
#[verifier::external_body]
fn chrono_ordinal(year: i32, month: u32, day: u32) -> (r: Option<u32>)
    ensures
        r is Some <==> (valid_date(year as int, month as int, day as int) && in_date_range(year as int)),
        r matches Some(o) ==> o == ordinal_spec(year as int, month as int, day as int),
{
    match chrono::NaiveDate::from_ymd_opt(year, month, day) {
        Some(date) => Some(chrono::Datelike::ordinal(&date)),
        None => None,
    }
}

/// `chrono::Datelike::weekday` of the date `NaiveDate::from_ymd_opt` gives,
/// as `Weekday::num_days_from_sunday`. `NaiveDate` follows the proleptic
/// Gregorian calendar, so the weekday is the day count taken modulo seven.
#[verifier::external_body]
fn chrono_weekday(year: i32, month: u32, day: u32) -> (r: Option<u32>)
    ensures
        r is Some <==> (valid_date(year as int, month as int, day as int) && in_date_range(year as int)),
        r matches Some(w) ==> w == weekday_from_sunday(year as int, month as int, day as int),
{
    match chrono::NaiveDate::from_ymd_opt(year, month, day) {
        Some(date) => Some(chrono::Datelike::weekday(&date).num_days_from_sunday()),
        None => None,
    }
}

/// `NaiveDate::format(pattern).to_string()` for one of the two fixed
/// patterns the calendar uses, in chrono's default (English) locale: the
/// text the pattern's fields give, field by field.
#[verifier::external_body]
fn chrono_format(year: i32, month: u32, day: u32, pattern: &str) -> (r: String)
    requires
        valid_date(year as int, month as int, day as int),
        in_date_range(year as int),
        pattern@ == "%A, %B %-d, %Y"@ || pattern@ == "%Y-%m-%d"@,
    ensures
        pattern@ == "%A, %B %-d, %Y"@ ==> r@ == long_date_text(year as int, month as int, day as int),
        pattern@ == "%Y-%m-%d"@ ==> r@ == iso_date_text(year as int, month as int, day as int),
{
    match chrono::NaiveDate::from_ymd_opt(year, month, day) {
        Some(date) => date.format(pattern).to_string(),
        None => String::new(),
    }
}

/// A day of the Gregorian calendar with its day-of-year number.
#[derive(Debug, Clone, Copy, PartialEq, Eq)]
pub struct CalendarDate {
    pub year: i32,
    pub month: u32,
    pub day: u32,
    /// Day of the year, from 1.
    pub ordinal: u32,
}

impl CalendarDate {
    /// A real date that `chrono` can represent, with its ordinal.
    pub open spec fn wf(&self) -> bool {
        &&& valid_date(self.year as int, self.month as int, self.day as int)
        &&& in_date_range(self.year as int)
        &&& self.ordinal == ordinal_spec(self.year as int, self.month as int, self.day as int)
    }

    /// The date `year-month-day`, or none when there is no such day (or
    /// `chrono` cannot represent its year).
    pub fn new(year: i32, month: u32, day: u32) -> (r: Option<CalendarDate>)
        ensures
            r is Some <==> (valid_date(year as int, month as int, day as int) && in_date_range(
                year as int,
            )),
            r matches Some(d) ==> d.wf() && d.year == year && d.month == month && d.day == day,
    {
        match chrono_ordinal(year, month, day) {
            Some(ordinal) => Some(CalendarDate { year, month, day, ordinal }),
            None => None,
        }
    }
}

/// Name of the Discordian season with index `i` (0–4).
pub open spec fn season_name(i: int) -> Seq<char> {
    if i == 0 {
        "Chaos"@
    } else if i == 1 {
        "Discord"@
    } else if i == 2 {
        "Confusion"@
    } else if i == 3 {
        "Bureaucracy"@
    } else {
        "The Aftermath"@
    }
}

/// Name of the Discordian weekday with index `i` (0–4).
pub open spec fn discordian_day_name(i: int) -> Seq<char> {
    if i == 0 {
        "Sweetmorn"@
    } else if i == 1 {
        "Boomtime"@
    } else if i == 2 {
        "Pungenday"@
    } else if i == 3 {
        "Prickle-Prickle"@
    } else {
        "Setting Orange"@
    }
}

/// Is the date St. Tib's Day (February 29th), which lies outside the
/// Discordian weeks and seasons?
pub open spec fn is_st_tibs(d: CalendarDate) -> bool {
    is_leap_year_spec(d.year as int) && d.month == 2 && d.day == 29
}

/// Day of the 365-day Discordian year (1-based): leap years skip St. Tib's Day.
pub open spec fn discordian_day_of_year(d: CalendarDate) -> int {
    if is_leap_year_spec(d.year as int) && d.ordinal > 60 {
        d.ordinal - 1
    } else {
        d.ordinal as int
    }
}

/// The Discordian rendering of a date: `<weekday>, <season> <day>, YOLD
/// <year + 1166>`, or `St. Tib's Day, YOLD <year>`.
pub open spec fn discordian_text(d: CalendarDate) -> Seq<char> {
    let yold = int_to_decimal(d.year + 1166);
    if is_st_tibs(d) {
        "St. Tib's Day, YOLD "@ + yold
    } else {
        let idx = discordian_day_of_year(d) - 1;
        discordian_day_name(idx % 5) + ", "@ + season_name(idx / 73) + " "@ + nat_digits(
            (idx % 73 + 1) as nat,
        ) + ", YOLD "@ + yold
    }
}

fn season_str(i: u32) -> (r: &'static str)
    ensures
        r@ == season_name(i as int),
{
    if i == 0 {
        "Chaos"
    } else if i == 1 {
        "Discord"
    } else if i == 2 {
        "Confusion"
    } else if i == 3 {
        "Bureaucracy"
    } else {
        "The Aftermath"
    }
}

fn discordian_day_str(i: u32) -> (r: &'static str)
    ensures
        r@ == discordian_day_name(i as int),
{
    if i == 0 {
        "Sweetmorn"
    } else if i == 1 {
        "Boomtime"
    } else if i == 2 {
        "Pungenday"
    } else if i == 3 {
        "Prickle-Prickle"
    } else {
        "Setting Orange"
    }
}

/// Day of the 365-day Discordian year of a date other than St. Tib's Day.
fn discordian_doy(date: &CalendarDate) -> (r: u32)
    requires
        date.wf(),
    ensures
        r == discordian_day_of_year(*date),
        !is_st_tibs(*date) ==> 1 <= r <= 365,
{
    proof {
        lemma_ordinal_bounds(date.year as int, date.month as int, date.day as int);
    }
    if is_leap_year(date.year) && date.ordinal > 60 {
        date.ordinal - 1
    } else {
        date.ordinal
    }
}

/// Ordinals run from 1 to the length of the year, and leap years reach
/// past 60 exactly after February 29th.
proof fn lemma_ordinal_bounds(year: int, month: int, day: int)
    requires
        valid_date(year, month, day),
    ensures
        1 <= ordinal_spec(year, month, day) <= (if is_leap_year_spec(year) {
            366int
        } else {
            365int
        }),
        is_leap_year_spec(year) && !(month == 2 && day == 29) && ordinal_spec(year, month, day)
            > 60 ==> month >= 3,
        is_leap_year_spec(year) && month >= 3 ==> ordinal_spec(year, month, day) > 60,
        month <= 2 ==> ordinal_spec(year, month, day) <= 60,
{
    reveal_with_fuel(days_before_month, 13);
}

/// The Discordian date of a Gregorian one (see [`discordian_text`]).
pub fn to_discordian(date: &CalendarDate) -> (r: String)
    requires
        date.wf(),
    ensures
        r@ == discordian_text(*date),
{
    let yold = i32_to_string(date.year + 1166);
    if is_leap_year(date.year) && date.month == 2 && date.day == 29 {
        let mut s = "St. Tib's Day, YOLD ".to_owned();
        s.append(yold.as_str());
        return s;
    }
    let doy = discordian_doy(date);
    let idx = doy - 1;
    let mut s = discordian_day_str(idx % 5).to_owned();
    s.append(", ");
    s.append(season_str(idx / 73));
    s.append(" ");
    s.append(u64_to_string((idx % 73 + 1) as u64).as_str());
    s.append(", YOLD ");
    s.append(yold.as_str());
    s
}

/// Discordian season (0–4) and day of season (1–73) of a date; St. Tib's
/// Day is placed at Chaos 59.
pub open spec fn discordian_season_spec(d: CalendarDate) -> (int, int) {
    if is_st_tibs(d) {
        (0, 59)
    } else {
        let idx = discordian_day_of_year(d) - 1;
        (idx / 73, idx % 73 + 1)
    }
}

/// Discordian season index and day of season of a date.
pub fn gregorian_to_discordian_season(date: &CalendarDate) -> (r: (usize, u32))
    requires
        date.wf(),
    ensures
        r.0 as int == discordian_season_spec(*date).0,
        r.1 as int == discordian_season_spec(*date).1,
        r.0 < 5,
        1 <= r.1 <= 73,
{
    if is_leap_year(date.year) && date.month == 2 && date.day == 29 {
        return (0, 59);
    }
    let doy = discordian_doy(date);
    let idx = doy - 1;
    ((idx / 73) as usize, idx % 73 + 1)
}

/// Number of days in `month` of `year`.
pub fn days_in_gregorian_month(year: i32, month: u32) -> (r: u32)
    requires
        1 <= month <= 12,
        in_date_range(year as int),
        month < 12 || year < 262142,
    ensures
        r == days_in_month_spec(year as int, month as int),
{
    if month == 2 {
        if is_leap_year(year) {
            29
        } else {
            28
        }
    } else if month == 4 || month == 6 || month == 9 || month == 11 {
        30
    } else {
        31
    }
}

/// English name of a Gregorian month; `Unknown` outside 1–12.
pub open spec fn month_name(month: int) -> Seq<char> {
    if month == 1 {
        "January"@
    } else if month == 2 {
        "February"@
    } else if month == 3 {
        "March"@
    } else if month == 4 {
        "April"@
    } else if month == 5 {
        "May"@
    } else if month == 6 {
        "June"@
    } else if month == 7 {
        "July"@
    } else if month == 8 {
        "August"@
    } else if month == 9 {
        "September"@
    } else if month == 10 {
        "October"@
    } else if month == 11 {
        "November"@
    } else if month == 12 {
        "December"@
    } else {
        "Unknown"@
    }
}

/// English name of a Gregorian month; `Unknown` outside 1–12.
pub fn gregorian_month_name(month: u32) -> (r: &'static str)
    ensures
        r@ == month_name(month as int),
{
    if month == 1 {
        "January"
    } else if month == 2 {
        "February"
    } else if month == 3 {
        "March"
    } else if month == 4 {
        "April"
    } else if month == 5 {
        "May"
    } else if month == 6 {
        "June"
    } else if month == 7 {
        "July"
    } else if month == 8 {
        "August"
    } else if month == 9 {
        "September"
    } else if month == 10 {
        "October"
    } else if month == 11 {
        "November"
    } else if month == 12 {
        "December"
    } else {
        "Unknown"
    }
}


/// Text of cell `k` of a grid whose day 1 sits in cell `first` and which
/// has `days` days: the day number, or empty outside the month.
pub open spec fn cell_text(first: int, days: int, k: int) -> Seq<char> {
    if first <= k < first + days {
        nat_digits((k - first + 1) as nat)
    } else {
        Seq::empty()
    }
}

/// Style of cell `k`: today's day is highlighted, everything else normal.
pub open spec fn cell_style(first: int, days: int, today: Option<u32>, k: int) -> CellStyle {
    if first <= k < first + days && today == Some((k - first + 1) as u32) {
        CellStyle::Highlighted
    } else {
        CellStyle::Normal
    }
}

/// `rows` lays out the cells row by row, `width` per row, with as many rows
/// as the last day needs.
pub open spec fn is_grid(rows: Seq<Vec<TableCell>>, width: int, first: int, days: int, today: Option<u32>) -> bool {
    &&& rows.len() == (first + days + width - 1) / width
    &&& forall|r: int| 0 <= r < rows.len() ==> (#[trigger] rows[r])@.len() == width
    &&& forall|r: int, c: int|
        0 <= r < rows.len() && 0 <= c < width ==> (#[trigger] rows[r]@[c]).text@ == cell_text(
            first,
            days,
            r * width + c,
        ) && rows[r]@[c].style == cell_style(first, days, today, r * width + c)
}

fn make_cell(first: u32, days: u32, today: Option<u32>, k: u32) -> (r: TableCell)
    requires
        first + days <= 1000,
    ensures
        r.text@ == cell_text(first as int, days as int, k as int),
        r.style == cell_style(first as int, days as int, today, k as int),
{
    if first <= k && k < first + days {
        let day = k - first + 1;
        let style = match today {
            Some(t) => if t == day {
                CellStyle::Highlighted
            } else {
                CellStyle::Normal
            },
            None => CellStyle::Normal,
        };
        TableCell { text: u64_to_string(day as u64), style }
    } else {
        TableCell { text: String::new(), style: CellStyle::Normal }
    }
}

/// The cells of a grid, row by row (see [`is_grid`]).
pub fn fill_grid(width: u32, first: u32, days: u32, today: Option<u32>) -> (rows: Vec<Vec<TableCell>>)
    requires
        1 <= width <= 7,
        first < 7,
        days <= 73,
    ensures
        is_grid(rows@, width as int, first as int, days as int, today),
{
    let nrows = (first + days + width - 1) / width;
    assert(nrows <= 86) by (nonlinear_arith)
        requires
            nrows == (first + days + width - 1) / (width as int),
            first + days + width - 1 <= 86,
            width >= 1,
    ;
    let mut rows: Vec<Vec<TableCell>> = Vec::new();
    let mut r: u32 = 0;
    while r < nrows
        invariant
            1 <= width <= 7,
            first < 7,
            days <= 73,
            nrows == (first + days + width - 1) / (width as int),
            nrows <= 86,
            r <= nrows,
            rows@.len() == r,
            forall|i: int| 0 <= i < rows@.len() ==> (#[trigger] rows@[i])@.len() == width,
            forall|i: int, c: int|
                0 <= i < rows@.len() && 0 <= c < width ==> (#[trigger] rows@[i]@[c]).text@
                    == cell_text(first as int, days as int, i * width + c) && rows@[i]@[c].style
                    == cell_style(first as int, days as int, today, i * width + c),
        decreases nrows - r,
    {
        assert(r * width <= 86 * 7) by (nonlinear_arith)
            requires
                r <= 86,
                width <= 7,
        ;
        let base = r * width;
        let mut row: Vec<TableCell> = Vec::new();
        let mut c: u32 = 0;
        while c < width
            invariant
                1 <= width <= 7,
                first < 7,
                days <= 73,
                base == r * width,
                base <= 86 * 7,
                c <= width,
                row@.len() == c,
                forall|j: int| 0 <= j < c ==> (#[trigger] row@[j]).text@ == cell_text(
                    first as int,
                    days as int,
                    base + j,
                ) && row@[j].style == cell_style(first as int, days as int, today, base + j),
            decreases width - c,
        {
            let cell = make_cell(first, days, today, base + c);
            row.push(cell);
            c += 1;
        }
        rows.push(row);
        r += 1;
    }
    rows
}

/// Title of a Gregorian month grid, e.g. `April 2026`.
pub fn gregorian_month_title(year: i32, month: u32) -> (r: String)
    ensures
        r@ == month_name(month as int) + " "@ + int_to_decimal(year as int),
{
    let mut s = gregorian_month_name(month).to_owned();
    s.append(" ");
    s.append(i32_to_string(year).as_str());
    s
}

/// Cells of the Gregorian month grid, weeks starting on Sunday: blanks
/// before the first, then each day (today's highlighted), padded to a
/// whole week.
pub fn gregorian_month_cells(year: i32, month: u32, today: Option<u32>) -> (rows: Vec<Vec<TableCell>>)
    requires
        1 <= month <= 12,
        in_date_range(year as int),
        month < 12 || year < 262142,
    ensures
        is_grid(
            rows@,
            7,
            weekday_from_sunday(year as int, month as int, 1),
            days_in_month_spec(year as int, month as int),
            today,
        ),
{
    let first = match chrono_weekday(year, month, 1) {
        Some(w) => w,
        None => 0,
    };
    let days = days_in_gregorian_month(year, month);
    fill_grid(7, first, days, today)
}

/// The Gregorian month grid as a reader sees it: weeks of seven cells from
/// Sunday; the first row starts with one blank per weekday before the 1st;
/// read row by row, the cells then hold the days `1`, `2`, … up to the
/// month's last day, which lies in the last row; only that row ends in
/// blanks; a day is highlighted exactly when it is today, blanks never.
pub proof fn law_month_grid_layout(rows: Seq<Vec<TableCell>>, year: int, month: int, today: Option<u32>)
    requires
        1 <= month <= 12,
        is_grid(rows, 7, weekday_from_sunday(year, month, 1), days_in_month_spec(year, month), today),
    ensures
        ({
            let f = weekday_from_sunday(year, month, 1);
            let n = days_in_month_spec(year, month);
            &&& 0 <= f < 7
            &&& 28 <= n <= 31
            &&& rows.len() >= 1
            &&& forall|r: int| 0 <= r < rows.len() ==> (#[trigger] rows[r])@.len() == 7
            &&& forall|c: int| 0 <= c < f ==> (#[trigger] rows[0]@[c]).text@.len() == 0
            &&& forall|d: int|
                #![trigger nat_digits(d as nat)]
                1 <= d <= n ==> {
                    let k = f + d - 1;
                    &&& rows[k / 7]@[k % 7].text@ == nat_digits(d as nat)
                    &&& (rows[k / 7]@[k % 7].style == CellStyle::Highlighted <==> today == Some(
                        d as u32,
                    ))
                }
            &&& (f + n - 1) / 7 == rows.len() - 1
            &&& forall|r: int, c: int|
                0 <= r < rows.len() && 0 <= c < 7 && r * 7 + c >= f + n ==> r == rows.len() - 1
                    && (#[trigger] rows[r]@[c]).text@.len() == 0 && rows[r]@[c].style
                    == CellStyle::Normal
        }),
{
    let f = weekday_from_sunday(year, month, 1);
    let n = days_in_month_spec(year, month);
    let len = rows.len() as int;
    assert(len == (f + n + 6) / 7);
    assert(7 * len <= f + n + 6 && f + n <= 7 * len) by (nonlinear_arith)
        requires
            len == (f + n + 6) / 7,
            0 <= f < 7,
            28 <= n <= 31,
    ;
    assert((f + n - 1) / 7 == len - 1) by (nonlinear_arith)
        requires
            7 * len <= f + n + 6,
            f + n <= 7 * len,
            0 <= f < 7,
            28 <= n <= 31,
    ;
    assert forall|c: int| 0 <= c < f implies (#[trigger] rows[0]@[c]).text@.len() == 0 by {
        assert(rows[0]@[c].text@ == cell_text(f, n, 0 * 7 + c));
    }
    assert forall|d: int|
        #![trigger nat_digits(d as nat)]
        1 <= d <= n implies {
            let k = f + d - 1;
            &&& rows[k / 7]@[k % 7].text@ == nat_digits(d as nat)
            &&& (rows[k / 7]@[k % 7].style == CellStyle::Highlighted <==> today == Some(d as u32))
        } by {
        let k = f + d - 1;
        let r = k / 7;
        let c = k % 7;
        assert(r * 7 + c == k && 0 <= c < 7 && 0 <= r < len) by (nonlinear_arith)
            requires
                r == k / 7,
                c == k % 7,
                0 <= k < f + n,
                f + n <= 7 * len,
        ;
        assert(rows[r]@[c].text@ == cell_text(f, n, r * 7 + c));
        assert(rows[r]@[c].style == cell_style(f, n, today, r * 7 + c));
    }
    assert forall|r: int, c: int|
        0 <= r < len && 0 <= c < 7 && r * 7 + c >= f + n implies r == len - 1 && (
        #[trigger] rows[r]@[c]).text@.len() == 0 && rows[r]@[c].style == CellStyle::Normal by {
        assert(rows[r]@[c].text@ == cell_text(f, n, r * 7 + c));
        assert(rows[r]@[c].style == cell_style(f, n, today, r * 7 + c));
        assert(r == len - 1) by (nonlinear_arith)
            requires
                0 <= r < len,
                0 <= c < 7,
                r * 7 + c >= f + n,
                7 * len <= f + n + 6,
        ;
    }
}

/// Title of a Discordian season grid, e.g. `Chaos, YOLD 3192`.
pub fn discordian_season_title(year: i32, season_index: usize) -> (r: String)
    requires
        in_date_range(year as int),
        season_index < 5,
    ensures
        r@ == season_name(season_index as int) + ", YOLD "@ + int_to_decimal(year + 1166),
{
    let mut s = season_str(season_index as u32).to_owned();
    s.append(", YOLD ");
    s.append(i32_to_string(year + 1166).as_str());
    s
}

/// Cells of a Discordian season grid: its 73 days in five-day weeks, the
/// given day of season highlighted, the last week padded with blanks.
pub fn discordian_season_cells(today_season_day: Option<u32>) -> (rows: Vec<Vec<TableCell>>)
    ensures
        is_grid(rows@, 5, 0, 73, today_season_day),
{
    fill_grid(5, 0, 73, today_season_day)
}

/// Runtime state for the calendar / date display module.
#[derive(Debug)]
pub struct CalendarModule {
    pub config: CalendarConfig,
    /// Text shown on the bar, recomputed when the date changes.
    pub display_text: String,
    /// Date at which `display_text` was last computed.
    pub last_date: Option<CalendarDate>,
}

/// The text shown for a date: Discordian dates are computed here; with a
/// custom `date_format` the runtime formats the current local time with it
/// (`now_formatted`); otherwise `chrono` formats the date, long form for
/// Gregorian, ISO form for Custom.
pub open spec fn display_for(config: CalendarConfig, d: CalendarDate, now_formatted: Seq<char>) -> Seq<char> {
    match config.system {
        CalendarSystem::Gregorian => match config.date_format {
            Some(_) => now_formatted,
            None => long_date_text(d.year as int, d.month as int, d.day as int),
        },
        CalendarSystem::Discordian => discordian_text(d),
        CalendarSystem::Custom => match config.date_format {
            Some(_) => now_formatted,
            None => iso_date_text(d.year as int, d.month as int, d.day as int),
        },
    }
}

/// Same calendar day?
pub open spec fn same_day(a: CalendarDate, b: CalendarDate) -> bool {
    a.year == b.year && a.month == b.month && a.day == b.day
}

impl CalendarModule {
    /// A calendar showing nothing yet.
    pub fn new(config: CalendarConfig) -> (r: Self)
        ensures
            r.config == config,
            r.display_text@.len() == 0,
            r.last_date is None,
    {
        CalendarModule { config, display_text: String::new(), last_date: None }
    }

    /// Stable module identifier.
    pub fn id(&self) -> (r: &'static str)
        ensures
            r@ == "calendar"@,
    {
        "calendar"
    }

    /// The text for `date` (see [`display_for`]).
    pub fn compute_display(config: &CalendarConfig, date: &CalendarDate, now_formatted: &String) -> (r: String)
        requires
            date.wf(),
        ensures
            r@ == display_for(*config, *date, now_formatted@),
    {
        match config.system {
            CalendarSystem::Gregorian => match &config.date_format {
                Some(_) => now_formatted.clone(),
                None => chrono_format(date.year, date.month, date.day, "%A, %B %-d, %Y"),
            },
            CalendarSystem::Discordian => to_discordian(date),
            CalendarSystem::Custom => match &config.date_format {
                Some(_) => now_formatted.clone(),
                None => chrono_format(date.year, date.month, date.day, "%Y-%m-%d"),
            },
        }
    }

    /// Refresh for `today`: nothing happens on the day already shown;
    /// otherwise the day is remembered and the text recomputed, and the
    /// result says whether the text changed.
    pub fn update(&mut self, today: CalendarDate, now_formatted: &String) -> (r: bool)
        requires
            today.wf(),
        ensures
            final(self).config == old(self).config,
            (old(self).last_date matches Some(d) && same_day(d, today)) ==> !r && final(self).display_text
                == old(self).display_text && final(self).last_date == old(self).last_date,
            !(old(self).last_date matches Some(d) && same_day(d, today)) ==> {
                let text = display_for(old(self).config, today, now_formatted@);
                &&& final(self).last_date == Some(today)
                &&& r == (text != old(self).display_text@)
                &&& final(self).display_text@ == (if r {
                    text
                } else {
                    old(self).display_text@
                })
            },
    {
        match self.last_date {
            Some(d) => if d.year == today.year && d.month == today.month && d.day == today.day {
                return false;
            },
            None => {},
        }
        let text = CalendarModule::compute_display(&self.config, &today, now_formatted);
        self.last_date = Some(today);
        if text != self.display_text {
            self.display_text = text;
            true
        } else {
            false
        }
    }
}

} // verus!

verus! {

/// From March on, a leap year has counted exactly one day more than a
/// common year.
proof fn lemma_leap_offset(leap: int, common: int, month: int)
    requires
        is_leap_year_spec(leap),
        !is_leap_year_spec(common),
        3 <= month <= 12,
    ensures
        days_before_month(leap, month) == days_before_month(common, month) + 1,
    decreases month,
{
    if month > 3 {
        lemma_leap_offset(leap, common, month - 1);
    } else {
        reveal_with_fuel(days_before_month, 3);
    }
}

/// February 29th (St. Tib's Day) lies outside the Discordian weeks and
/// seasons: every later day of a leap year has the same Discordian day,
/// weekday and season as the same day of a common year.
pub proof fn law_leap_day_outside_seasons(leap: CalendarDate, common: CalendarDate)
    requires
        leap.wf(),
        common.wf(),
        is_leap_year_spec(leap.year as int),
        !is_leap_year_spec(common.year as int),
        leap.month == common.month,
        leap.day == common.day,
        leap.month >= 3,
    ensures
        discordian_day_of_year(leap) == discordian_day_of_year(common),
        discordian_season_spec(leap) == discordian_season_spec(common),
{
    lemma_leap_offset(leap.year as int, common.year as int, leap.month as int);
    lemma_ordinal_bounds(leap.year as int, leap.month as int, leap.day as int);
    lemma_ordinal_bounds(common.year as int, common.month as int, common.day as int);
}

} // verus!
