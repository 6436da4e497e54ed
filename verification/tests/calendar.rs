use hyprdeck::modules::calendar::{
    fill_grid,
    days_in_gregorian_month, discordian_season_cells, discordian_season_title,
    gregorian_month_cells, gregorian_month_title, gregorian_to_discordian_season, is_leap_year,
    to_discordian, CalendarConfig, CalendarDate, CalendarModule, CalendarSystem,
};
use hyprdeck::widgets::CellStyle;

fn date(y: i32, m: u32, d: u32) -> CalendarDate {
    CalendarDate::new(y, m, d).unwrap()
}

#[test]
fn discordian_jan1_2024() {
    let s = to_discordian(&date(2024, 1, 1));
    assert_eq!(s, "Sweetmorn, Chaos 1, YOLD 3190");
}

#[test]
fn discordian_st_tibs_day_2024() {
    let s = to_discordian(&date(2024, 2, 29));
    assert_eq!(s, "St. Tib's Day, YOLD 3190");
}

#[test]
fn discordian_dec31_2024() {
    let s = to_discordian(&date(2024, 12, 31));
    assert_eq!(s, "Setting Orange, The Aftermath 73, YOLD 3190");
}

#[test]
fn discordian_non_leap_mar1() {
    let s = to_discordian(&date(2023, 3, 1));
    assert!(s.contains("Chaos"), "expected Chaos season, got: {s}");
}

#[test]
fn discordian_leap_mar1_shifts_correctly() {
    let s = to_discordian(&date(2024, 3, 1));
    let s_non_leap = to_discordian(&date(2023, 3, 1));
    let remove_yold = |s: &str| -> String { s.split(", YOLD").next().unwrap_or("").to_owned() };
    assert_eq!(remove_yold(&s), remove_yold(&s_non_leap));
}

#[test]
fn gregorian_april_2026() {
    let rows = gregorian_month_cells(2026, 4, Some(15));
    assert_eq!(rows[0].len(), 7);
    assert_eq!(gregorian_month_title(2026, 4), "April 2026");
    // April 1, 2026 is a Wednesday (index 3 from Sunday)
    assert_eq!(rows[0][0].text, "");
    assert_eq!(rows[0][1].text, "");
    assert_eq!(rows[0][2].text, "");
    assert_eq!(rows[0][3].text, "1");
    let day15 = rows.iter().flatten().find(|c| c.text == "15").unwrap();
    assert!(matches!(day15.style, CellStyle::Highlighted));
}

#[test]
fn gregorian_february_leap_year() {
    let rows = gregorian_month_cells(2024, 2, Some(29));
    let all_days: Vec<&str> = rows
        .iter()
        .flatten()
        .filter(|c| !c.text.is_empty())
        .map(|c| c.text.as_str())
        .collect();
    assert_eq!(all_days.last().unwrap(), &"29");
}

#[test]
fn discordian_season_has_73_days() {
    let rows = discordian_season_cells(Some(1));
    assert_eq!(rows[0].len(), 5);
    let all_days: Vec<&str> = rows
        .iter()
        .flatten()
        .filter(|c| !c.text.is_empty())
        .map(|c| c.text.as_str())
        .collect();
    assert_eq!(all_days.len(), 73);
    assert_eq!(all_days[0], "1");
    assert_eq!(all_days[72], "73");
    assert_eq!(discordian_season_title(2026, 0), "Chaos, YOLD 3192");
}

#[test]
fn gregorian_to_discordian_jan_1() {
    let (season, day) = gregorian_to_discordian_season(&date(2026, 1, 1));
    assert_eq!(season, 0);
    assert_eq!(day, 1);
}

#[test]
fn gregorian_to_discordian_dec_31() {
    let (season, day) = gregorian_to_discordian_season(&date(2026, 12, 31));
    assert_eq!(season, 4);
    assert_eq!(day, 73);
}

#[test]
fn days_in_month_correct() {
    assert_eq!(days_in_gregorian_month(2026, 2), 28);
    assert_eq!(days_in_gregorian_month(2024, 2), 29);
    assert_eq!(days_in_gregorian_month(2026, 4), 30);
    assert_eq!(days_in_gregorian_month(2026, 1), 31);
}

#[test]
fn update_returns_true_on_date_change() {
    let mut m = CalendarModule::new(CalendarConfig::default());
    let t1 = date(2024, 3, 1);
    let t2 = date(2024, 3, 2);
    let unused = String::new();
    assert!(m.update(t1, &unused), "first update should return true");
    assert!(!m.update(t1, &unused), "same day should return false");
    assert!(m.update(t2, &unused), "next day should return true");
    assert_eq!(m.display_text, "Saturday, March 2, 2024");
}

#[test]
fn invalid_dates_are_rejected() {
    assert!(CalendarDate::new(2023, 2, 29).is_none());
    assert!(CalendarDate::new(2023, 13, 1).is_none());
    assert!(CalendarDate::new(400_000, 1, 1).is_none());
    assert_eq!(date(2024, 3, 1).ordinal, 61);
    assert!(is_leap_year(2000));
    assert!(!is_leap_year(2100));
}

#[test]
fn custom_and_discordian_systems() {
    let mut custom = CalendarModule::new(CalendarConfig {
        system: CalendarSystem::Custom,
        ..CalendarConfig::default()
    });
    custom.update(date(2024, 3, 1), &String::new());
    assert_eq!(custom.display_text, "2024-03-01");
    let mut formatted = CalendarModule::new(CalendarConfig {
        date_format: Some("%d/%m".to_owned()),
        ..CalendarConfig::default()
    });
    formatted.update(date(2024, 3, 1), &"01/03".to_owned());
    assert_eq!(formatted.display_text, "01/03");
    let mut disco = CalendarModule::new(CalendarConfig {
        system: CalendarSystem::Discordian,
        ..CalendarConfig::default()
    });
    disco.update(date(2024, 2, 29), &String::new());
    assert_eq!(disco.display_text, "St. Tib's Day, YOLD 3190");
}

#[test]
fn grid_starts_on_the_given_weekday() {
    // A 30-day month starting on a Wednesday, the 15th highlighted.
    let rows = fill_grid(7, 3, 30, Some(15));
    assert_eq!(rows.len(), 5);
    assert!(rows.iter().all(|row| row.len() == 7));
    assert_eq!(rows[0][2].text, "");
    assert_eq!(rows[0][3].text, "1");
    assert_eq!(rows[2][3].text, "15");
    assert!(matches!(rows[2][3].style, CellStyle::Highlighted));
    assert!(matches!(rows[2][4].style, CellStyle::Normal));
    assert_eq!(rows[4][4].text, "30");
    assert_eq!(rows[4][5].text, "");
    // Five-day weeks without a highlighted day.
    let season = fill_grid(5, 0, 73, None);
    assert_eq!(season.len(), 15);
    assert_eq!(season[14][2].text, "73");
    assert_eq!(season[14][3].text, "");
}

fn shown(system: CalendarSystem, d: CalendarDate) -> String {
    let mut m = CalendarModule::new(CalendarConfig { system, ..CalendarConfig::default() });
    m.update(d, &String::new());
    m.display_text
}

#[test]
fn date_texts_pad_and_sign_the_year() {
    assert_eq!(shown(CalendarSystem::Custom, date(5, 1, 9)), "0005-01-09");
    assert_eq!(shown(CalendarSystem::Custom, date(-1, 12, 31)), "-0001-12-31");
    assert_eq!(shown(CalendarSystem::Custom, date(10_000, 1, 1)), "+10000-01-01");
    assert_eq!(shown(CalendarSystem::Gregorian, date(1, 1, 1)), "Monday, January 1, 0001");
    assert_eq!(shown(CalendarSystem::Gregorian, date(-1, 12, 31)), "Friday, December 31, -0001");
    assert_eq!(shown(CalendarSystem::Gregorian, date(2026, 4, 4)), "Saturday, April 4, 2026");
}

#[test]
fn month_grids_start_on_the_right_weekday() {
    // 2026-04-01 is a Wednesday, 1970-01-01 a Thursday, 2100-03-01 a Monday.
    let april = gregorian_month_cells(2026, 4, None);
    assert_eq!(april[0][2].text, "");
    assert_eq!(april[0][3].text, "1");
    let jan = gregorian_month_cells(1970, 1, None);
    assert_eq!(jan[0][4].text, "1");
    let march = gregorian_month_cells(2100, 3, None);
    assert_eq!(march[0][0].text, "");
    assert_eq!(march[0][1].text, "1");
}
