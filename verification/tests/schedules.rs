use rsgewatch::clock::{LocalDateTime, TimeOfDay, UtcInstant, Weekday, CALENDAR_MAX_SECS, CALENDAR_MIN_SECS};
use rsgewatch::schedule::{Frequency, TimeSchedule};

const HOUR_NS: i64 = 3600;

fn sched(frequency: Frequency, hour: u32, day: Weekday, last_run: Option<UtcInstant>) -> TimeSchedule {
    TimeSchedule {
        id: "s".to_string(),
        name: "Summary".to_string(),
        frequency,
        time_of_day: TimeOfDay::from_hm(hour, 0).unwrap(),
        day_of_week: day,
        enabled: true,
        last_run,
    }
}

fn local(date: i32, weekday: Weekday, hour: u32, minute: u32) -> LocalDateTime {
    LocalDateTime { date, weekday, time: TimeOfDay::from_hm(hour, minute).unwrap() }
}

fn utc(secs: i64) -> UtcInstant {
    UtcInstant { secs, nanos: 0 }
}

const RAN: Option<UtcInstant> = Some(UtcInstant { secs: 1_000_000, nanos: 0 });

#[test]
fn daily_fires_once_a_day_after_its_time() {
    let s = sched(Frequency::Daily, 9, Weekday::Mon, None);
    assert!(!s.is_due_given(&local(100, Weekday::Mon, 8, 59), utc(0), 0));
    assert!(s.is_due_given(&local(100, Weekday::Mon, 9, 0), utc(0), 0));
    let s = sched(Frequency::Daily, 9, Weekday::Mon, RAN);
    assert!(!s.is_due_given(&local(100, Weekday::Mon, 10, 0), utc(0), 100));
    assert!(s.is_due_given(&local(101, Weekday::Tue, 10, 0), utc(0), 100));
}

#[test]
fn disabled_schedule_never_fires() {
    let mut s = sched(Frequency::Daily, 0, Weekday::Mon, None);
    s.enabled = false;
    assert!(!s.is_due_given(&local(5, Weekday::Mon, 23, 0), utc(0), 0));
    assert!(!s.is_due(local(5, Weekday::Mon, 23, 0)));
}

#[test]
fn every_x_days_counts_local_dates() {
    let s = sched(Frequency::EveryXDays(3), 6, Weekday::Mon, RAN);
    assert!(!s.is_due_given(&local(102, Weekday::Mon, 7, 0), utc(0), 100));
    assert!(s.is_due_given(&local(103, Weekday::Mon, 7, 0), utc(0), 100));
    let s = sched(Frequency::EveryXDays(0), 6, Weekday::Mon, RAN);
    assert!(s.is_due_given(&local(101, Weekday::Mon, 7, 0), utc(0), 100));
    let s = sched(Frequency::EveryXDays(3), 6, Weekday::Mon, None);
    assert!(s.is_due_given(&local(1, Weekday::Mon, 7, 0), utc(0), 0));
}

#[test]
fn weekly_fires_on_its_weekday() {
    let s = sched(Frequency::Weekly, 9, Weekday::Fri, RAN);
    assert!(!s.is_due_given(&local(110, Weekday::Thu, 10, 0), utc(0), 100));
    assert!(s.is_due_given(&local(111, Weekday::Fri, 10, 0), utc(0), 100));
}

#[test]
fn every_other_week_waits_thirteen_days() {
    let s = sched(Frequency::EveryOtherWeek, 9, Weekday::Fri, RAN);
    assert!(!s.is_due_given(&local(107, Weekday::Fri, 10, 0), utc(0), 100));
    assert!(!s.is_due_given(&local(112, Weekday::Wed, 10, 0), utc(0), 100));
    assert!(s.is_due_given(&local(113, Weekday::Fri, 10, 0), utc(0), 100));
    let s = sched(Frequency::EveryOtherWeek, 9, Weekday::Fri, None);
    assert!(s.is_due_given(&local(113, Weekday::Fri, 10, 0), utc(0), 0));
}

#[test]
fn monthly_waits_twenty_eight_days() {
    let s = sched(Frequency::Monthly, 9, Weekday::Mon, RAN);
    assert!(!s.is_due_given(&local(127, Weekday::Mon, 10, 0), utc(0), 100));
    assert!(s.is_due_given(&local(128, Weekday::Mon, 10, 0), utc(0), 100));
}

#[test]
fn hourly_uses_elapsed_time_only() {
    let last = Some(utc(10_000));
    let s = sched(Frequency::EveryXHours(2), 23, Weekday::Sun, last);
    let now = local(100, Weekday::Mon, 0, 0);
    assert!(!s.is_due_given(&now, utc(10_000 + 2 * HOUR_NS - 1), 100));
    assert!(s.is_due_given(&now, utc(10_000 + 2 * HOUR_NS), 100));
    let s = sched(Frequency::EveryXHours(0), 23, Weekday::Sun, last);
    assert!(s.is_due_given(&now, utc(10_000 + HOUR_NS), 100));
    assert!(!s.is_due_given(&now, UtcInstant { secs: 10_000 + HOUR_NS - 1, nanos: 999_999_999 }, 100));
    let s = sched(Frequency::EveryXHours(5), 23, Weekday::Sun, None);
    assert!(s.is_due_given(&now, utc(0), 0));
}

#[test]
fn is_due_without_last_run_needs_no_clock() {
    let s = sched(Frequency::Daily, 9, Weekday::Mon, None);
    assert!(s.is_due(local(800_000, Weekday::Mon, 9, 30)));
    assert!(!s.is_due(local(800_000, Weekday::Mon, 8, 30)));
    let s = sched(Frequency::EveryXHours(1), 9, Weekday::Mon, None);
    assert!(s.is_due(local(800_000, Weekday::Mon, 0, 0)));
}

#[test]
fn hourly_with_recent_run_waits() {
    let s = sched(Frequency::EveryXHours(1), 9, Weekday::Mon, Some(utc(i64::from(i32::MAX) * 100)));
    assert!(!s.is_due(local(800_000, Weekday::Mon, 12, 0)));
}

#[test]
fn frequency_gates() {
    assert!(Frequency::Daily.uses_time_of_day());
    assert!(!Frequency::EveryXHours(3).uses_time_of_day());
    assert!(Frequency::Weekly.uses_day_of_week());
    assert!(Frequency::EveryOtherWeek.uses_day_of_week());
    assert!(!Frequency::Monthly.uses_day_of_week());
}

#[test]
fn time_of_day_parts() {
    let t = TimeOfDay::from_hm(13, 45).unwrap();
    assert_eq!(t.hour(), 13);
    assert_eq!(t.minute(), 45);
    assert!(TimeOfDay::from_hm(24, 0).is_none());
    assert!(TimeOfDay::from_hm(0, 60).is_none());
    assert!(TimeOfDay::midnight().is_earlier_than(&t));
    assert!(!t.is_earlier_than(&t));
}

#[test]
fn is_due_reads_the_local_date_of_the_last_run() {
    // last run in 1970, now in the 23rd century: due whatever the time zone
    let s = sched(Frequency::Daily, 0, Weekday::Mon, Some(utc(0)));
    assert!(s.is_due(local(800_000, Weekday::Mon, 23, 59)));
    let s = sched(Frequency::Monthly, 0, Weekday::Mon, Some(utc(0)));
    assert!(s.is_due(local(800_000, Weekday::Mon, 23, 59)));
    // but never before its time of day
    let s = sched(Frequency::Daily, 12, Weekday::Mon, Some(utc(0)));
    assert!(!s.is_due(local(800_000, Weekday::Mon, 11, 59)));
}

#[test]
fn local_dates_are_defined_across_the_calendar_range() {
    for secs in [CALENDAR_MIN_SECS, -1, 0, CALENDAR_MAX_SECS] {
        let s = sched(Frequency::Daily, 0, Weekday::Mon, Some(utc(secs)));
        // the last run's local date is within a day of its UTC date, never
        // more than a day away from a date a million days off
        assert!(s.is_due(local(secs.div_euclid(86_400) as i32 + 719_163 + 1_000_000, Weekday::Mon, 23, 0)));
    }
}
