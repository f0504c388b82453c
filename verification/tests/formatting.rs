use rsgewatch::forms::frequency_label;
use rsgewatch::refresh::RefreshSummary;
use rsgewatch::schedule::Frequency;
use rsgewatch::scheduler::refresh_message;
use rsgewatch::text::decimal;
use rsgewatch::widgets::{amount_tone, format_gp, gp_text, AmountTone};

#[test]
fn format_gp_groups_thousands() {
    assert_eq!(format_gp(-1234567), "-1,234,567");
    assert_eq!(format_gp(0), "0");
    assert_eq!(format_gp(999), "999");
    assert_eq!(format_gp(1000), "1,000");
    assert_eq!(format_gp(100000), "100,000");
    assert_eq!(format_gp(i64::MAX), "9,223,372,036,854,775,807");
    assert_eq!(format_gp(i64::MIN), "-9,223,372,036,854,775,808");
}

#[test]
fn format_gp_strips_to_plain_digits() {
    for n in [-98765432i64, -1000, -1, 0, 7, 12345, 1_000_000_000] {
        let s = format_gp(n);
        let stripped: String = s.chars().filter(|c| *c != ',').collect();
        assert_eq!(stripped, n.to_string());
    }
}

#[test]
fn format_gp_small_amounts_have_no_separator() {
    for n in [-999i64, -10, 0, 5, 999] {
        assert!(!format_gp(n).contains(','));
    }
}

#[test]
fn decimal_renders_like_to_string() {
    for n in [0u64, 9, 10, 1234567890, u64::MAX] {
        assert_eq!(decimal(n), n.to_string());
    }
}

#[test]
fn refresh_message_lists_nonzero_counts() {
    let s = RefreshSummary { updated: 3, missing_item_id: 0, unresolved: 0 };
    assert_eq!(refresh_message(&s), "Updated 3 item(s)");
    let s = RefreshSummary { updated: 1, missing_item_id: 2, unresolved: 4 };
    assert_eq!(
        refresh_message(&s),
        "Updated 1 item(s), 2 with no item ID, 4 the API didn't return a price for"
    );
    let s = RefreshSummary { updated: 0, missing_item_id: 0, unresolved: 1 };
    assert_eq!(refresh_message(&s), "Updated 0 item(s), 1 the API didn't return a price for");
}

#[test]
fn frequency_labels() {
    assert_eq!(frequency_label(Frequency::Daily), "Daily");
    assert_eq!(frequency_label(Frequency::EveryXDays(3)), "Every 3 days");
    assert_eq!(frequency_label(Frequency::Weekly), "Weekly");
    assert_eq!(frequency_label(Frequency::EveryOtherWeek), "Every other week");
    assert_eq!(frequency_label(Frequency::Monthly), "Monthly");
    assert_eq!(frequency_label(Frequency::EveryXHours(12)), "Every 12 hours");
}

#[test]
fn gp_labels_and_tones() {
    assert_eq!(gp_text(-1234), "-1,234 gp");
    assert_eq!(gp_text(0), "0 gp");
    assert_eq!(amount_tone(5), AmountTone::Gain);
    assert_eq!(amount_tone(-5), AmountTone::Loss);
    assert_eq!(amount_tone(0), AmountTone::Neutral);
}

#[test]
fn format_gp_sign_groups_and_parse_back() {
    for n in [i64::MIN, -1_234_567, -1000, -999, -1, 0, 1, 12, 123, 1234, 12_345, 1_234_567, i64::MAX] {
        let s = format_gp(n);
        assert_eq!(s.starts_with('-'), n < 0);
        assert_eq!(s.replace(',', "").parse::<i64>(), Ok(n));
        let digits = s.trim_start_matches('-');
        let groups: Vec<&str> = digits.split(',').collect();
        assert!((1..=3).contains(&groups[0].len()));
        assert!(groups[1..].iter().all(|g| g.len() == 3));
        assert!(groups.iter().all(|g| g.chars().all(|c| c.is_ascii_digit())));
    }
}
