use rsgewatch::errors::AppError;
use rsgewatch::icon::{icon_bg, icon_fg, render_icon_rgba};
use rsgewatch::investment::Game;
use rsgewatch::json::{JsonNumber, JsonValue};
use rsgewatch::known_items::{known_items, search};
use rsgewatch::settings::{AppSettings, TelegramConfig, DEFAULT_REFRESH_MINUTES};
use rsgewatch::telegram::{telegram_request, test_message, TelegramRequest, TelegramSender};

#[test]
fn known_item_search() {
    assert_eq!(known_items().len(), 2);
    let hits = search("  BOND ", Game::Rs3);
    assert_eq!(hits.len(), 1);
    assert_eq!(hits[0].item_id, 29492);
    let hits = search("school", Game::Osrs);
    assert_eq!(hits.len(), 1);
    assert_eq!(hits[0].name, "Old school bond");
    assert!(search("school", Game::Rs3).is_empty());
    assert!(search("   ", Game::Osrs).is_empty());
    // matching is case-insensitive on both sides
    assert_eq!(search("OLD SCHOOL", Game::Osrs).len(), 1);
    assert_eq!(search("bOnD", Game::Osrs).len(), 1);
}

#[test]
fn settings_defaults_and_updates() {
    let mut s = AppSettings::default();
    assert_eq!(s.refresh_interval_minutes, DEFAULT_REFRESH_MINUTES);
    assert!(!s.start_on_boot);
    assert!(s.reconcile_start_on_boot(true));
    assert!(s.start_on_boot);
    assert!(!s.reconcile_start_on_boot(true));
    assert!(s.set_refresh_interval_text(" 15 "));
    assert_eq!(s.refresh_interval_minutes, 15);
    assert!(s.set_refresh_interval_text("0"));
    assert_eq!(s.refresh_interval_minutes, 1);
    assert!(!s.set_refresh_interval_text("ten"));
    assert_eq!(s.refresh_interval_minutes, 1);
}

#[test]
fn telegram_requests() {
    let mut c = TelegramConfig::default();
    assert_eq!(telegram_request(&c, "hi"), Ok(None));
    c.enabled = true;
    c.bot_token = "123:ABC".to_string();
    c.chat_id = "  ".to_string();
    assert_eq!(
        telegram_request(&c, "hi"),
        Err(AppError::Telegram("Bot token or chat ID is not configured".to_string()))
    );
    c.chat_id = "-100".to_string();
    assert_eq!(
        telegram_request(&c, test_message()),
        Ok(Some(TelegramRequest {
            url: "https://api.telegram.org/bot123:ABC/sendMessage".to_string(),
            chat_id: "-100".to_string(),
            text: "RSGEWatch is connected and ready to send alerts.".to_string(),
            parse_mode: "HTML".to_string(),
        }))
    );
    assert_eq!(TelegramSender { config: c }.name(), "Telegram");
}

#[test]
fn icon_pixels() {
    let bg = icon_bg();
    let fg = icon_fg();
    assert_eq!(bg, [139, 0, 0, 255]);
    assert_eq!(fg, [255, 215, 0, 255]);
    let (rgba, w, h) = render_icon_rgba(4, bg, fg);
    assert_eq!((w, h), (32, 32));
    assert_eq!(rgba.len(), 32 * 32 * 4);
    let px = |x: usize, y: usize| &rgba[4 * (y * 32 + x)..4 * (y * 32 + x) + 4];
    // top-left cell of the glyph is drawn, the last row is blank
    assert_eq!(px(0, 0), &fg);
    assert_eq!(px(31, 31), &bg);
    // row 1 of the glyph: columns 0 and 4 only
    assert_eq!(px(4 * 4 + 1, 4 * 1 + 2), &fg);
    assert_eq!(px(4 * 2, 4 * 1), &bg);
}

#[test]
fn game_names() {
    assert_eq!(Game::Rs3.api_key(), "rs");
    assert_eq!(Game::Osrs.api_key(), "osrs");
    assert_eq!(Game::Osrs.label(), "OSRS");
    assert_eq!(Game::default(), Game::Rs3);
}

#[test]
fn json_access() {
    let v = JsonValue::Object(vec![
        ("a".to_string(), JsonValue::Number(JsonNumber { as_u64: Some(5), rounded: 5 })),
        ("a".to_string(), JsonValue::Text("second".to_string())),
        ("t".to_string(), JsonValue::Text("x".to_string())),
    ]);
    assert_eq!(v.get("a").and_then(|x| x.as_u64()), Some(5));
    assert_eq!(v.get("t").and_then(|x| x.as_text()).map(|s| s.as_str()), Some("x"));
    assert!(v.get("missing").is_none());
    assert!(JsonValue::Null.get("a").is_none());
    assert_eq!(JsonValue::Bool(true).as_u64(), None);
}
