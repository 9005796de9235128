//! Durations, ages, wrapped text, and where the configuration lives.

use ratcrate::config::{config_path, display_path, join_path};
use ratcrate::display::{format_duration, format_relative_time, wrap_text};

fn some(s: &str) -> Option<String> {
    Some(s.to_string())
}

#[test]
fn durations_show_minutes_and_seconds() {
    assert_eq!(format_duration(0), "0:00");
    assert_eq!(format_duration(187), "3:07");
    assert_eq!(format_duration(3600), "60:00");
}

#[test]
fn ages_round_down_to_their_unit() {
    assert_eq!(format_relative_time(Some(59)), "just now");
    assert_eq!(format_relative_time(Some(60)), "1 min ago");
    assert_eq!(format_relative_time(Some(7200)), "2 h ago");
    assert_eq!(format_relative_time(Some(86400 * 3)), "3 days ago");
    assert_eq!(format_relative_time(Some(86400 * 65)), "2 months ago");
    assert_eq!(format_relative_time(None), "in the future");
}

#[test]
fn wrapping_cuts_every_width_characters() {
    assert_eq!(wrap_text("abcdefg", 3), vec!["abc".to_string(), "def".to_string(), "g".to_string()]);
    assert_eq!(wrap_text("abc", 3), vec!["abc".to_string()]);
    assert_eq!(wrap_text("", 3), vec![String::new()]);
    assert_eq!(wrap_text("abc", 0), vec!["abc".to_string()]);
    assert_eq!(wrap_text("ééé", 2), vec!["éé".to_string(), "é".to_string()]);
}

#[test]
fn config_path_prefers_appdata_then_xdg_then_home() {
    assert_eq!(config_path(&some("C:/Users/x/AppData"), &some("/x"), &some("/h")), Ok("C:/Users/x/AppData/ratcrate/config.json".to_string()));
    assert_eq!(config_path(&None, &some("/xdg/"), &some("/h")), Ok("/xdg/ratcrate/config.json".to_string()));
    assert_eq!(config_path(&None, &None, &some("/home/dj")), Ok("/home/dj/.config/ratcrate/config.json".to_string()));
    assert_eq!(config_path(&None, &None, &None), Err("could not find a user config directory".to_string()));
    assert_eq!(display_path(&None, &None, &None), "platform config directory");
    assert_eq!(join_path("", "a"), "a");
}
