use flamewm_wm_x11::wm::config::{parse_u16, setting_u16, WmConfig};

#[test]
fn config_defaults() {
    let config = WmConfig::default();
    assert_eq!(config.titlebar_height, 31);
    assert_eq!(config.frame_border, 1);
    assert_eq!(config.panel_reserve, 0);
    assert_eq!(config.snap_zone, 24);
    assert_eq!(config.workspaces, 4);
}

#[test]
fn u16_text_parses_like_std() {
    for text in ["0", "7", "+42", "007", "65535", "", "+", "-1", "-0", "65536", "12a", " 1", "1 ", "999999999999"] {
        assert_eq!(parse_u16(text), text.parse::<u16>().ok(), "{text:?}");
    }
}

#[test]
fn overrides_are_clamped_or_ignored() {
    assert_eq!(setting_u16(Some("100"), 31, 20, 72), 72);
    assert_eq!(setting_u16(Some("5"), 31, 20, 72), 20);
    assert_eq!(setting_u16(Some("40"), 31, 20, 72), 40);
    assert_eq!(setting_u16(Some("tall"), 31, 20, 72), 31);
    assert_eq!(setting_u16(None, 31, 20, 72), 31);
    let config = WmConfig::from_settings(Some("48"), Some("300"), Some("2"), Some("30"));
    assert_eq!(config.titlebar_height, 48);
    assert_eq!(config.panel_reserve, 256);
    assert_eq!(config.snap_zone, 4);
    assert_eq!(config.workspaces, 18);
    assert_eq!(WmConfig::from_settings(None, None, None, None), WmConfig::default());
}
