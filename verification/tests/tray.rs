use ht32_panel::tray::{
    icon_name, led_theme_selected, led_themes, orientation_selected, orientations, TrayCommand,
    TrayState,
};

#[test]
fn tray_default_state() {
    let s = TrayState::default();
    assert!(!s.connected);
    assert_eq!(s.led_theme, 2);
    assert_eq!(s.led_intensity, 3);
    assert_eq!(s.led_speed, 3);
    assert_eq!(s.orientation, "landscape");
}

#[test]
fn tray_menu_choices() {
    let themes = led_themes();
    assert_eq!(
        themes,
        vec![("Rainbow", 1), ("Breathing", 2), ("Colors", 3), ("Off", 4), ("Auto", 5)]
    );
    let choices = orientations();
    assert_eq!(choices.len(), 4);
    assert_eq!(choices[2], ("Landscape (Upside Down)", "landscape-upside-down"));
}

#[test]
fn tray_icon_follows_connection() {
    assert_eq!(icon_name(true), "display-brightness-symbolic");
    assert_eq!(icon_name(false), "display-brightness-off-symbolic");
}

#[test]
fn tray_selected_choice() {
    assert_eq!(led_theme_selected(1), 0);
    assert_eq!(led_theme_selected(5), 4);
    assert_eq!(led_theme_selected(9), 0);
    assert_eq!(orientation_selected("portrait-upside-down"), 3);
    assert_eq!(orientation_selected("sideways"), 0);
}

#[test]
fn tray_select_led_theme() {
    let mut s = TrayState::default();
    match s.select_led_theme(3) {
        Some(TrayCommand::SetLedTheme(t)) => assert_eq!(t, 4),
        other => panic!("unexpected {:?}", other),
    }
    assert_eq!(s.led_theme, 4);
    assert!(s.select_led_theme(5).is_none());
    assert_eq!(s.led_theme, 4);
}

#[test]
fn tray_select_orientation() {
    let mut s = TrayState::default();
    match s.select_orientation(1) {
        Some(TrayCommand::SetOrientation(o)) => assert_eq!(o, "portrait"),
        other => panic!("unexpected {:?}", other),
    }
    assert_eq!(s.orientation, "portrait");
    assert!(s.select_orientation(4).is_none());
    assert_eq!(s.orientation, "portrait");
    assert_eq!(orientation_selected(&s.orientation), 1);
}

#[test]
fn tray_command_answered() {
    let mut s = TrayState::default();
    assert_eq!(s.led_request(5), (5, 3, 3));
    assert!(!s.command_answered(&TrayCommand::SetLedTheme(1), false));
    assert_eq!(s.led_theme, 2);
    assert!(s.command_answered(&TrayCommand::SetLedTheme(1), true));
    assert_eq!(s.led_theme, 1);
    assert!(s.command_answered(&TrayCommand::SetOrientation("portrait".to_string()), true));
    assert_eq!(s.orientation, "portrait");
    assert!(!s.command_answered(&TrayCommand::SetOrientation("landscape".to_string()), false));
    assert_eq!(s.orientation, "portrait");
    assert!(s.command_answered(&TrayCommand::QuitDaemon, false));
}
