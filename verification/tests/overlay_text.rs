use dmc2_archipelago::game_manager::ArchipelagoData;
use dmc2_archipelago::mapping::OverlayInfo;
use dmc2_archipelago::overlay::{
    anchor_text, default_color, overlay_lines, should_display_anyway, status_label, status_text,
    tracker_lines, version_info_lines, ComponentStatus, LoaderStatus, OverlayText, TextColor, TextX,
};
use dmc2_archipelago::utilities::is_on_main_menu;

fn line(l: &OverlayText) -> (&str, TextX, usize, TextColor) {
    (l.text.as_str(), l.x, l.y, l.color)
}

fn loader() -> LoaderStatus {
    LoaderStatus {
        game: ComponentStatus { description: "HD Collection 1.0".to_string(), valid_for_use: true },
        mods: vec![
            ComponentStatus { description: "DDMK".to_string(), valid_for_use: true },
            ComponentStatus { description: "Other".to_string(), valid_for_use: false },
        ],
    }
}

fn info() -> OverlayInfo {
    OverlayInfo { client_version: Some("0.2.0".to_string()), generated_version: None }
}

#[test]
fn fixed_answers() {
    assert!(is_on_main_menu());
    assert!(!should_display_anyway());
    assert_eq!(default_color(), TextColor::White);
    assert_eq!(status_label(true), "Connected");
    assert_eq!(status_label(false), "Disconnected");
    assert_eq!(status_text(true), "Status: Connected");
    assert_eq!(status_text(false), "Status: Disconnected");
    assert_eq!(anchor_text(TextX::AfterStatusLabel), "Status: ");
    assert_eq!(anchor_text(TextX::AfterGameVersionLabel), "Game Version:");
    assert_eq!(anchor_text(TextX::PurchaseNotice), "Cannot purchase upgrades");
    assert_eq!(anchor_text(TextX::Origin), "");
}

#[test]
fn tracker_shows_orb_counts() {
    let mut d = ArchipelagoData::new();
    d.add_blue_orb();
    d.purple_orbs = -3;
    let lines = tracker_lines(&d);
    assert_eq!(lines, vec!["Blue Orbs: 1".to_string(), "Purple Orbs: -3".to_string()]);
    d.blue_orbs = i32::MAX;
    d.purple_orbs = i32::MIN;
    let lines = tracker_lines(&d);
    assert_eq!(lines[0], format!("Blue Orbs: {}", i32::MAX));
    assert_eq!(lines[1], format!("Purple Orbs: {}", i32::MIN));
    d.blue_orbs = 0;
    assert_eq!(tracker_lines(&d)[0], "Blue Orbs: 0");
}

#[test]
fn version_lines_disconnected_without_loader() {
    let lines = version_info_lines("1.2.3", false, Some(&info()), None);
    let v: Vec<_> = lines.iter().map(line).collect();
    assert_eq!(v, vec![("Mod Version: 1.2.3", TextX::Origin, 100, TextColor::White)]);
}

#[test]
fn version_lines_connected_with_loader() {
    let status = loader();
    let lines = version_info_lines("1.2.3", true, Some(&info()), Some(&status));
    let v: Vec<_> = lines.iter().map(line).collect();
    assert_eq!(
        v,
        vec![
            ("Mod Version: 1.2.3", TextX::Origin, 100, TextColor::White),
            ("AP Client Version: 0.2.0", TextX::Origin, 150, TextColor::White),
            ("Game Version:", TextX::Origin, 250, TextColor::White),
            (" HD Collection 1.0", TextX::AfterGameVersionLabel, 250, TextColor::Green),
            ("Additional Mods:", TextX::Origin, 300, TextColor::White),
            ("DDMK", TextX::Origin, 350, TextColor::Green),
            ("Other", TextX::Origin, 400, TextColor::Red),
        ]
    );
}

#[test]
fn version_lines_without_overlay_info() {
    let both = OverlayInfo { client_version: Some("a".to_string()), generated_version: Some("b".to_string()) };
    let lines = version_info_lines("v", true, Some(&both), None);
    let v: Vec<_> = lines.iter().map(line).collect();
    assert_eq!(v[2], ("Room Version: b", TextX::Origin, 200, TextColor::White));
    let lines = version_info_lines("v", true, None, None);
    assert_eq!(lines.len(), 1);
}

#[test]
fn overlay_status_and_purchase_notice() {
    let (lines, pending) = overlay_lines(true, true, true, true, "9", None, None);
    let v: Vec<_> = lines.iter().map(line).collect();
    assert_eq!(
        v,
        vec![
            ("Status: ", TextX::Origin, 0, TextColor::White),
            ("Connected", TextX::AfterStatusLabel, 0, TextColor::Green),
            ("Mod Version: 9", TextX::Origin, 100, TextColor::White),
            ("Cannot purchase upgrades", TextX::PurchaseNotice, 70, TextColor::White),
            ("due to world settings", TextX::PurchaseNotice, 106, TextColor::White),
        ]
    );
    assert!(!pending);
}

#[test]
fn overlay_waits_for_the_font() {
    let (lines, pending) = overlay_lines(true, false, false, true, "9", None, None);
    assert!(lines.is_empty());
    assert!(pending);
    let (lines, pending) = overlay_lines(false, false, true, false, "9", None, None);
    assert!(lines.is_empty());
    assert!(!pending);
    let (lines, _) = overlay_lines(true, false, true, false, "9", None, None);
    assert_eq!(line(&lines[1]), ("Disconnected", TextX::AfterStatusLabel, 0, TextColor::Red));
}
