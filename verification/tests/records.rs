use dmc2_archipelago::check_handler::{Location, LocationType};
use dmc2_archipelago::constants::{Coordinates, GAME_NAME};
use dmc2_archipelago::game_manager::ArchipelagoData;
use dmc2_archipelago::mapping::{death_link_from_number, DeathlinkSetting, Mapping};

fn location(location_type: LocationType, item_id: u32, room: i32, mission: u32, x: u32) -> Location {
    Location {
        location_type,
        item_id,
        room,
        mission,
        coordinates: Coordinates { x, y: 2, z: 3 },
        to_display: false,
    }
}

fn mapping(purple_orb_mode: bool, devil_trigger_mode: bool) -> Mapping {
    Mapping {
        generated_version: None,
        client_version: None,
        death_link: DeathlinkSetting::Off,
        purple_orb_mode,
        devil_trigger_mode,
    }
}

#[test]
fn game_name_is_dmc2() {
    assert_eq!(GAME_NAME, "Devil May Cry 2");
}

#[test]
fn coordinates_need_positive_x() {
    assert!(!Coordinates::empty().has_coords());
    assert!(Coordinates { x: 1, y: 0, z: 0 }.has_coords());
    assert!(!Coordinates { x: 0, y: 5, z: 7 }.has_coords());
    assert_eq!(Coordinates::empty(), Coordinates { x: 0, y: 0, z: 0 });
    assert_ne!(Coordinates { x: 1, y: 2, z: 3 }, Coordinates { x: 1, y: 2, z: 4 });
}

#[test]
fn locations_compare_by_place_room_and_item() {
    let a = location(LocationType::Standard, 0x10, 4, 1, 9);
    let b = location(LocationType::SSRank, 0x10, 4, 7, 9);
    assert!(a == b);
    assert!(a != location(LocationType::Standard, 0x11, 4, 1, 9));
    assert!(a != location(LocationType::Standard, 0x10, 5, 1, 9));
    assert!(a != location(LocationType::Standard, 0x10, 4, 1, 8));
}

#[test]
fn location_display_text() {
    let a = location(LocationType::PurchaseItem, 0x1f, -5, 3, 1);
    assert_eq!(a.to_display_string(), "Mission: 3 Room ID: -5 Item ID: 0x1f");
    let b = location(LocationType::MissionComplete, 0, i32::MIN, u32::MAX, 1);
    assert_eq!(
        b.to_display_string(),
        "Mission: 4294967295 Room ID: -2147483648 Item ID: 0x0"
    );
    let c = location(LocationType::Standard, 0xDEADBEEF, 120, 0, 1);
    assert_eq!(c.to_display_string(), "Mission: 0 Room ID: 120 Item ID: 0xdeadbeef");
}

#[test]
fn death_link_codes() {
    assert_eq!(death_link_from_number(Some(0)), Ok(DeathlinkSetting::Off));
    assert_eq!(death_link_from_number(Some(1)), Ok(DeathlinkSetting::DeathLink));
    assert_eq!(death_link_from_number(Some(2)), Ok(DeathlinkSetting::HurtLink));
    assert_eq!(death_link_from_number(None), Ok(DeathlinkSetting::Off));
}

#[test]
fn death_link_rejected_numbers() {
    assert_eq!(death_link_from_number(Some(3)), Err("Invalid DL option: 3".to_string()));
    assert_eq!(death_link_from_number(Some(-1)), Err("Invalid DL option: -1".to_string()));
    assert_eq!(
        death_link_from_number(Some(i64::MIN)),
        Err(format!("Invalid DL option: {}", i64::MIN))
    );
    let number: serde_json::Number = serde_json::from_str("3").unwrap();
    assert_eq!(
        death_link_from_number(number.as_i64()),
        Err(format!("Invalid DL option: {}", number))
    );
}

#[test]
fn fresh_data_is_empty() {
    let d = ArchipelagoData::default();
    assert_eq!(d.blue_orbs, 0);
    assert_eq!(d.purple_orbs, 0);
    assert!(!d.dt_unlocked);
    assert_eq!(d.gun_levels, [0; 5]);
    assert_eq!(d.items.len(), 0);
}

#[test]
fn blue_orbs_stop_at_fourteen() {
    let mut d = ArchipelagoData::new();
    for _ in 0..13 {
        d.add_blue_orb();
    }
    assert_eq!(d.blue_orbs, 13);
    d.add_blue_orb();
    assert_eq!(d.blue_orbs, 14);
    d.add_blue_orb();
    assert_eq!(d.blue_orbs, 14);
}

#[test]
fn purple_orb_unlocks_devil_trigger_outside_dt_mode() {
    let mut d = ArchipelagoData::new();
    d.add_purple_orb(&None);
    assert_eq!(d.purple_orbs, 1);
    assert!(!d.dt_unlocked);
    d.add_purple_orb(&Some(mapping(false, true)));
    assert_eq!(d.purple_orbs, 2);
    assert!(!d.dt_unlocked);
    d.add_purple_orb(&Some(mapping(false, false)));
    assert_eq!(d.purple_orbs, 3);
    assert!(d.dt_unlocked);
    for _ in 0..20 {
        d.add_purple_orb(&None);
    }
    assert_eq!(d.purple_orbs, 10);
}

#[test]
fn devil_trigger_item() {
    let mut d = ArchipelagoData::new();
    d.add_dt(&None);
    assert_eq!(d.purple_orbs, 0);
    assert!(!d.dt_unlocked);
    d.add_dt(&Some(mapping(true, true)));
    assert_eq!(d.purple_orbs, 0);
    assert!(d.dt_unlocked);
    let mut e = ArchipelagoData::new();
    e.add_dt(&Some(mapping(false, false)));
    assert_eq!(e.purple_orbs, 3);
    assert!(!e.dt_unlocked);
    e.purple_orbs = 9;
    e.add_dt(&Some(mapping(false, false)));
    assert_eq!(e.purple_orbs, 10);
}

#[test]
fn gun_levels_cap_and_reset() {
    let mut d = ArchipelagoData::new();
    d.add_gun_level(2);
    assert_eq!(d.gun_levels, [0, 0, 1, 0, 0]);
    d.add_gun_level(2);
    d.add_gun_level(2);
    assert_eq!(d.gun_levels, [0, 0, 2, 0, 0]);
    d.add_gun_level(4);
    assert_eq!(d.gun_levels, [0, 0, 2, 0, 1]);
    d.reset_gun_levels();
    assert_eq!(d.gun_levels, [0; 5]);
}

#[test]
fn items_are_a_set() {
    let mut d = ArchipelagoData::new();
    d.add_item("Rebellion".to_string());
    d.add_item("Rebellion".to_string());
    d.add_item("Ebony & Ivory".to_string());
    assert_eq!(d.items.len(), 2);
    assert!(d.items.contains("Rebellion"));
    assert!(!d.items.contains("Vendetta"));
    assert_eq!(d.blue_orbs, 0);
}
