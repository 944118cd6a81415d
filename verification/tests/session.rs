use dmc2_archipelago::archipelago::{
    death_link_channel_action, death_link_message, death_link_response, disconnect,
    location_channel_action, ChannelError, ChannelStatus, ConnectionPhase, CoreState,
    DeathLinkResponse, LocationCheckAction,
};
use dmc2_archipelago::game_manager::ArchipelagoData;
use dmc2_archipelago::mapping::{DeathlinkSetting, Mapping, OverlayInfo};

fn slot_data() -> Mapping {
    Mapping {
        generated_version: Some("0.6.1".to_string()),
        client_version: Some("0.2.0".to_string()),
        death_link: DeathlinkSetting::HurtLink,
        purple_orb_mode: true,
        devil_trigger_mode: false,
    }
}

#[test]
fn death_link_responses() {
    assert_eq!(death_link_response(DeathlinkSetting::DeathLink), DeathLinkResponse::Kill);
    assert_eq!(death_link_response(DeathlinkSetting::HurtLink), DeathLinkResponse::Hurt);
    assert_eq!(death_link_response(DeathlinkSetting::Off), DeathLinkResponse::Ignore);
}

#[test]
fn death_link_notification_text() {
    assert_eq!(death_link_message("Alice", &Some("fell in lava".to_string())), "Alice: fell in lava");
    assert_eq!(death_link_message("Bob", &None), "Bob: ");
}

#[test]
fn connecting_takes_slot_data_and_clears_queue() {
    let mut core = CoreState::new();
    assert!(core.received_items_queue.is_empty());
    core.on_received_items(3);
    core.on_received_items(0);
    assert_eq!(core.received_items_queue, vec![3, 0]);
    let mut mapping = None;
    let mut overlay = OverlayInfo::default();
    let create = core.on_connected(&slot_data(), &mut mapping, &mut overlay);
    assert!(create);
    assert!(core.received_items_queue.is_empty());
    assert_eq!(overlay.generated_version.as_deref(), Some("0.6.1"));
    assert_eq!(overlay.client_version.as_deref(), Some("0.2.0"));
    let m = mapping.expect("slot data kept");
    assert_eq!(m.death_link, DeathlinkSetting::HurtLink);
    assert!(m.purple_orb_mode);
    assert!(!m.devil_trigger_mode);
}

#[test]
fn hooks_are_created_once_and_enabled_once() {
    let mut core = CoreState::new();
    core.record_hook_creation(false);
    assert!(!core.hooks_installed);
    assert!(!core.begin_enable_hooks());
    core.record_hook_creation(true);
    assert!(core.begin_enable_hooks());
    assert!(core.hooks_enabled);
    assert!(!core.begin_enable_hooks());
    let mut mapping = None;
    let mut overlay = OverlayInfo::default();
    assert!(!core.on_connected(&slot_data(), &mut mapping, &mut overlay));
}

#[test]
fn phases_drive_the_connected_flag() {
    let mut core = CoreState::new();
    let mut connected = false;
    let mut overlay = OverlayInfo::default();
    let mut mapping = Some(slot_data());
    let mut data = ArchipelagoData::new();
    data.add_blue_orb();
    assert!(!core.on_phase(ConnectionPhase::Connecting, false, &mut connected, &mut overlay, &mut mapping, &mut data));
    assert!(!connected);
    assert!(!core.on_phase(ConnectionPhase::Connected, false, &mut connected, &mut overlay, &mut mapping, &mut data));
    assert!(connected);
    assert!(mapping.is_some());
    assert_eq!(data.blue_orbs, 1);
}

#[test]
fn disconnecting_restores_the_game() {
    let mut core = CoreState::new();
    core.record_hook_creation(true);
    core.begin_enable_hooks();
    let mut connected = true;
    let mut mapping = None;
    let mut overlay = OverlayInfo::default();
    core.on_connected(&slot_data(), &mut mapping, &mut overlay);
    let mut data = ArchipelagoData::new();
    data.add_item("Vendetta".to_string());
    data.add_gun_level(1);
    assert!(core.must_disable_hooks(ConnectionPhase::Disconnected));
    assert!(!core.must_disable_hooks(ConnectionPhase::Connected));
    let stop = core.on_phase(ConnectionPhase::Disconnected, true, &mut connected, &mut overlay, &mut mapping, &mut data);
    assert!(stop);
    assert!(!connected);
    assert!(overlay.client_version.is_none() && overlay.generated_version.is_none());
    assert!(mapping.is_none());
    assert_eq!(data.items.len(), 0);
    assert_eq!(data.gun_levels, [0; 5]);
    assert!(!core.hooks_enabled);
    assert!(core.hooks_installed);
}

#[test]
fn failed_hook_disable_keeps_hooks_enabled() {
    let mut enabled = true;
    let mut mapping = Some(slot_data());
    let mut data = ArchipelagoData::new();
    disconnect(&mut enabled, false, &mut mapping, &mut data);
    assert!(enabled);
    assert!(mapping.is_none());
    let mut disabled = false;
    disconnect(&mut disabled, true, &mut mapping, &mut data);
    assert!(!disabled);
}

#[test]
fn channel_decisions() {
    assert_eq!(location_channel_action(ChannelStatus::Received, true), Ok(LocationCheckAction::Submit));
    assert_eq!(location_channel_action(ChannelStatus::Received, false), Ok(LocationCheckAction::ReportNoClient));
    assert_eq!(location_channel_action(ChannelStatus::Empty, true), Ok(LocationCheckAction::Nothing));
    assert_eq!(
        location_channel_action(ChannelStatus::Disconnected, true),
        Err(ChannelError::LocationReceiverDisconnected)
    );
    assert_eq!(death_link_channel_action(ChannelStatus::Received), Ok(true));
    assert_eq!(death_link_channel_action(ChannelStatus::Empty), Ok(false));
    assert_eq!(
        death_link_channel_action(ChannelStatus::Disconnected),
        Err(ChannelError::DeathLinkReceiverDisconnected)
    );
    assert_eq!(ChannelError::LocationReceiverDisconnected.message(), "Disconnected from location receiver");
    assert_eq!(ChannelError::DeathLinkReceiverDisconnected.message(), "Disconnected from DeathLink receiver");
}

#[test]
fn hooks_stay_consistent_through_a_session() {
    let mut core = CoreState::new();
    assert!(!core.hooks_enabled || core.hooks_installed);
    core.begin_enable_hooks();
    assert!(!core.hooks_enabled);
    core.record_hook_creation(true);
    core.begin_enable_hooks();
    core.record_hook_creation(false);
    assert!(core.hooks_installed && core.hooks_enabled);
    let mut connected = true;
    let mut overlay = OverlayInfo::default();
    let mut mapping = None;
    let mut data = ArchipelagoData::new();
    core.on_phase(ConnectionPhase::Disconnected, true, &mut connected, &mut overlay, &mut mapping, &mut data);
    assert!(core.hooks_installed && !core.hooks_enabled);
}
