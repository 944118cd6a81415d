use vstd::prelude::*;
use std::collections::VecDeque;
use crate::game_manager::ArchipelagoData;
use crate::mapping::{DeathlinkSetting, Mapping, OverlayInfo, copy_text};

verus! {

/// What the game does about a DeathLink received from another player.
#[derive(Clone, Copy, Debug, PartialEq, Eq, Structural)]
pub enum DeathLinkResponse {
    Kill,
    Hurt,
    Ignore,
}

/// DeathLink kills, HurtLink hurts, and with DeathLink off nothing happens.
pub open spec fn spec_death_link_response(setting: DeathlinkSetting) -> DeathLinkResponse {
    match setting {
        DeathlinkSetting::DeathLink => DeathLinkResponse::Kill,
        DeathlinkSetting::HurtLink => DeathLinkResponse::Hurt,
        DeathlinkSetting::Off => DeathLinkResponse::Ignore,
    }
}

/// The response to a received DeathLink under the world's setting.
pub fn death_link_response(setting: DeathlinkSetting) -> (r: DeathLinkResponse)
    ensures
        r == spec_death_link_response(setting),
{
    match setting {
        DeathlinkSetting::DeathLink => DeathLinkResponse::Kill,
        DeathlinkSetting::HurtLink => DeathLinkResponse::Hurt,
        DeathlinkSetting::Off => DeathLinkResponse::Ignore,
    }
}

/// Only DeathLink kills and only HurtLink hurts; with DeathLink off a received
/// death is ignored, and the three settings answer differently.
pub proof fn lemma_death_link_responses(a: DeathlinkSetting, b: DeathlinkSetting)
    ensures
        spec_death_link_response(a) == DeathLinkResponse::Kill <==> a == DeathlinkSetting::DeathLink,
        spec_death_link_response(a) == DeathLinkResponse::Hurt <==> a == DeathlinkSetting::HurtLink,
        spec_death_link_response(a) == DeathLinkResponse::Ignore <==> a == DeathlinkSetting::Off,
        spec_death_link_response(a) == spec_death_link_response(b) ==> a == b,
{
}

/// The notification shown for a received DeathLink: `{source}: {cause}`, with
/// an empty cause when none was given.
pub fn death_link_message(source: &str, cause: &Option<String>) -> (r: String)
    ensures
        r@ == source@ + ": "@ + match cause {
            Some(c) => c@,
            None => Seq::<char>::empty(),
        },
{
    let mut r = String::new();
    r.append(source);
    r.append(": ");
    match cause {
        Some(c) => r.append(c.as_str()),
        None => {},
    }
    assert(r@ =~= source@ + ": "@ + match cause {
        Some(c) => c@,
        None => Seq::<char>::empty(),
    });
    r
}

/// The state of the connection to the Archipelago server, without its payload.
#[derive(Clone, Copy, Debug, PartialEq, Eq, Structural)]
pub enum ConnectionPhase {
    Connecting,
    Connected,
    Disconnected,
}

/// What the client keeps between updates, besides the connection itself.
pub struct CoreState {
    /// Indices of received-item packets still to hand to the game, oldest first.
    pub received_items_queue: VecDeque<usize>,
    pub hooks_installed: bool,
    pub hooks_enabled: bool,
}

/// Restores the game after the connection is gone: the hooks are off again
/// when they were on and disabling them succeeded (`hooks_disabled` is that
/// outcome), the slot data is forgotten and the received data is reset.
pub fn disconnect(
    hooks_enabled: &mut bool,
    hooks_disabled: bool,
    mapping: &mut Option<Mapping>,
    data: &mut ArchipelagoData,
)
    ensures
        *final(hooks_enabled) == (*old(hooks_enabled) && !hooks_disabled),
        final(mapping).is_none(),
        final(data).is_fresh(),
{
    if *hooks_enabled && hooks_disabled {
        *hooks_enabled = false;
    }
    *mapping = None;
    *data = ArchipelagoData::new();
}

impl CoreState {
    /// The hooks are only ever enabled once they are installed.
    pub open spec fn hooks_consistent(&self) -> bool {
        self.hooks_enabled ==> self.hooks_installed
    }

    /// From `before` to `self` the hooks stayed consistent and, once
    /// installed, stayed installed.
    pub open spec fn keeps_hooks(&self, before: CoreState) -> bool {
        &&& before.hooks_consistent() ==> self.hooks_consistent()
        &&& before.hooks_installed ==> self.hooks_installed
    }

    /// A client that has not connected yet: nothing queued, no hooks.
    pub fn new() -> (r: CoreState)
        ensures
            r.received_items_queue@ == Seq::<usize>::empty(),
            !r.hooks_installed,
            !r.hooks_enabled,
            r.hooks_consistent(),
    {
        CoreState { received_items_queue: VecDeque::new(), hooks_installed: false, hooks_enabled: false }
    }

    /// The server accepted the connection and sent `slot_data`: the overlay
    /// takes its versions, it becomes the current slot data and the queue of
    /// received items starts over. The result says whether the game hooks
    /// still have to be created.
    pub fn on_connected(
        &mut self,
        slot_data: &Mapping,
        mapping: &mut Option<Mapping>,
        overlay_info: &mut OverlayInfo,
    ) -> (create_hooks: bool)
        ensures
            final(overlay_info).generated_version == slot_data.generated_version,
            final(overlay_info).client_version == slot_data.client_version,
            *final(mapping) == Some(*slot_data),
            final(self).received_items_queue@ == Seq::<usize>::empty(),
            final(self).hooks_installed == old(self).hooks_installed,
            final(self).hooks_enabled == old(self).hooks_enabled,
            create_hooks == !old(self).hooks_installed,
            final(self).keeps_hooks(*old(self)),
    {
        overlay_info.generated_version = copy_text(&slot_data.generated_version);
        overlay_info.client_version = copy_text(&slot_data.client_version);
        *mapping = Some(slot_data.duplicate());
        self.received_items_queue.clear();
        !self.hooks_installed
    }

    /// Records the outcome of creating the game hooks.
    pub fn record_hook_creation(&mut self, created: bool)
        ensures
            final(self).hooks_installed == (old(self).hooks_installed || created),
            final(self).hooks_enabled == old(self).hooks_enabled,
            final(self).received_items_queue@ == old(self).received_items_queue@,
            final(self).keeps_hooks(*old(self)),
    {
        if created {
            self.hooks_installed = true;
        }
    }

    /// Whether the installed hooks are to be enabled now; when so, they count
    /// as enabled from here on.
    pub fn begin_enable_hooks(&mut self) -> (enable: bool)
        ensures
            enable == (old(self).hooks_installed && !old(self).hooks_enabled),
            final(self).hooks_enabled == (old(self).hooks_enabled || enable),
            final(self).hooks_installed == old(self).hooks_installed,
            final(self).received_items_queue@ == old(self).received_items_queue@,
            final(self).keeps_hooks(*old(self)),
    {
        if self.hooks_installed && !self.hooks_enabled {
            self.hooks_enabled = true;
            true
        } else {
            false
        }
    }

    /// The server announced new items starting at packet `index`.
    pub fn on_received_items(&mut self, index: usize)
        ensures
            final(self).received_items_queue@ == old(self).received_items_queue@.push(index),
            final(self).hooks_installed == old(self).hooks_installed,
            final(self).hooks_enabled == old(self).hooks_enabled,
            final(self).keeps_hooks(*old(self)),
    {
        self.received_items_queue.push_back(index);
    }

    /// Whether the game hooks have to be disabled on entering `phase`.
    pub fn must_disable_hooks(&self, phase: ConnectionPhase) -> (r: bool)
        ensures
            r == (phase == ConnectionPhase::Disconnected && self.hooks_enabled),
    {
        phase == ConnectionPhase::Disconnected && self.hooks_enabled
    }

    /// Follows the connection's state after the events of an update. While
    /// connecting nothing changes; once connected the client counts as
    /// connected; on a disconnect it counts as disconnected, the overlay forgets
    /// the versions and the game is restored (see [`disconnect`]), and the
    /// result is `true`: the update ends with an error.
    pub fn on_phase(
        &mut self,
        phase: ConnectionPhase,
        hooks_disabled: bool,
        connected: &mut bool,
        overlay_info: &mut OverlayInfo,
        mapping: &mut Option<Mapping>,
        data: &mut ArchipelagoData,
    ) -> (stop: bool)
        ensures
            stop == (phase == ConnectionPhase::Disconnected),
            *final(connected) == match phase {
                ConnectionPhase::Connecting => *old(connected),
                ConnectionPhase::Connected => true,
                ConnectionPhase::Disconnected => false,
            },
            phase == ConnectionPhase::Disconnected ==> {
                &&& *final(overlay_info) == OverlayInfo::empty()
                &&& final(mapping).is_none()
                &&& final(data).is_fresh()
                &&& final(self).hooks_enabled == (old(self).hooks_enabled && !hooks_disabled)
            },
            phase != ConnectionPhase::Disconnected ==> {
                &&& *final(overlay_info) == *old(overlay_info)
                &&& *final(mapping) == *old(mapping)
                &&& *final(data) == *old(data)
                &&& final(self).hooks_enabled == old(self).hooks_enabled
            },
            final(self).hooks_installed == old(self).hooks_installed,
            final(self).received_items_queue@ == old(self).received_items_queue@,
            final(self).keeps_hooks(*old(self)),
    {
        match phase {
            ConnectionPhase::Connecting => false,
            ConnectionPhase::Connected => {
                *connected = true;
                false
            },
            ConnectionPhase::Disconnected => {
                *connected = false;
                *overlay_info = OverlayInfo::default();
                disconnect(&mut self.hooks_enabled, hooks_disabled, mapping, data);
                true
            },
        }
    }
}

/// How a poll of a channel went.
#[derive(Clone, Copy, Debug, PartialEq, Eq, Structural)]
pub enum ChannelStatus {
    Received,
    Empty,
    Disconnected,
}

/// A channel from the game to the client lost its sender.
#[derive(Clone, Copy, Debug, PartialEq, Eq, Structural)]
pub enum ChannelError {
    LocationReceiverDisconnected,
    DeathLinkReceiverDisconnected,
}

impl ChannelError {
    /// The error's text.
    pub fn message(&self) -> (r: &'static str)
        ensures
            r@ == match self {
                ChannelError::LocationReceiverDisconnected => "Disconnected from location receiver"@,
                ChannelError::DeathLinkReceiverDisconnected => "Disconnected from DeathLink receiver"@,
            },
    {
        match self {
            ChannelError::LocationReceiverDisconnected => "Disconnected from location receiver",
            ChannelError::DeathLinkReceiverDisconnected => "Disconnected from DeathLink receiver",
        }
    }
}

/// What to do with a polled location check.
#[derive(Clone, Copy, Debug, PartialEq, Eq, Structural)]
pub enum LocationCheckAction {
    /// Hand the check to the server.
    Submit,
    /// A check arrived while there is no client: report it.
    ReportNoClient,
    /// Nothing arrived.
    Nothing,
}

/// The decision after polling the location channel: a received check is
/// submitted when a client exists and reported otherwise; a channel whose
/// sender is gone is an error.
pub fn location_channel_action(status: ChannelStatus, client_available: bool) -> (r: Result<
    LocationCheckAction,
    ChannelError,
>)
    ensures
        r == match status {
            ChannelStatus::Received => if client_available {
                Ok(LocationCheckAction::Submit)
            } else {
                Ok(LocationCheckAction::ReportNoClient)
            },
            ChannelStatus::Empty => Ok(LocationCheckAction::Nothing),
            ChannelStatus::Disconnected => Err(ChannelError::LocationReceiverDisconnected),
        },
{
    match status {
        ChannelStatus::Received => if client_available {
            Ok(LocationCheckAction::Submit)
        } else {
            Ok(LocationCheckAction::ReportNoClient)
        },
        ChannelStatus::Empty => Ok(LocationCheckAction::Nothing),
        ChannelStatus::Disconnected => Err(ChannelError::LocationReceiverDisconnected),
    }
}

/// The decision after polling the DeathLink channel: `Ok(true)` when a death
/// is to be sent to the server, an error when the sender is gone.
pub fn death_link_channel_action(status: ChannelStatus) -> (r: Result<bool, ChannelError>)
    ensures
        r == match status {
            ChannelStatus::Received => Ok(true),
            ChannelStatus::Empty => Ok(false),
            ChannelStatus::Disconnected => Err(ChannelError::DeathLinkReceiverDisconnected),
        },
{
    match status {
        ChannelStatus::Received => Ok(true),
        ChannelStatus::Empty => Ok(false),
        ChannelStatus::Disconnected => Err(ChannelError::DeathLinkReceiverDisconnected),
    }
}

} // verus!
