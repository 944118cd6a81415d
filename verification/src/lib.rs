//! Game-side logic of the Devil May Cry 2 Archipelago client: the item and
//! upgrade bookkeeping, location checks, the slot settings, the connection
//! life cycle and what the overlays show.

pub mod constants;
pub mod text;
pub mod check_handler;
pub mod mapping;
pub mod game_manager;
pub mod archipelago;
pub mod overlay;
pub mod utilities;
