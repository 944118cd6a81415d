# dmc2_archipelago

The client side of the Devil May Cry 2 Archipelago mod.

- `src/` is the verified library: what the player has received (orbs, Devil
  Trigger, gun levels, items) with its caps, location checks and their text,
  the slot settings, the decisions of the connection life cycle (connecting,
  hooks, DeathLink, disconnecting), and which lines the overlays draw.
- `app/` holds what runs around it in the game: the server connection, the
  shared state behind locks, the DDMK window and the DirectX overlay, and
  the serde copy of the slot data.
- `tests/` runs the library on concrete values.
