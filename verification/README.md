# ship_ai

The decision logic of a space trading simulation, verified with Verus: ship task queues and
their lifecycle, the plans that move a ship between sectors and dock it, mining, harvesting
and trading updates, idle-ship behaviour, construction sites, persistent-id bookkeeping, and
the rules for selecting entities with the mouse.

## Layout

- `src/` — the verified library. Every public function carries a contract; the properties
  that relate several functions are public proof functions whose names start with `law_`.
  `entity_id_map.rs` keeps bevy's hash map behind a few trusted wrappers; everything else
  is proved.
- `tests/` — tests that run the library on concrete values.
- `app/` — the bevy side, so far: conversions between bevy's values and the library's, the
  ship AI plugin with the systems that cancel tasks and start the next queued task, and serde
  copies of the save-game types. The other systems (idle ships, mining and harvesting
  updates, selection, spawning) need world components that this workspace does not define;
  the library functions they would call are in `src/`.

Floating-point geometry (movement, rotations, overlap tests) stays with the caller, which
hands the library the flags and integers it derives from it.
