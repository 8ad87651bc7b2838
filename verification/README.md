# rpg_character

Verified core of a Godot top-down RPG character toolkit.

- `src/` — the library, verified with Verus: facing directions (`cardinal`), walk-animation
  selection and playback memory (`character_sprite`), directional sprite state
  (`directional_sprite`), the player character's acceleration, interaction requests, sprite
  adoption and follower trails (`avatar`), non-player characters (`npc`), the warp
  transition cache (`warp`) and the depth-first avatar search (`util`).
- `app/` — the Godot classes (gdext), which hold the engine objects, do the floating-point
  vector maths and apply the decisions the library returns.
- `tests/` — executable tests of the library.

The scene-changing warp (`SceneWarp2D`, an optional feature built on the `scene_manager`
crate that provides `SceneManager`, `load_node_from_path` and `load_threaded_to_node`) is not
included: the published crate named `scene_manager` is a different library without those
items, and the warp's work is resource loading,
deferred calls and an awaited scene transition inside the engine. The walking sprite
(`WalkSprite2D`) is not included either: it was not part of the built library.
