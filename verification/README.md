# Super Snack Bros — verified game logic

A two-player arcade brawler: fight your friend to get snacks from the snacktopus.
The game's decision logic is a Verus library, with its behaviour stated in
contracts and proved; a thin browser front end draws it and feeds it the controller.

Layout:

- `src/engine/animation.rs` — animations with looping and one-shot playback,
  hit and recovery frames; laws on when an animation repeats or finishes.
- `src/engine/input.rs` — the controller's buttons per player, with pressed /
  just pressed / just released queries; laws on what an update reads back.
- `src/engine/render.rs` — sprite sheets, their frame grid, bitmap-font glyphs
  and text layout.
- `src/game/fighter.rs` — a fighter's decisions: input buffering, ground, coyote
  and air jumps, the punch combo, hitstun and the animation that plays.
- `src/game/state.rs` — the debug overlay cycle and platform tiling.
- `src/animation.rs`, `src/input.rs`, `src/sprite.rs` — the simpler first
  versions of animation, input and sprite handling.
- `tests/` — scenario tests of the library.
- `app/` — the browser front end: canvas drawing, the arcade controller, and the
  floating-point movement, collision and knockback around the library.
