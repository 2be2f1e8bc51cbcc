//! The parts of the game state that are plain decisions: which hits land,
//! the debug overlay cycle and the tiling of platforms.
use vstd::prelude::*;

use crate::engine::input::INPUT_PLAYER_COUNT;

verus! {

/// Side of a square tile, in pixels.
pub const TILE_SIZE_U32: u32 = 16;

pub const DEBUG_MODE_NONE: u32 = 0;

pub const DEBUG_MODE_PUSHBOXES: u32 = 1;

pub const DEBUG_MODE_HITBOXES: u32 = 2;

/// Number of debug overlay modes.
pub const DEBUG_MODE_COUNT: u32 = 3;

pub open spec fn spec_next_debug_mode(debug_mode: u32) -> u32 {
    ((debug_mode + 1) % (DEBUG_MODE_COUNT as int)) as u32
}

/// The debug overlay that follows `debug_mode` when the toggle is pressed.
pub fn next_debug_mode(debug_mode: u32) -> (next: u32)
    requires
        debug_mode < u32::MAX,
    ensures
        next == spec_next_debug_mode(debug_mode),
        next < DEBUG_MODE_COUNT,
{
    (debug_mode + 1) % DEBUG_MODE_COUNT
}

/// The label the overlay shows for `debug_mode`, if it is a known mode.
pub fn debug_mode_label(debug_mode: u32) -> (label: Option<&'static str>)
    ensures
        debug_mode == DEBUG_MODE_NONE ==> label == Some("Debug: None"),
        debug_mode == DEBUG_MODE_PUSHBOXES ==> label == Some("Debug: Pushboxes"),
        debug_mode == DEBUG_MODE_HITBOXES ==> label == Some("Debug: Hitboxes"),
        debug_mode >= DEBUG_MODE_COUNT ==> label.is_none(),
{
    match debug_mode {
        DEBUG_MODE_NONE => Some("Debug: None"),
        DEBUG_MODE_PUSHBOXES => Some("Debug: Pushboxes"),
        DEBUG_MODE_HITBOXES => Some("Debug: Hitboxes"),
        _ => None,
    }
}

/// Number of tiles across and down a platform of `width` by `height` pixels.
pub fn platform_tile_counts(width: u32, height: u32) -> (counts: (u32, u32))
    requires
        width % TILE_SIZE_U32 == 0,
        height % TILE_SIZE_U32 == 0,
    ensures
        counts.0 * TILE_SIZE_U32 == width,
        counts.1 * TILE_SIZE_U32 == height,
{
    (width / TILE_SIZE_U32, height / TILE_SIZE_U32)
}

pub open spec fn spec_platform_tile_frame(x: u32, y: u32, tile_width: u32) -> (u32, u32) {
    let h_frame: u32 = if x == 0 {
        0
    } else if x == tile_width - 1 {
        2
    } else {
        1
    };
    let v_frame: u32 = if y == 0 {
        1
    } else {
        2
    };
    (h_frame, v_frame)
}

/// The tileset cell drawn at tile (`x`, `y`) of a platform `tile_width` tiles
/// wide: left edge, middle or right edge; top row or below it.
pub fn platform_tile_frame(x: u32, y: u32, tile_width: u32) -> (frame: (u32, u32))
    requires
        x < tile_width,
    ensures
        frame == spec_platform_tile_frame(x, y, tile_width),
{
    let h_frame: u32 = if x == 0 {
        0
    } else if x == tile_width - 1 {
        2
    } else {
        1
    };
    let v_frame: u32 = if y == 0 {
        1
    } else {
        2
    };
    (h_frame, v_frame)
}

/// Whether an attacker's hit lands: it has a hitbox, its hitbox does not meet
/// the opponent's hitbox (hits that meet cancel out), and it meets the
/// opponent's hurtbox.
pub open spec fn spec_hit_lands(
    has_hitbox: bool,
    opponent_has_hitbox: bool,
    meets_opponent_hitbox: bool,
    meets_opponent_hurtbox: bool,
) -> bool {
    has_hitbox && !(opponent_has_hitbox && meets_opponent_hitbox) && meets_opponent_hurtbox
}

/// For each player, whether its hit lands on the other player this update.
/// `has_hitbox[i]` tells whether player `i` deals a hit now; the other two
/// arguments tell whether player `i`'s hitbox meets the other player's hitbox
/// and hurtbox.
pub fn resolve_hits(
    has_hitbox: [bool; INPUT_PLAYER_COUNT],
    meets_opponent_hitbox: [bool; INPUT_PLAYER_COUNT],
    meets_opponent_hurtbox: [bool; INPUT_PLAYER_COUNT],
) -> (lands: [bool; INPUT_PLAYER_COUNT])
    ensures
        forall|i: int|
            0 <= i < INPUT_PLAYER_COUNT ==> #[trigger] lands@[i] == spec_hit_lands(
                has_hitbox@[i],
                has_hitbox@[1 - i],
                meets_opponent_hitbox@[i],
                meets_opponent_hurtbox@[i],
            ),
{
    let mut lands = [false; INPUT_PLAYER_COUNT];
    let mut index: usize = 0;
    while index < INPUT_PLAYER_COUNT
        invariant
            index <= INPUT_PLAYER_COUNT,
            forall|i: int|
                0 <= i < index ==> #[trigger] lands@[i] == spec_hit_lands(
                    has_hitbox@[i],
                    has_hitbox@[1 - i],
                    meets_opponent_hitbox@[i],
                    meets_opponent_hurtbox@[i],
                ),
            forall|i: int| index <= i < INPUT_PLAYER_COUNT ==> !#[trigger] lands@[i],
        decreases INPUT_PLAYER_COUNT - index,
    {
        let opp_index: usize = if index == 0 {
            1
        } else {
            0
        };
        if has_hitbox[index] {
            let intersects_opp_hitbox = has_hitbox[opp_index] && meets_opponent_hitbox[index];
            if !intersects_opp_hitbox && meets_opponent_hurtbox[index] {
                lands[index] = true;
            }
        }
        index += 1;
    }
    lands
}

/// A hit lands only when the attacker has a hitbox that reaches the
/// opponent's hurtbox without meeting the opponent's hitbox; an attacker
/// whose opponent deals no hit lands exactly when it reaches the hurtbox.
pub proof fn law_hit_lands_only_on_reach(
    has_hitbox: bool,
    opponent_has_hitbox: bool,
    meets_opponent_hitbox: bool,
    meets_opponent_hurtbox: bool,
)
    ensures
        spec_hit_lands(has_hitbox, opponent_has_hitbox, meets_opponent_hitbox, meets_opponent_hurtbox)
            ==> has_hitbox && meets_opponent_hurtbox,
        spec_hit_lands(has_hitbox, opponent_has_hitbox, meets_opponent_hitbox, meets_opponent_hurtbox)
            ==> !(opponent_has_hitbox && meets_opponent_hitbox),
        has_hitbox && !opponent_has_hitbox ==> (spec_hit_lands(
            has_hitbox,
            opponent_has_hitbox,
            meets_opponent_hitbox,
            meets_opponent_hurtbox,
        ) == meets_opponent_hurtbox),
{
}

/// When both players deal a hit and their hitboxes meet, neither hit lands.
pub proof fn law_meeting_hits_cancel(
    has_hitbox: Seq<bool>,
    meets_opponent_hitbox: Seq<bool>,
    meets_opponent_hurtbox: Seq<bool>,
    i: int,
)
    requires
        has_hitbox.len() == 2,
        meets_opponent_hitbox.len() == 2,
        has_hitbox[0] && has_hitbox[1],
        meets_opponent_hitbox[0] && meets_opponent_hitbox[1],
        0 <= i < 2,
    ensures
        !spec_hit_lands(
            has_hitbox[i],
            has_hitbox[1 - i],
            meets_opponent_hitbox[i],
            meets_opponent_hurtbox[i],
        ),
{
}

/// The overlay cycles through its three modes: none, pushboxes, hitboxes,
/// and three presses bring it back to where it was.
pub proof fn law_debug_mode_cycles(debug_mode: u32)
    requires
        debug_mode < DEBUG_MODE_COUNT,
    ensures
        spec_next_debug_mode(spec_next_debug_mode(spec_next_debug_mode(debug_mode))) == debug_mode,
        spec_next_debug_mode(DEBUG_MODE_NONE) == DEBUG_MODE_PUSHBOXES,
        spec_next_debug_mode(DEBUG_MODE_PUSHBOXES) == DEBUG_MODE_HITBOXES,
        spec_next_debug_mode(DEBUG_MODE_HITBOXES) == DEBUG_MODE_NONE,
{
}

/// A platform at least two tiles wide starts with a left edge and ends with a
/// right edge, and its top row is drawn with the top cells.
pub proof fn law_platform_edges(tile_width: u32, y: u32)
    requires
        tile_width >= 2,
    ensures
        spec_platform_tile_frame(0, y, tile_width).0 == 0,
        spec_platform_tile_frame((tile_width - 1) as u32, y, tile_width).0 == 2,
        spec_platform_tile_frame(0, 0, tile_width).1 == 1,
{
}

} // verus!
