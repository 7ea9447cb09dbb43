//! The player.

use vstd::prelude::*;
use crate::plugin::camera::Translation;
use crate::plugin::texture_loader::spec_ascii_tileset;
use crate::plugin::texture_loader::AsciiTilsetId;

verus! {

/// The player, as it is spawned.
#[derive(Debug, Clone, Copy, PartialEq, Eq, Structural)]
pub struct Player {
    /// Cell of the ASCII sheet that the player shows.
    pub sprite_index: usize,
    /// Where the player is in the world.
    pub transform: Translation,
}

/// Lays out the player for spawning: it shows the digit zero of the ASCII
/// sheet and stands at the origin of the world.
pub fn spawn_player() -> (player: Player)
    ensures
        player.sprite_index == AsciiTilsetId::Zero.spec_index(),
        spec_ascii_tileset().spec_contains(player.sprite_index as int),
        player.transform == (Translation { x: 0, y: 0 }),
{
    Player { sprite_index: AsciiTilsetId::Zero.index(), transform: Translation { x: 0, y: 0 } }
}

} // verus!
