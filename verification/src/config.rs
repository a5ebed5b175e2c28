//! Configured asset locations. Reading and parsing the configuration file
//! is left to the surrounding program; the library only carries the paths.

use vstd::prelude::*;

verus! {

/// File locations the game is configured with.
pub struct Paths {
    pub player_texture_filepath: String,
    pub map_filepath: String,
    pub map_terrain_texture: String,
}

} // verus!
