//! The options of a session that the layout and the launch command depend on.

use vstd::prelude::*;

verus! {

/// How the instances are sized and placed on the screen.
#[derive(Clone, Copy, Debug, PartialEq, Eq, Structural)]
pub enum InstanceLayoutMode {
    /// Fixed quadrants for at most four players, arranged by a KWin script.
    KWin,
    /// A computed grid whose windows Sway arranges row by row.
    Sway,
    /// The instances keep whatever size and position they have. No placement
    /// policy is defined for this mode yet; it only marks where one would go.
    Manual,
}

/// The recognised options.
#[derive(Clone, Debug)]
pub struct PartyConfig {
    pub instance_layout_mode: InstanceLayoutMode,
    /// With two players in fixed-quadrant mode, split the screen left/right
    /// instead of top/bottom.
    pub vertical_two_player: bool,
    /// Make native games load the SDL library of the Steam runtime.
    pub force_sdl: bool,
    /// Raise windows lower than the usable minimum to that height, keeping
    /// their aspect ratio.
    pub gamescope_fix_lowres: bool,
    /// Route each keyboard and mouse to the one instance that holds it.
    pub kbm_support: bool,
    /// Run the compositor on its SDL backend.
    pub gamescope_sdl_backend: bool,
    /// The compatibility-layer build to use; empty for the default build.
    pub proton_version: String,
    /// Give every instance a compatibility-layer prefix of its own.
    pub proton_separate_pfxs: bool,
}

impl PartyConfig {
    /// Both configurations hold the same options.
    pub open spec fn same_content(self, other: PartyConfig) -> bool {
        &&& self.instance_layout_mode == other.instance_layout_mode
        &&& self.vertical_two_player == other.vertical_two_player
        &&& self.force_sdl == other.force_sdl
        &&& self.gamescope_fix_lowres == other.gamescope_fix_lowres
        &&& self.kbm_support == other.kbm_support
        &&& self.gamescope_sdl_backend == other.gamescope_sdl_backend
        &&& self.proton_version@ == other.proton_version@
        &&& self.proton_separate_pfxs == other.proton_separate_pfxs
    }
}

} // verus!
