//! Labels and colors of the heads-up display indicators.

use vstd::prelude::*;
use egui::Color32;

verus! {

#[verifier::external_type_specification]
#[verifier::external_body]
pub struct ExColor32(Color32);

/// The color that `egui::Color32::from_rgb` builds from red, green and blue.
pub uninterp spec fn color32_from_rgb(r: u8, g: u8, b: u8) -> Color32;

/// Calls `egui::Color32::from_rgb`, which builds an opaque color from red,
/// green and blue channels with full alpha. The contract only says that the
/// result is the one color that these three channels give; the channels of
/// the opaque result are not stated.
#[verifier::external_body]
fn rgb(r: u8, g: u8, b: u8) -> (c: Color32)
    ensures
        c == color32_from_rgb(r, g, b),
{
    Color32::from_rgb(r, g, b)
}

/// Depth zones within the hollow sphere.
#[derive(Debug, Clone, Copy, PartialEq, Eq, Structural)]
pub enum DepthZone {
    /// Near the inner surface (safe zone).
    Surface,
    /// Middle depth (moderate danger).
    Mid,
    /// Deep within the sphere (high danger).
    Deep,
    /// Near the core (extreme danger).
    Core,
}

/// Display name of each depth zone.
pub open spec fn depth_zone_name(zone: DepthZone) -> Seq<char> {
    match zone {
        DepthZone::Surface => "Surface"@,
        DepthZone::Mid => "Mid"@,
        DepthZone::Deep => "Deep"@,
        DepthZone::Core => "Core"@,
    }
}

/// Red, green and blue of each depth zone: green at the surface through
/// yellow and orange to red at the core.
pub open spec fn depth_zone_rgb(zone: DepthZone) -> (u8, u8, u8) {
    match zone {
        DepthZone::Surface => (80, 180, 80),
        DepthZone::Mid => (180, 180, 80),
        DepthZone::Deep => (180, 120, 60),
        DepthZone::Core => (200, 60, 60),
    }
}

impl DepthZone {
    /// Get the display name for this zone.
    pub fn name(self) -> (n: &'static str)
        ensures
            n@ == depth_zone_name(self),
    {
        match self {
            DepthZone::Surface => "Surface",
            DepthZone::Mid => "Mid",
            DepthZone::Deep => "Deep",
            DepthZone::Core => "Core",
        }
    }

    /// Get the color for this zone.
    pub fn color(self) -> (c: Color32)
        ensures
            c == color32_from_rgb(depth_zone_rgb(self).0, depth_zone_rgb(self).1, depth_zone_rgb(self).2),
    {
        match self {
            DepthZone::Surface => rgb(80, 180, 80),
            DepthZone::Mid => rgb(180, 180, 80),
            DepthZone::Deep => rgb(180, 120, 60),
            DepthZone::Core => rgb(200, 60, 60),
        }
    }
}

/// Radiation warning level.
#[derive(Debug, Clone, Copy, PartialEq, Eq, Structural)]
pub enum RadiationWarning {
    /// Safe radiation level.
    Safe,
    /// Warning level - minor exposure.
    Warning,
    /// Danger level - significant exposure.
    Danger,
    /// Lethal level - critical exposure.
    Lethal,
}

/// Display text of each warning level.
pub open spec fn warning_text(w: RadiationWarning) -> Seq<char> {
    match w {
        RadiationWarning::Safe => "SAFE"@,
        RadiationWarning::Warning => "WARNING"@,
        RadiationWarning::Danger => "DANGER"@,
        RadiationWarning::Lethal => "LETHAL"@,
    }
}

/// Red, green and blue of each warning level.
pub open spec fn warning_rgb(w: RadiationWarning) -> (u8, u8, u8) {
    match w {
        RadiationWarning::Safe => (80, 180, 80),
        RadiationWarning::Warning => (200, 200, 60),
        RadiationWarning::Danger => (200, 120, 40),
        RadiationWarning::Lethal => (200, 40, 40),
    }
}

impl RadiationWarning {
    /// Get the display text for this warning level.
    pub fn text(self) -> (t: &'static str)
        ensures
            t@ == warning_text(self),
    {
        match self {
            RadiationWarning::Safe => "SAFE",
            RadiationWarning::Warning => "WARNING",
            RadiationWarning::Danger => "DANGER",
            RadiationWarning::Lethal => "LETHAL",
        }
    }

    /// Get the color for this warning level.
    pub fn color(self) -> (c: Color32)
        ensures
            c == color32_from_rgb(warning_rgb(self).0, warning_rgb(self).1, warning_rgb(self).2),
    {
        match self {
            RadiationWarning::Safe => rgb(80, 180, 80),
            RadiationWarning::Warning => rgb(200, 200, 60),
            RadiationWarning::Danger => rgb(200, 120, 40),
            RadiationWarning::Lethal => rgb(200, 40, 40),
        }
    }
}

/// Tether health status.
#[derive(Debug, Clone, Copy, PartialEq, Eq, Structural)]
pub enum TetherHealth {
    /// Tether is healthy (tension < 50%).
    Healthy,
    /// Tether is stressed (tension 50-80%).
    Stressed,
    /// Tether is critical (tension > 80%).
    Critical,
    /// Tether has snapped.
    Broken,
}

/// Display text of each tether health status.
pub open spec fn tether_health_text(h: TetherHealth) -> Seq<char> {
    match h {
        TetherHealth::Healthy => "OK"@,
        TetherHealth::Stressed => "STRESSED"@,
        TetherHealth::Critical => "CRITICAL"@,
        TetherHealth::Broken => "BROKEN"@,
    }
}

/// Red, green and blue of each tether health status.
pub open spec fn tether_health_rgb(h: TetherHealth) -> (u8, u8, u8) {
    match h {
        TetherHealth::Healthy => (80, 180, 80),
        TetherHealth::Stressed => (200, 200, 60),
        TetherHealth::Critical => (200, 80, 40),
        TetherHealth::Broken => (100, 100, 100),
    }
}

impl TetherHealth {
    /// Get the color for this health status.
    pub fn color(self) -> (c: Color32)
        ensures
            c == color32_from_rgb(tether_health_rgb(self).0, tether_health_rgb(self).1, tether_health_rgb(self).2),
    {
        match self {
            TetherHealth::Healthy => rgb(80, 180, 80),
            TetherHealth::Stressed => rgb(200, 200, 60),
            TetherHealth::Critical => rgb(200, 80, 40),
            TetherHealth::Broken => rgb(100, 100, 100),
        }
    }

    /// Get display text for this status.
    pub fn text(self) -> (t: &'static str)
        ensures
            t@ == tether_health_text(self),
    {
        match self {
            TetherHealth::Healthy => "OK",
            TetherHealth::Stressed => "STRESSED",
            TetherHealth::Critical => "CRITICAL",
            TetherHealth::Broken => "BROKEN",
        }
    }
}

/// Each indicator tells its levels apart: different depth zones, warning
/// levels and tether statuses have different labels and different colors.
pub proof fn lemma_labels_distinct(
    z1: DepthZone,
    z2: DepthZone,
    w1: RadiationWarning,
    w2: RadiationWarning,
    h1: TetherHealth,
    h2: TetherHealth,
)
    ensures
        z1 != z2 ==> depth_zone_name(z1) != depth_zone_name(z2) && depth_zone_rgb(z1) != depth_zone_rgb(z2),
        w1 != w2 ==> warning_text(w1) != warning_text(w2) && warning_rgb(w1) != warning_rgb(w2),
        h1 != h2 ==> tether_health_text(h1) != tether_health_text(h2) && tether_health_rgb(h1) != tether_health_rgb(h2),
{
    reveal_strlit("Surface");
    reveal_strlit("Mid");
    reveal_strlit("Deep");
    reveal_strlit("Core");
    reveal_strlit("SAFE");
    reveal_strlit("WARNING");
    reveal_strlit("DANGER");
    reveal_strlit("LETHAL");
    reveal_strlit("OK");
    reveal_strlit("STRESSED");
    reveal_strlit("CRITICAL");
    reveal_strlit("BROKEN");
    // The labels differ in their first letter, or in length.
    assert(depth_zone_name(z1).len() != depth_zone_name(z2).len() || depth_zone_name(z1)[0] != depth_zone_name(z2)[0]
        || z1 == z2);
    assert(warning_text(w1)[0] != warning_text(w2)[0] || w1 == w2);
    assert(tether_health_text(h1)[0] != tether_health_text(h2)[0] || h1 == h2);
}

} // verus!
