use vstd::prelude::*;
use crate::random::uniform_below;
use crate::walk::{BiasedWalk, Point, WalkState};

verus! {

/// The gates of the walk's drawing. Ranges and thresholds are in thousandths,
/// as the heavy-tailed draws are.
#[derive(Clone, Copy, Debug, PartialEq, Eq, Structural)]
pub struct StrokePolicy {
    /// A tick draws the fading overlay when its overlay draw, reduced modulo
    /// `overlay_range`, exceeds `overlay_threshold`.
    pub overlay_range: u64,
    pub overlay_threshold: u64,
    /// A segment takes the accent colour when its accent draw, reduced modulo
    /// `accent_range`, exceeds `accent_threshold`.
    pub accent_range: u64,
    pub accent_threshold: u64,
}

/// The colour of a segment: the accent, or an entry of the palette.
#[derive(Clone, Copy, Debug, PartialEq, Eq, Structural)]
pub enum StrokeColour {
    Accent,
    Palette(usize),
}

/// What the walk draws in one tick.
#[derive(Clone, Copy, Debug, PartialEq, Eq, Structural)]
pub enum WalkCommand {
    /// A faint rectangle over the whole canvas, which fades earlier strokes.
    Overlay,
    /// A line from the previous position to the current one.
    Segment { from: Point, to: Point, colour: StrokeColour },
}

pub open spec fn policy_valid(p: StrokePolicy) -> bool {
    p.overlay_range > 0 && p.accent_range > 0
}

/// The command for a walk in state `s`, given the two gate draws and the
/// palette entry `pick`.
pub open spec fn command_for(
    s: WalkState,
    p: StrokePolicy,
    overlay_draw: u64,
    accent_draw: u64,
    pick: usize,
) -> WalkCommand {
    if overlay_draw % p.overlay_range > p.overlay_threshold {
        WalkCommand::Overlay
    } else {
        WalkCommand::Segment {
            from: s.previous,
            to: s.current,
            colour: if accent_draw % p.accent_range > p.accent_threshold {
                StrokeColour::Accent
            } else {
                StrokeColour::Palette(pick)
            },
        }
    }
}

/// The command for the walk's last tick, given the two gate draws and the
/// palette entry to use when the segment takes no accent.
pub fn walk_command(
    walk: &BiasedWalk,
    policy: StrokePolicy,
    overlay_draw: u64,
    accent_draw: u64,
    pick: usize,
) -> (r: WalkCommand)
    requires
        policy_valid(policy),
    ensures
        r == command_for(walk@, policy, overlay_draw, accent_draw, pick),
{
    if overlay_draw % policy.overlay_range > policy.overlay_threshold {
        WalkCommand::Overlay
    } else {
        let colour = if accent_draw % policy.accent_range > policy.accent_threshold {
            StrokeColour::Accent
        } else {
            StrokeColour::Palette(pick)
        };
        WalkCommand::Segment { from: walk.previous(), to: walk.current(), colour }
    }
}

/// The command for the walk's last tick, its palette entry drawn uniformly
/// from `0..palette_len`: the entry drawn is returned with it, and the
/// command is the one `walk_command` gives for that entry.
pub fn draw_walk_command(
    walk: &BiasedWalk,
    policy: StrokePolicy,
    overlay_draw: u64,
    accent_draw: u64,
    palette_len: usize,
) -> (r: (WalkCommand, usize))
    requires
        policy_valid(policy),
        palette_len > 0,
    ensures
        r.1 < palette_len,
        r.0 == command_for(walk@, policy, overlay_draw, accent_draw, r.1),
{
    let pick = uniform_below(palette_len as u64) as usize;
    (walk_command(walk, policy, overlay_draw, accent_draw, pick), pick)
}

} // verus!
