//! A model of a render surface's composition state.
//!
//! A surface is a stateful document driven by two imperative commands:
//! prepare-composition and set-frame. A raster captured from the surface is
//! a function of the state those commands left behind, so the model records
//! the state each capture observes. The model backs the protocol's central
//! guarantee: the prepare-composition command is idempotent.

use vstd::prelude::*;

verus! {

use crate::composition::Composition;

/// The document state of one render surface.
#[derive(Debug, Clone, PartialEq, Eq)]
pub struct SurfaceState {
    /// The composition the surface was prepared with, if any.
    pub prepared: Option<Composition>,
    /// The frame the surface was last moved to, if any.
    pub frame: Option<u32>,
}

/// One command of the composition-state protocol, or a capture observing
/// the state the commands left behind.
pub enum SurfaceCommand {
    /// Prepare the surface for a composition.
    SetComposition(Composition),
    /// Move the prepared composition to a frame.
    SetFrame(u32),
    /// Capture the current raster.
    Capture,
}

/// The state a surface is in after one command.
pub open spec fn spec_apply(state: SurfaceState, cmd: SurfaceCommand) -> SurfaceState {
    match cmd {
        SurfaceCommand::SetComposition(comp) => SurfaceState {
            prepared: Some(comp),
            frame: state.frame,
        },
        SurfaceCommand::SetFrame(index) => SurfaceState {
            prepared: state.prepared,
            frame: Some(index),
        },
        SurfaceCommand::Capture => state,
    }
}

/// The state a surface is in after a sequence of commands.
pub open spec fn spec_run(state: SurfaceState, cmds: Seq<SurfaceCommand>) -> SurfaceState
    decreases cmds.len(),
{
    if cmds.len() == 0 {
        state
    } else {
        spec_run(spec_apply(state, cmds[0]), cmds.drop_first())
    }
}

/// The states observed by the captures within a sequence of commands, in
/// order. Two runs that observe equal states capture equal rasters.
pub open spec fn spec_captures(state: SurfaceState, cmds: Seq<SurfaceCommand>) -> Seq<SurfaceState>
    decreases cmds.len(),
{
    if cmds.len() == 0 {
        Seq::empty()
    } else {
        let here: Seq<SurfaceState> = if cmds[0] is Capture {
            seq![state]
        } else {
            Seq::empty()
        };
        here + spec_captures(spec_apply(state, cmds[0]), cmds.drop_first())
    }
}

/// See [`spec_apply`]: the surface state after the prepare-composition
/// command.
pub fn apply_set_composition(state: SurfaceState, comp: Composition) -> (r: SurfaceState)
    ensures
        r == spec_apply(state, SurfaceCommand::SetComposition(comp)),
{
    SurfaceState { prepared: Some(comp), frame: state.frame }
}

/// See [`spec_apply`]: the surface state after the set-frame command.
pub fn apply_set_frame(state: SurfaceState, index: u32) -> (r: SurfaceState)
    ensures
        r == spec_apply(state, SurfaceCommand::SetFrame(index)),
{
    SurfaceState { prepared: state.prepared, frame: Some(index) }
}

/// Idempotence of the prepare-composition command: issuing it twice with
/// identical arguments leaves the surface in the same state as issuing it
/// once, so every subsequent capture — whatever commands follow — observes
/// the same states and yields the same rasters.
pub proof fn lemma_set_composition_idempotent(
    state: SurfaceState,
    comp: Composition,
    rest: Seq<SurfaceCommand>,
)
    ensures
        spec_run(
            state,
            seq![
                SurfaceCommand::SetComposition(comp),
                SurfaceCommand::SetComposition(comp),
            ] + rest,
        ) == spec_run(state, seq![SurfaceCommand::SetComposition(comp)] + rest),
        spec_captures(
            state,
            seq![
                SurfaceCommand::SetComposition(comp),
                SurfaceCommand::SetComposition(comp),
            ] + rest,
        ) == spec_captures(state, seq![SurfaceCommand::SetComposition(comp)] + rest),
{
    let cmd = SurfaceCommand::SetComposition(comp);
    let once = seq![cmd] + rest;
    let twice = seq![cmd, cmd] + rest;
    let prepared = spec_apply(state, cmd);
    assert(twice.drop_first() =~= once);
    assert(once.drop_first() =~= rest);
    assert(spec_apply(prepared, cmd) == prepared);
    // both runs agree after the prepared state: unfold one step on each side
    assert(spec_run(state, twice) == spec_run(prepared, once));
    assert(spec_run(state, once) == spec_run(prepared, rest));
    assert(spec_captures(state, twice) =~= spec_captures(prepared, once));
    assert(spec_captures(prepared, once) =~= spec_captures(prepared, rest));
    assert(spec_captures(state, once) =~= spec_captures(prepared, rest));
}

} // verus!
