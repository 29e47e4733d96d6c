//! The render scheduler: a single loop that draws the active pattern frame
//! by frame and, at every frame, compares the epoch it captured with the
//! dispatcher's, restarting from the current configuration on a mismatch.

use vstd::prelude::*;
use crate::config::{DeviceSettings, PresetId, SettingsView};
use crate::dispatcher::next_epoch;

verus! {

/// What the render loop is doing.
#[derive(Debug, Clone, Copy, PartialEq, Eq)]
pub enum RenderState {
    /// Power is off: a blank frame, then waiting.
    Idle,
    /// Drawing a pattern.
    Rendering(PresetId),
}

/// Model of the render loop: the pattern drawn (`None` when idle), the
/// epoch it started from, and the frames drawn since.
pub struct RendererView {
    pub pattern: Option<u8>,
    pub epoch: u64,
    pub frame: u64,
}

pub open spec fn state_pattern(st: RenderState) -> Option<u8> {
    match st {
        RenderState::Idle => None,
        RenderState::Rendering(p) => Some(p.value()),
    }
}

/// What a configuration asks the loop to draw.
pub open spec fn target_pattern(s: SettingsView) -> Option<u8> {
    if s.is_on { Some(s.current) } else { None }
}

/// The loop after its per-frame check against epoch `e` and configuration `s`.
pub open spec fn after_check(v: RendererView, e: u64, s: SettingsView) -> RendererView {
    if e != v.epoch {
        RendererView { pattern: target_pattern(s), epoch: e, frame: 0 }
    } else {
        RendererView {
            frame: if v.frame == u64::MAX { 0 } else { (v.frame + 1) as u64 },
            ..v
        }
    }
}

/// The render loop's state.
#[derive(Debug)]
pub struct Renderer {
    state: RenderState,
    epoch: u64,
    frame: u64,
}

impl View for Renderer {
    type V = RendererView;

    closed spec fn view(&self) -> RendererView {
        RendererView { pattern: state_pattern(self.state), epoch: self.epoch, frame: self.frame }
    }
}

/// The state a configuration asks for.
fn target_state(settings: &DeviceSettings) -> (r: RenderState)
    requires
        settings.wf(),
    ensures
        state_pattern(r) == target_pattern(settings@),
{
    if settings.is_on {
        RenderState::Rendering(settings.current_preset_id)
    } else {
        RenderState::Idle
    }
}

impl Renderer {
    /// A loop that starts from `settings` at epoch `epoch`.
    pub fn new(epoch: u64, settings: &DeviceSettings) -> (r: Renderer)
        requires
            settings.wf(),
        ensures
            r@ == (RendererView { pattern: target_pattern(settings@), epoch, frame: 0 }),
    {
        Renderer { state: target_state(settings), epoch, frame: 0 }
    }

    /// The per-frame check. Where the epoch moved, the loop restarts in the
    /// state that `settings` asks for and reports `true`; otherwise it
    /// counts one more frame of what it was drawing.
    pub fn check(&mut self, epoch: u64, settings: &DeviceSettings) -> (restarted: bool)
        requires
            settings.wf(),
        ensures
            final(self)@ == after_check(old(self)@, epoch, settings@),
            restarted == (epoch != old(self)@.epoch),
    {
        if epoch != self.epoch {
            self.state = target_state(settings);
            self.epoch = epoch;
            self.frame = 0;
            true
        } else {
            self.frame = self.frame.wrapping_add(1);
            false
        }
    }

    pub fn state(&self) -> (r: RenderState)
        ensures
            state_pattern(r) == self@.pattern,
    {
        self.state
    }

    pub fn frame(&self) -> (r: u64)
        ensures
            r == self@.frame,
    {
        self.frame
    }

    pub fn epoch(&self) -> (r: u64)
        ensures
            r == self@.epoch,
    {
        self.epoch
    }
}

/// When the epoch moves while a pattern is drawn, the very next per-frame
/// check leaves that pattern and takes up what the current configuration
/// asks for, from its first frame.
pub proof fn lemma_epoch_change_switches(v: RendererView, e: u64, s: SettingsView)
    requires
        v.pattern is Some,
        e != v.epoch,
    ensures
        after_check(v, e, s).pattern == target_pattern(s),
        after_check(v, e, s).epoch == e,
        after_check(v, e, s).frame == 0,
{
}

/// A command that the dispatcher applied preempts the pattern being
/// drawn: the loop, which captured the epoch from before the command, takes
/// up the new configuration at its next per-frame check.
pub proof fn lemma_applied_command_preempts(v: RendererView, s: SettingsView)
    ensures
        next_epoch(v.epoch) != v.epoch,
        after_check(v, next_epoch(v.epoch), s).pattern == target_pattern(s),
        after_check(v, next_epoch(v.epoch), s).epoch == next_epoch(v.epoch),
{
}

/// Without a change of epoch the loop keeps drawing the same pattern.
pub proof fn lemma_same_epoch_keeps_pattern(v: RendererView, s: SettingsView)
    ensures
        after_check(v, v.epoch, s).pattern == v.pattern,
        after_check(v, v.epoch, s).epoch == v.epoch,
{
}

} // verus!
