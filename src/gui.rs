use vstd::prelude::*;

use crate::gain::{
    clamp_gain, clamp_spec, drag_offset, drag_offset_spec, frame_index, frame_index_spec,
    GAIN_UNIT, KNOB_FRAMES,
};

verus! {

/// A new value of a parameter, in gain units.
#[derive(Clone, Copy, Debug, PartialEq, Eq, Structural)]
pub enum ParamUpdate {
    GainUpdated(u32),
}

/// A message from the host side to the GUI.
#[derive(Clone, Copy, Debug, PartialEq, Eq, Structural)]
pub enum HostToGui {
    ParamUpdate(ParamUpdate),
}

/// A message from the GUI to the host side.
#[derive(Clone, Copy, Debug, PartialEq, Eq, Structural)]
pub enum GuiToHost {
    ParamUpdate(ParamUpdate),
}

impl ParamUpdate {
    pub open spec fn gain_spec(self) -> u32 {
        match self {
            ParamUpdate::GainUpdated(g) => g,
        }
    }

    pub fn gain(&self) -> (r: u32)
        ensures
            r == self.gain_spec(),
    {
        match self {
            ParamUpdate::GainUpdated(g) => *g,
        }
    }
}

impl HostToGui {
    pub open spec fn gain_spec(self) -> u32 {
        match self {
            HostToGui::ParamUpdate(u) => u.gain_spec(),
        }
    }

    pub open spec fn of_gain(g: u32) -> HostToGui {
        HostToGui::ParamUpdate(ParamUpdate::GainUpdated(g))
    }
}

impl GuiToHost {
    pub open spec fn gain_spec(self) -> u32 {
        match self {
            GuiToHost::ParamUpdate(u) => u.gain_spec(),
        }
    }

    pub open spec fn of_gain(g: u32) -> GuiToHost {
        GuiToHost::ParamUpdate(ParamUpdate::GainUpdated(g))
    }
}

/// The GUI's copy of the committed gain, and the value a drag in progress proposes.
#[derive(Clone, Copy, Debug, PartialEq, Eq, Structural)]
pub struct GainValue {
    pub current: u32,
    pub proposed: Option<u32>,
}

impl GainValue {
    pub fn new(value: u32) -> (r: GainValue)
        ensures
            r.current == value,
            r.proposed is None,
    {
        GainValue { current: value, proposed: None }
    }

    /// The gain that the knob shows: the proposed one during a drag, else the committed one.
    pub open spec fn displayed(self) -> u32 {
        match self.proposed {
            Some(g) => g,
            None => self.current,
        }
    }
}

#[derive(Clone, Copy, Debug, PartialEq, Eq, Structural)]
pub enum AppState {
    Idle,
    AdjustingKnob,
}

/// The state of the knob's pointer interaction.
#[derive(Clone, Copy, Debug, PartialEq, Eq, Structural)]
pub struct KnobState {
    pub app_state: AppState,
    /// Vertical pointer position where the drag began.
    pub drag_start: Option<i32>,
    pub gain: GainValue,
}

impl KnobState {
    pub open spec fn wf(self) -> bool {
        &&& self.gain.current <= GAIN_UNIT
        &&& (self.gain.proposed matches Some(g) ==> g <= GAIN_UNIT)
    }

    pub open spec fn initial() -> KnobState {
        KnobState {
            app_state: AppState::Idle,
            drag_start: None,
            gain: GainValue { current: 0, proposed: None },
        }
    }

    /// A host update: it overwrites the committed gain and drops any proposal, in every state.
    pub open spec fn host_update_spec(self, g: u32) -> KnobState {
        KnobState {
            gain: GainValue { current: clamp_spec(g as int) as u32, proposed: None },
            ..self
        }
    }

    /// The state after a batch of host updates: the last one wins.
    pub open spec fn host_updates_spec(self, msgs: Seq<HostToGui>) -> KnobState {
        if msgs.len() == 0 {
            self
        } else {
            self.host_update_spec(msgs.last().gain_spec())
        }
    }

    /// A press of the primary button while idle starts a drag at the pointer.
    pub open spec fn press_spec(self, cursor_y: i32) -> KnobState {
        KnobState { app_state: AppState::AdjustingKnob, drag_start: Some(cursor_y), ..self }
    }

    /// A pointer position during a drag proposes the committed gain moved by the drag's
    /// offset, and reports it to the host.
    pub open spec fn move_spec(self, cursor_y: i32, window_height: u32) -> (KnobState, GuiToHost) {
        let g = clamp_spec(
            self.gain.current as int + drag_offset_spec(
                self.drag_start->0 as int,
                cursor_y as int,
                window_height as int,
            ),
        ) as u32;
        (
            KnobState { gain: GainValue { current: self.gain.current, proposed: Some(g) }, ..self },
            GuiToHost::of_gain(g),
        )
    }

    /// A release ends the drag, commits what is shown and reports it to the host.
    pub open spec fn release_spec(self) -> (KnobState, GuiToHost) {
        let g = self.gain.displayed();
        (
            KnobState {
                app_state: AppState::Idle,
                drag_start: None,
                gain: GainValue { current: g, proposed: None },
            },
            GuiToHost::of_gain(g),
        )
    }

    pub fn new() -> (r: KnobState)
        ensures
            r == KnobState::initial(),
            r.wf(),
    {
        KnobState { app_state: AppState::Idle, drag_start: None, gain: GainValue::new(0) }
    }

    pub fn is_well_formed(&self) -> (r: bool)
        ensures
            r == self.wf(),
    {
        self.gain.current <= GAIN_UNIT && match self.gain.proposed {
            Some(g) => g <= GAIN_UNIT,
            None => true,
        }
    }

    /// Applies the host's updates of one frame, oldest first.
    pub fn update_from_host(&mut self, msgs: &Vec<HostToGui>)
        ensures
            *final(self) == old(self).host_updates_spec(msgs@),
            old(self).wf() ==> final(self).wf(),
    {
        let ghost start = *self;
        let mut i: usize = 0;
        while i < msgs.len()
            invariant
                i <= msgs@.len(),
                *self == start.host_updates_spec(msgs@.take(i as int)),
                start.wf() ==> self.wf(),
            decreases msgs@.len() - i,
        {
            let HostToGui::ParamUpdate(u) = msgs[i];
            let g = clamp_gain(u.gain() as i64);
            self.gain = GainValue { current: g, proposed: None };
            assert(msgs@.take(i + 1).last() == msgs@[i as int]);
            i = i + 1;
        }
        assert(msgs@.take(msgs@.len() as int) =~= msgs@);
    }

    /// The idle step of a frame: a press of the primary button starts a drag.
    pub fn idle(&mut self, just_pressed: bool, cursor_y: i32)
        ensures
            old(self).app_state is Idle && just_pressed ==> *final(self) == old(self).press_spec(
                cursor_y,
            ),
            !(old(self).app_state is Idle && just_pressed) ==> *final(self) == *old(self),
    {
        if just_pressed && self.app_state == AppState::Idle {
            self.app_state = AppState::AdjustingKnob;
            self.drag_start = Some(cursor_y);
        }
    }

    /// The dragging step of a frame: a release commits, anything else follows the pointer.
    /// Outside a drag, or without a start position or a window height, the state is left
    /// as it is and nothing is reported.
    pub fn knob_activated(&mut self, just_released: bool, cursor_y: i32, window_height: u32) -> (r:
        Option<GuiToHost>)
        requires
            old(self).wf(),
        ensures
            final(self).wf(),
            old(self).app_state is AdjustingKnob && just_released ==> (*final(self), r->0)
                == old(self).release_spec() && r is Some,
            old(self).app_state is AdjustingKnob && !just_released && old(self).drag_start is Some
                && window_height > 0 ==> (*final(self), r->0) == old(self).move_spec(
                cursor_y,
                window_height,
            ) && r is Some,
            !(old(self).app_state is AdjustingKnob && (just_released || (old(
                self,
            ).drag_start is Some && window_height > 0))) ==> *final(self) == *old(self)
                && r is None,
    {
        if self.app_state != AppState::AdjustingKnob {
            return None;
        }
        if just_released {
            let g = match self.gain.proposed {
                Some(p) => p,
                None => self.gain.current,
            };
            self.app_state = AppState::Idle;
            self.drag_start = None;
            self.gain = GainValue { current: g, proposed: None };
            Some(GuiToHost::ParamUpdate(ParamUpdate::GainUpdated(g)))
        } else {
            let start = match self.drag_start {
                Some(s) => s,
                None => return None,
            };
            if window_height == 0 {
                return None;
            }
            let offset = drag_offset(start, cursor_y, window_height);
            assert(-0x1_0000_0000 * 3000000 <= 3 * (start - cursor_y) * 1000000
                <= 0x1_0000_0000 * 3000000) by (nonlinear_arith)
                requires
                    -0x1_0000_0000 <= start - cursor_y <= 0x1_0000_0000,
            ;
            assert(-0x1_0000_0000 * 3000000 <= offset <= 0x1_0000_0000 * 3000000) by {
                let n = 3 * (start - cursor_y) * 1000000;
                let d = 2 * window_height;
                assert(d >= 2);
                if n >= 0 {
                    assert(0 <= n / d <= n) by (nonlinear_arith)
                        requires
                            n >= 0,
                            d >= 2,
                    ;
                } else {
                    assert(0 <= (-n) / d <= -n) by (nonlinear_arith)
                        requires
                            -n >= 0,
                            d >= 2,
                    ;
                }
            }
            let g = clamp_gain(self.gain.current as i64 + offset);
            self.gain = GainValue { current: self.gain.current, proposed: Some(g) };
            Some(GuiToHost::ParamUpdate(ParamUpdate::GainUpdated(g)))
        }
    }

    /// One frame of pointer input: the idle step or the dragging step, by state.
    pub fn frame(&mut self, just_pressed: bool, just_released: bool, cursor_y: i32, window_height: u32) -> (r:
        Option<GuiToHost>)
        requires
            old(self).wf(),
        ensures
            final(self).wf(),
            old(self).app_state is Idle ==> r is None && (just_pressed ==> *final(self) == old(
                self,
            ).press_spec(cursor_y)) && (!just_pressed ==> *final(self) == *old(self)),
            old(self).app_state is AdjustingKnob && just_released ==> (*final(self), r->0)
                == old(self).release_spec() && r is Some,
            old(self).app_state is AdjustingKnob && !just_released && old(self).drag_start is Some
                && window_height > 0 ==> (*final(self), r->0) == old(self).move_spec(
                cursor_y,
                window_height,
            ) && r is Some,
            old(self).app_state is AdjustingKnob && !just_released && (old(self).drag_start is None
                || window_height == 0) ==> *final(self) == *old(self) && r is None,
    {
        if self.app_state == AppState::Idle {
            self.idle(just_pressed, cursor_y);
            None
        } else {
            self.knob_activated(just_released, cursor_y, window_height)
        }
    }

    /// The sprite frame that the knob shows.
    pub fn knob_render(&self, frame_count: u32) -> (r: u32)
        requires
            self.wf(),
            frame_count > 0,
        ensures
            r as int == frame_index_spec(frame_count as int, self.gain.displayed() as int),
            r < frame_count,
    {
        let g = match self.gain.proposed {
            Some(p) => p,
            None => self.gain.current,
        };
        frame_index(frame_count, g)
    }
}

/// The state after the dragging steps at the pointer positions `ys`, in order.
pub open spec fn drag_moves(s: KnobState, ys: Seq<i32>, window_height: u32) -> KnobState
    decreases ys.len(),
{
    if ys.len() == 0 {
        s
    } else {
        drag_moves(s.move_spec(ys[0], window_height).0, ys.drop_first(), window_height)
    }
}

/// During a drag each step recomputes the proposal from the committed gain and the
/// drag's start, so after any nonempty run of steps the proposal is that of the last.
pub proof fn lemma_drag_moves(s: KnobState, ys: Seq<i32>, window_height: u32)
    requires
        s.wf(),
        s.drag_start is Some,
        ys.len() > 0,
    ensures
        drag_moves(s, ys, window_height).wf(),
        drag_moves(s, ys, window_height).app_state == s.app_state,
        drag_moves(s, ys, window_height).drag_start == s.drag_start,
        drag_moves(s, ys, window_height).gain.current == s.gain.current,
        drag_moves(s, ys, window_height).gain.proposed == Some(
            clamp_spec(
                s.gain.current as int + drag_offset_spec(
                    s.drag_start->0 as int,
                    ys.last() as int,
                    window_height as int,
                ),
            ) as u32,
        ),
    decreases ys.len(),
{
    let s1 = s.move_spec(ys[0], window_height).0;
    assert(drag_moves(s, ys, window_height) == drag_moves(s1, ys.drop_first(), window_height));
    assert(s1.wf());
    if ys.len() > 1 {
        lemma_drag_moves(s1, ys.drop_first(), window_height);
        assert(ys.drop_first().last() == ys.last());
    } else {
        assert(ys.drop_first().len() == 0);
        assert(drag_moves(s1, ys.drop_first(), window_height) == s1);
    }
}

/// A drag with pointer positions `ys` and then a release commits, and reports, the
/// committed gain moved by the offset from the drag's start to the last position,
/// limited to the valid range.
pub proof fn lemma_drag_then_release(s: KnobState, ys: Seq<i32>, window_height: u32)
    requires
        s.wf(),
        s.drag_start is Some,
        ys.len() > 0,
    ensures
        ({
            let g = clamp_spec(
                s.gain.current as int + drag_offset_spec(
                    s.drag_start->0 as int,
                    ys.last() as int,
                    window_height as int,
                ),
            );
            let (after, msg) = drag_moves(s, ys, window_height).release_spec();
            &&& after.gain.current == g
            &&& after.gain.proposed is None
            &&& after.app_state is Idle
            &&& msg.gain_spec() == g
        }),
{
    lemma_drag_moves(s, ys, window_height);
}

/// A newly opened GUI that takes the committed gain `g` as its one host update shows
/// exactly `g`, on the frame that `g` maps to.
pub proof fn lemma_preload_round_trip(msg: HostToGui)
    requires
        msg.gain_spec() <= GAIN_UNIT,
    ensures
        KnobState::initial().host_updates_spec(seq![msg]).gain.displayed() == msg.gain_spec(),
        KnobState::initial().host_updates_spec(seq![msg]).wf(),
        frame_index_spec(
            KNOB_FRAMES as int,
            KnobState::initial().host_updates_spec(seq![msg]).gain.displayed() as int,
        ) == frame_index_spec(KNOB_FRAMES as int, msg.gain_spec() as int),
{
    assert(seq![msg].last() == msg);
}

} // verus!
