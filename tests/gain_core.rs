use baseview_gain::channel::{drain, SendOutcome};
use baseview_gain::gain::{clamp_gain, drag_offset, frame_index, GAIN_UNIT, KNOB_FRAMES};
use baseview_gain::gui::{AppState, GainValue, GuiToHost, HostToGui, KnobState, ParamUpdate};
use baseview_gain::host::{
    apply_gui_msgs, coalesce, count_dropped, get_parameter, get_parameter_label,
    get_parameter_name, gui_to_host_relay, host_update_message, preload_message,
    process_gui_msgs, send_all, set_parameter, ChannelSlots, EditorLifecycle, ParamStore,
    GAIN_PARAM,
};

fn gui_msg(g: u32) -> GuiToHost {
    GuiToHost::ParamUpdate(ParamUpdate::GainUpdated(g))
}

fn host_msg(g: u32) -> HostToGui {
    HostToGui::ParamUpdate(ParamUpdate::GainUpdated(g))
}

#[test]
fn clamp_keeps_bounds_and_limits_outside() {
    assert_eq!(clamp_gain(0), 0);
    assert_eq!(clamp_gain(GAIN_UNIT as i64), GAIN_UNIT);
    assert_eq!(clamp_gain(1_300_000), GAIN_UNIT);
    assert_eq!(clamp_gain(-5), 0);
    assert_eq!(clamp_gain(420_000), 420_000);
}

#[test]
fn drag_offset_exact_values() {
    // 100 px up in a 300 px window: 100 / (300 / 1.5) = 0.5
    assert_eq!(drag_offset(200, 100, 300), 500_000);
    assert_eq!(drag_offset(100, 200, 300), -500_000);
    assert_eq!(drag_offset(50, 50, 300), 0);
    // 1 px in a 7 px window: 3_000_000 / 14 rounds toward zero
    assert_eq!(drag_offset(1, 0, 7), 214_285);
    assert_eq!(drag_offset(0, 1, 7), -214_285);
}

#[test]
fn frame_index_exact_values() {
    assert_eq!(frame_index(KNOB_FRAMES, 0), 0);
    assert_eq!(frame_index(KNOB_FRAMES, 500_000), 50);
    assert_eq!(frame_index(KNOB_FRAMES, 999_999), 99);
    assert_eq!(frame_index(KNOB_FRAMES, GAIN_UNIT), 99);
    assert_eq!(frame_index(1, GAIN_UNIT), 0);
}

#[test]
fn host_update_overwrites_and_clears_proposal() {
    let mut k = KnobState::new();
    k.idle(true, 200);
    assert!(k.knob_activated(false, 100, 300).is_some());
    assert_eq!(k.gain.proposed, Some(500_000));
    k.update_from_host(&vec![host_msg(100_000), host_msg(300_000)]);
    assert_eq!(k.gain, GainValue { current: 300_000, proposed: None });
    assert_eq!(k.app_state, AppState::AdjustingKnob);
    k.update_from_host(&vec![]);
    assert_eq!(k.gain.current, 300_000);
}

#[test]
fn drag_then_release_commits_last_tick() {
    let mut k = KnobState::new();
    k.update_from_host(&vec![host_msg(200_000)]);
    assert_eq!(k.frame(true, false, 200, 300), None);
    assert_eq!(k.app_state, AppState::AdjustingKnob);
    // each tick is measured from the committed gain and the drag's start
    assert_eq!(k.frame(false, false, 150, 300), Some(gui_msg(450_000)));
    assert_eq!(k.frame(false, false, 180, 300), Some(gui_msg(300_000)));
    assert_eq!(k.knob_render(KNOB_FRAMES), 30);
    assert_eq!(k.gain.current, 200_000);
    assert_eq!(k.frame(false, true, 180, 300), Some(gui_msg(300_000)));
    assert_eq!(k.app_state, AppState::Idle);
    assert_eq!(k.drag_start, None);
    assert_eq!(k.gain, GainValue { current: 300_000, proposed: None });
}

#[test]
fn release_without_move_reports_current() {
    let mut k = KnobState::new();
    k.update_from_host(&vec![host_msg(700_000)]);
    k.idle(true, 10);
    assert_eq!(k.knob_activated(true, 10, 300), Some(gui_msg(700_000)));
    assert_eq!(k.gain, GainValue { current: 700_000, proposed: None });
}

#[test]
fn drag_beyond_range_is_clamped() {
    let mut k = KnobState::new();
    k.update_from_host(&vec![host_msg(800_000)]);
    k.idle(true, 200);
    assert_eq!(k.knob_activated(false, 100, 300), Some(gui_msg(GAIN_UNIT)));
    assert_eq!(k.knob_render(KNOB_FRAMES), 99);
    assert_eq!(k.knob_activated(false, 400, 300), Some(gui_msg(0)));
    assert_eq!(k.knob_activated(true, 400, 300), Some(gui_msg(0)));
    assert_eq!(k.gain.current, 0);
}

#[test]
fn idle_ignores_moves_and_drag_needs_height() {
    let mut k = KnobState::new();
    assert_eq!(k.knob_activated(false, 5, 300), None);
    k.idle(false, 5);
    assert_eq!(k, KnobState::new());
    k.idle(true, 5);
    let before = k;
    assert_eq!(k.knob_activated(false, 0, 0), None);
    assert_eq!(k, before);
}

#[test]
fn coalescing_keeps_last_of_three() {
    let store = ParamStore::new(0);
    let msgs = vec![gui_msg(200_000), gui_msg(500_000), gui_msg(900_000)];
    assert_eq!(coalesce(&msgs), Some(900_000));
    assert_eq!(apply_gui_msgs(&store, &msgs), Some(900_000));
    assert_eq!(get_parameter(&store, GAIN_PARAM), 900_000);
    assert_eq!(apply_gui_msgs(&store, &vec![]), None);
    assert_eq!(get_parameter(&store, GAIN_PARAM), 900_000);
}

#[test]
fn set_parameter_without_gui() {
    let store = ParamStore::new(GAIN_UNIT as i64);
    let slots = ChannelSlots::empty();
    let r = set_parameter(&store, &slots, GAIN_PARAM, 250_000);
    assert_eq!(r.stored, Some(250_000));
    assert_eq!(r.forwarded, None);
    assert_eq!(get_parameter(&store, GAIN_PARAM), 250_000);
    let r = set_parameter(&store, &slots, GAIN_PARAM, 1_300_000);
    assert_eq!(r.stored, Some(GAIN_UNIT));
    assert_eq!(get_parameter(&store, GAIN_PARAM), GAIN_UNIT);
    let r = set_parameter(&store, &slots, 3, 10);
    assert_eq!((r.stored, r.forwarded), (None, None));
    assert_eq!(get_parameter(&store, 3), 0);
    assert_eq!(process_gui_msgs(&store, &slots), None);
}

#[test]
fn open_preloads_gain_and_second_open_fails() {
    let store = ParamStore::new(0);
    store.write(420_000);
    let mut slots = ChannelSlots::empty();
    let mut editor = EditorLifecycle::new();
    assert!(!editor.is_open());
    let ends = editor.open(&store, &mut slots).expect("first open");
    assert!(editor.is_open());
    assert!(slots.is_attached());
    assert!(editor.open(&store, &mut slots).is_none());
    assert!(editor.is_open());
    let first = drain(&ends.host_to_gui_rx);
    assert_eq!(first, vec![preload_message(420_000)]);
    let mut k = KnobState::new();
    k.update_from_host(&first);
    assert_eq!(k.gain.current, 420_000);
    assert_eq!(k.knob_render(KNOB_FRAMES), 42);
}

#[test]
fn host_and_gui_exchange_through_channels() {
    let store = ParamStore::new(0);
    let mut slots = ChannelSlots::empty();
    let mut editor = EditorLifecycle::new();
    let ends = editor.open(&store, &mut slots).expect("open");
    let _ = drain(&ends.host_to_gui_rx);
    let r = set_parameter(&store, &slots, GAIN_PARAM, 650_000);
    assert_eq!(r.forwarded, Some(SendOutcome::Sent));
    assert_eq!(drain(&ends.host_to_gui_rx), vec![host_msg(650_000)]);
    let dropped = gui_to_host_relay(&ends.gui_to_host_tx, &vec![gui_msg(100_000), gui_msg(300_000)]);
    assert_eq!(dropped, 0);
    assert_eq!(process_gui_msgs(&store, &slots), Some(300_000));
    assert_eq!(get_parameter(&store, GAIN_PARAM), 300_000);
    assert_eq!(process_gui_msgs(&store, &slots), None);
}

#[test]
fn full_queue_drops_without_blocking() {
    let store = ParamStore::new(0);
    let mut slots = ChannelSlots::empty();
    let mut editor = EditorLifecycle::new();
    let ends = editor.open(&store, &mut slots).expect("open");
    // the preload already holds one place
    let mut sent = 0;
    let mut full = 0;
    for i in 0..200 {
        match set_parameter(&store, &slots, GAIN_PARAM, i).forwarded {
            Some(SendOutcome::Sent) => sent += 1,
            Some(SendOutcome::Full) => full += 1,
            other => panic!("unexpected {:?}", other),
        }
    }
    assert_eq!(sent, 127);
    assert_eq!(full, 73);
    assert_eq!(drain(&ends.host_to_gui_rx).len(), 128);
    let msgs: Vec<GuiToHost> = (0..130).map(|i| gui_msg(i)).collect();
    assert_eq!(gui_to_host_relay(&ends.gui_to_host_tx, &msgs), 2);
}

#[test]
fn close_mid_drag_keeps_committed_gain() {
    let store = ParamStore::new(0);
    store.write(400_000);
    let mut slots = ChannelSlots::empty();
    let mut editor = EditorLifecycle::new();
    let ends = editor.open(&store, &mut slots).expect("open");
    let mut k = KnobState::new();
    k.update_from_host(&drain(&ends.host_to_gui_rx));
    k.idle(true, 200);
    let proposal = k.knob_activated(false, 100, 300).expect("move");
    assert_eq!(proposal, gui_msg(900_000));
    editor.close(&mut slots);
    assert!(!editor.is_open());
    assert!(!slots.is_attached());
    assert!(slots.gui_to_host_rx.is_none());
    drop(ends);
    assert_eq!(get_parameter(&store, GAIN_PARAM), 400_000);
    assert_eq!(process_gui_msgs(&store, &slots), None);
    let r = set_parameter(&store, &slots, GAIN_PARAM, 100_000);
    assert_eq!(r.forwarded, None);
    assert_eq!(get_parameter(&store, GAIN_PARAM), 100_000);
}

#[test]
fn disconnected_gui_reports_disconnected() {
    let store = ParamStore::new(0);
    let mut slots = ChannelSlots::empty();
    let mut editor = EditorLifecycle::new();
    let ends = editor.open(&store, &mut slots).expect("open");
    drop(ends);
    let r = set_parameter(&store, &slots, GAIN_PARAM, 5);
    assert_eq!(r.forwarded, Some(SendOutcome::Disconnected));
}

#[test]
fn well_formed_state_is_recognised() {
    let mut k = KnobState::new();
    assert!(k.is_well_formed());
    k.gain.proposed = Some(GAIN_UNIT + 1);
    assert!(!k.is_well_formed());
    k.gain = GainValue::new(GAIN_UNIT + 1);
    assert!(!k.is_well_formed());
}

#[test]
fn count_dropped_counts_all_but_sent() {
    assert_eq!(count_dropped(&vec![]), 0);
    let outcomes = vec![
        SendOutcome::Sent,
        SendOutcome::Full,
        SendOutcome::Sent,
        SendOutcome::Disconnected,
        SendOutcome::Full,
    ];
    assert_eq!(count_dropped(&outcomes), 3);
}

#[test]
fn send_all_reports_each_outcome() {
    let store = ParamStore::new(0);
    let mut slots = ChannelSlots::empty();
    let mut editor = EditorLifecycle::new();
    let ends = editor.open(&store, &mut slots).expect("open");
    let msgs: Vec<GuiToHost> = (0..130).map(|i| gui_msg(i)).collect();
    let outcomes = send_all(&ends.gui_to_host_tx, &msgs);
    assert_eq!(outcomes.len(), 130);
    assert!(outcomes[..128].iter().all(|o| *o == SendOutcome::Sent));
    assert_eq!(&outcomes[128..], &[SendOutcome::Full, SendOutcome::Full]);
}

#[test]
fn forwarded_update_carries_stored_gain() {
    let store = ParamStore::new(0);
    let mut slots = ChannelSlots::empty();
    let mut editor = EditorLifecycle::new();
    let ends = editor.open(&store, &mut slots).expect("open");
    let _ = drain(&ends.host_to_gui_rx);
    let r = set_parameter(&store, &slots, GAIN_PARAM, 1_300_000);
    assert_eq!(r.stored, Some(GAIN_UNIT));
    assert_eq!(r.update, Some(host_msg(GAIN_UNIT)));
    assert_eq!(drain(&ends.host_to_gui_rx), vec![host_msg(GAIN_UNIT)]);
    assert_eq!(host_update_message(7), host_msg(7));
}

#[test]
fn reopen_after_close_gets_fresh_queue_with_preload() {
    let mut slots = ChannelSlots::empty();
    let mut editor = EditorLifecycle::new();
    let old_ends = editor.open_with_gain(100_000, &mut slots).expect("open");
    assert_eq!(old_ends.preload, host_msg(100_000));
    assert_eq!(old_ends.preload_outcome, SendOutcome::Sent);
    editor.close(&mut slots);
    let ends = editor.open_with_gain(600_000, &mut slots).expect("reopen");
    assert!(editor.is_open());
    assert_eq!(ends.preload, host_msg(600_000));
    assert_eq!(drain(&ends.host_to_gui_rx), vec![host_msg(600_000)]);
    assert!(editor.open_with_gain(0, &mut slots).is_none());
}

#[test]
fn parameter_name_and_label() {
    assert_eq!(get_parameter_name(GAIN_PARAM), "gain");
    assert_eq!(get_parameter_label(GAIN_PARAM), "%");
    assert_eq!(get_parameter_name(1), "");
    assert_eq!(get_parameter_label(-1), "");
}

#[test]
fn frame_during_drag_without_height_changes_nothing() {
    let mut k = KnobState::new();
    k.frame(true, false, 40, 300);
    let before = k;
    assert_eq!(k.frame(false, false, 10, 0), None);
    assert_eq!(k, before);
}
