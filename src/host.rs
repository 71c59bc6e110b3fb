use vstd::prelude::*;

use std::sync::atomic::AtomicU32;

use crate::channel::{drain, new_bounded, try_send, SendOutcome};
use crate::gain::{clamp_gain, clamp_spec, CHANNEL_CAPACITY, GAIN_UNIT};
use crate::gui::{GuiToHost, HostToGui, ParamUpdate};

verus! {

/// Index of the gain parameter, the plugin's only one.
pub const GAIN_PARAM: i32 = 0;

/// The committed gain, shared by the audio thread, the host's parameter calls and the
/// GUI's commits. Reads and writes never block.
pub struct ParamStore {
    gain: AtomicU32,
}

impl ParamStore {
    pub fn new(initial: i64) -> (r: ParamStore) {
        ParamStore { gain: AtomicU32::new(clamp_gain(initial)) }
    }

    /// The committed gain. Another thread may write at any time, so only its range is known.
    pub fn read(&self) -> (r: u32)
        ensures
            r <= GAIN_UNIT,
    {
        let v = self.gain.load(std::sync::atomic::Ordering::Relaxed);
        if v > GAIN_UNIT {
            GAIN_UNIT
        } else {
            v
        }
    }

    /// Commits `value`, limited to the valid range, and returns what was stored.
    pub fn write(&self, value: i64) -> (r: u32)
        ensures
            r as int == clamp_spec(value as int),
    {
        let g = clamp_gain(value);
        self.gain.store(g, std::sync::atomic::Ordering::Relaxed);
        g
    }
}

/// The host side's ends of the channel pair while a GUI is attached; both absent otherwise.
pub struct ChannelSlots {
    pub host_to_gui_tx: Option<crossbeam_channel::Sender<HostToGui>>,
    pub gui_to_host_rx: Option<crossbeam_channel::Receiver<GuiToHost>>,
}

/// The GUI's ends of the channel pair.
pub struct GuiEndpoints {
    pub host_to_gui_rx: crossbeam_channel::Receiver<HostToGui>,
    pub gui_to_host_tx: crossbeam_channel::Sender<GuiToHost>,
    /// The update queued first on the new host-to-GUI queue, carrying the committed gain.
    pub preload: HostToGui,
    /// What became of that update.
    pub preload_outcome: SendOutcome,
}

impl ChannelSlots {
    pub open spec fn attached(self) -> bool {
        self.host_to_gui_tx is Some && self.gui_to_host_rx is Some
    }

    pub open spec fn detached(self) -> bool {
        self.host_to_gui_tx is None && self.gui_to_host_rx is None
    }

    pub fn empty() -> (r: ChannelSlots)
        ensures
            r.detached(),
    {
        ChannelSlots { host_to_gui_tx: None, gui_to_host_rx: None }
    }

    pub fn is_attached(&self) -> (r: bool)
        ensures
            r == self.host_to_gui_tx is Some,
    {
        self.host_to_gui_tx.is_some()
    }

    /// Drops both host-side ends.
    pub fn clear(&mut self)
        ensures
            final(self).detached(),
    {
        self.host_to_gui_tx = None;
        self.gui_to_host_rx = None;
    }
}

/// What a host parameter write did.
#[derive(Clone, Copy, Debug, PartialEq, Eq, Structural)]
pub struct SetOutcome {
    /// The gain committed, when the index named the gain.
    pub stored: Option<u32>,
    /// The update handed to the GUI's queue, when a GUI was attached.
    pub update: Option<HostToGui>,
    /// What became of that update.
    pub forwarded: Option<SendOutcome>,
}

/// What `set_parameter` owes: the gain index commits the limited value and, with a GUI
/// attached, sends an update carrying that value; any other index changes nothing and
/// sends nothing.
pub open spec fn set_parameter_post(index: i32, value: i64, slots: ChannelSlots, r: SetOutcome) -> bool {
    if index == GAIN_PARAM {
        &&& r.stored == Some(clamp_spec(value as int) as u32)
        &&& (r.forwarded is Some <==> slots.host_to_gui_tx is Some)
        &&& (r.update is Some <==> slots.host_to_gui_tx is Some)
        &&& (r.update matches Some(m) ==> m == HostToGui::of_gain(clamp_spec(value as int) as u32))
    } else {
        r.stored is None && r.update is None && r.forwarded is None
    }
}

/// The name the host shows for a parameter: "gain" at the gain index, empty elsewhere.
pub fn get_parameter_name(index: i32) -> (r: String)
    ensures
        index == GAIN_PARAM ==> r@ == seq!['g', 'a', 'i', 'n'],
        index != GAIN_PARAM ==> r@.len() == 0,
{
    if index == GAIN_PARAM {
        proof {
            reveal_strlit("gain");
        }
        String::from_str("gain")
    } else {
        proof {
            reveal_strlit("");
        }
        String::from_str("")
    }
}

/// The unit the host shows for a parameter: "%" at the gain index, empty elsewhere.
pub fn get_parameter_label(index: i32) -> (r: String)
    ensures
        index == GAIN_PARAM ==> r@ == seq!['%'],
        index != GAIN_PARAM ==> r@.len() == 0,
{
    if index == GAIN_PARAM {
        proof {
            reveal_strlit("%");
        }
        String::from_str("%")
    } else {
        proof {
            reveal_strlit("");
        }
        String::from_str("")
    }
}

/// The host reads a parameter: the committed gain at the gain index, zero elsewhere.
pub fn get_parameter(store: &ParamStore, index: i32) -> (r: u32)
    ensures
        r <= GAIN_UNIT,
        index != GAIN_PARAM ==> r == 0,
{
    if index == GAIN_PARAM {
        store.read()
    } else {
        0
    }
}

/// The host writes a parameter. With a GUI attached the new gain is also sent to it,
/// without blocking; a full queue drops the update, which the outcome reports.
pub fn set_parameter(store: &ParamStore, slots: &ChannelSlots, index: i32, value: i64) -> (r:
    SetOutcome)
    ensures
        set_parameter_post(index, value, *slots, r),
{
    if index != GAIN_PARAM {
        return SetOutcome { stored: None, update: None, forwarded: None };
    }
    let g = store.write(value);
    match &slots.host_to_gui_tx {
        Some(tx) => {
            let m = host_update_message(g);
            let outcome = try_send(tx, m);
            SetOutcome { stored: Some(g), update: Some(m), forwarded: Some(outcome) }
        },
        None => SetOutcome { stored: Some(g), update: None, forwarded: None },
    }
}

/// The gain that a batch of GUI messages leaves: that of the last one, if any.
pub open spec fn last_gain(msgs: Seq<GuiToHost>) -> Option<u32> {
    if msgs.len() == 0 {
        None
    } else {
        Some(msgs.last().gain_spec())
    }
}

/// Reduces a batch of GUI messages to the one gain that matters, the last.
pub fn coalesce(msgs: &Vec<GuiToHost>) -> (r: Option<u32>)
    ensures
        r == last_gain(msgs@),
{
    let mut r: Option<u32> = None;
    let mut i: usize = 0;
    while i < msgs.len()
        invariant
            i <= msgs@.len(),
            r == last_gain(msgs@.take(i as int)),
        decreases msgs@.len() - i,
    {
        let GuiToHost::ParamUpdate(u) = msgs[i];
        r = Some(u.gain());
        assert(msgs@.take(i + 1).last() == msgs@[i as int]);
        i = i + 1;
    }
    assert(msgs@.take(msgs@.len() as int) =~= msgs@);
    r
}

/// Commits the last gain of a batch of GUI messages. The result, when present, is the
/// one value that the host's automation is told of for the whole batch.
pub fn apply_gui_msgs(store: &ParamStore, msgs: &Vec<GuiToHost>) -> (r: Option<u32>)
    ensures
        last_gain(msgs@) is None ==> r is None,
        last_gain(msgs@) matches Some(g) ==> r == Some(clamp_spec(g as int) as u32),
{
    match coalesce(msgs) {
        Some(g) => Some(store.write(g as i64)),
        None => None,
    }
}

/// Once per audio buffer: takes what the GUI sent, if a GUI is attached, and commits
/// the last gain of it. Returns that gain, for the host's automation.
pub fn process_gui_msgs(store: &ParamStore, slots: &ChannelSlots) -> (r: Option<u32>)
    ensures
        slots.gui_to_host_rx is None ==> r is None,
        r matches Some(g) ==> g <= GAIN_UNIT,
{
    match &slots.gui_to_host_rx {
        Some(rx) => {
            let msgs = drain(rx);
            apply_gui_msgs(store, &msgs)
        },
        None => None,
    }
}

/// How many send outcomes are anything but `Sent`.
pub open spec fn dropped_count(outcomes: Seq<SendOutcome>) -> nat
    decreases outcomes.len(),
{
    if outcomes.len() == 0 {
        0
    } else {
        dropped_count(outcomes.drop_last()) + if outcomes.last() == SendOutcome::Sent {
            0nat
        } else {
            1nat
        }
    }
}

/// Counts the sends that were dropped.
pub fn count_dropped(outcomes: &Vec<SendOutcome>) -> (r: usize)
    ensures
        r == dropped_count(outcomes@),
{
    let mut n: usize = 0;
    let mut i: usize = 0;
    while i < outcomes.len()
        invariant
            i <= outcomes@.len(),
            n == dropped_count(outcomes@.take(i as int)),
            n <= i,
        decreases outcomes@.len() - i,
    {
        assert(outcomes@.take(i + 1).drop_last() =~= outcomes@.take(i as int));
        if outcomes[i] != SendOutcome::Sent {
            n = n + 1;
        }
        i = i + 1;
    }
    assert(outcomes@.take(outcomes@.len() as int) =~= outcomes@);
    n
}

/// Sends each message, in order, without blocking, and returns the outcome of each.
pub fn send_all(tx: &crossbeam_channel::Sender<GuiToHost>, msgs: &Vec<GuiToHost>) -> (r: Vec<
    SendOutcome,
>)
    ensures
        r@.len() == msgs@.len(),
{
    let mut outcomes: Vec<SendOutcome> = Vec::new();
    let mut i: usize = 0;
    while i < msgs.len()
        invariant
            i <= msgs@.len(),
            outcomes@.len() == i,
        decreases msgs@.len() - i,
    {
        outcomes.push(try_send(tx, msgs[i]));
        i = i + 1;
    }
    outcomes
}

/// Hands the GUI's messages of one frame to the host side, in order, without blocking.
/// Returns how many were dropped on a full or closed queue.
pub fn gui_to_host_relay(tx: &crossbeam_channel::Sender<GuiToHost>, msgs: &Vec<GuiToHost>) -> (r:
    usize)
    ensures
        r <= msgs@.len(),
        exists|outcomes: Seq<SendOutcome>|
            outcomes.len() == msgs@.len() && r == dropped_count(outcomes),
{
    let outcomes = send_all(tx, msgs);
    let r = count_dropped(&outcomes);
    proof {
        lemma_dropped_count_bound(outcomes@);
    }
    r
}

/// There are never more drops than sends.
pub proof fn lemma_dropped_count_bound(outcomes: Seq<SendOutcome>)
    ensures
        dropped_count(outcomes) <= outcomes.len(),
    decreases outcomes.len(),
{
    if outcomes.len() > 0 {
        lemma_dropped_count_bound(outcomes.drop_last());
    }
}

/// The update that carries gain `gain` to the GUI.
pub fn host_update_message(gain: u32) -> (r: HostToGui)
    ensures
        r == HostToGui::of_gain(gain),
{
    HostToGui::ParamUpdate(ParamUpdate::GainUpdated(gain))
}

/// The message that tells a newly opened GUI the committed gain.
pub fn preload_message(gain: u32) -> (r: HostToGui)
    ensures
        r == HostToGui::of_gain(gain),
        r.gain_spec() == gain,
{
    host_update_message(gain)
}

/// Whether the editor's GUI surface is attached.
pub struct EditorLifecycle {
    pub open: bool,
}

/// What `open` owes: refused while open, changing nothing; else the editor is open,
/// both host-side ends are installed and the GUI's ends are handed out.
pub open spec fn open_post(
    e0: EditorLifecycle,
    s0: ChannelSlots,
    e1: EditorLifecycle,
    s1: ChannelSlots,
    r: Option<GuiEndpoints>,
) -> bool {
    if e0.open {
        r is None && e1 == e0 && s1 == s0
    } else {
        r is Some && e1.open && s1.attached() && r->0.preload.gain_spec() <= GAIN_UNIT
    }
}

/// What `open_with_gain` owes: `open_post`, with the committed gain `g` as the update
/// queued for the new GUI.
pub open spec fn open_with_gain_post(
    e0: EditorLifecycle,
    s0: ChannelSlots,
    g: u32,
    e1: EditorLifecycle,
    s1: ChannelSlots,
    r: Option<GuiEndpoints>,
) -> bool {
    &&& (e0.open ==> r is None && e1 == e0 && s1 == s0)
    &&& (!e0.open ==> r is Some && e1.open && s1.attached() && r->0.preload == HostToGui::of_gain(
        g,
    ))
}

/// What `close` owes: the editor is closed and both host-side ends are gone.
pub open spec fn close_post(e1: EditorLifecycle, s1: ChannelSlots) -> bool {
    !e1.open && s1.detached()
}

impl EditorLifecycle {
    pub fn new() -> (r: EditorLifecycle)
        ensures
            !r.open,
    {
        EditorLifecycle { open: false }
    }

    /// Opens the editor with committed gain `committed`: makes a fresh channel pair,
    /// installs the host's ends, and queues an update carrying `committed` on the new
    /// host-to-GUI queue before handing it out. Refused while already open.
    pub fn open_with_gain(&mut self, committed: u32, slots: &mut ChannelSlots) -> (r: Option<
        GuiEndpoints,
    >)
        ensures
            open_with_gain_post(*old(self), *old(slots), committed, *final(self), *final(slots), r),
    {
        if self.open {
            return None;
        }
        let (host_to_gui_tx, host_to_gui_rx) = new_bounded(CHANNEL_CAPACITY);
        let (gui_to_host_tx, gui_to_host_rx) = new_bounded(CHANNEL_CAPACITY);
        let preload = preload_message(committed);
        let preload_outcome = try_send(&host_to_gui_tx, preload);
        slots.host_to_gui_tx = Some(host_to_gui_tx);
        slots.gui_to_host_rx = Some(gui_to_host_rx);
        self.open = true;
        Some(GuiEndpoints { host_to_gui_rx, gui_to_host_tx, preload, preload_outcome })
    }

    /// Opens the editor with the gain committed in `store` as the GUI's first update.
    pub fn open(&mut self, store: &ParamStore, slots: &mut ChannelSlots) -> (r: Option<GuiEndpoints>)
        ensures
            open_post(*old(self), *old(slots), *final(self), *final(slots), r),
    {
        if self.open {
            return None;
        }
        self.open_with_gain(store.read(), slots)
    }

    /// Closes the editor and drops both host-side ends, so that no later parameter
    /// call reaches a GUI that is gone.
    pub fn close(&mut self, slots: &mut ChannelSlots)
        ensures
            close_post(*final(self), *final(slots)),
    {
        self.open = false;
        slots.clear();
    }

    pub fn is_open(&self) -> (r: bool)
        ensures
            r == self.open,
    {
        self.open
    }
}

/// A host write with no GUI attached commits the limited value and sends nothing.
pub proof fn lemma_set_without_gui(value: i64, slots: ChannelSlots, r: SetOutcome)
    requires
        slots.detached(),
        set_parameter_post(GAIN_PARAM, value, slots, r),
    ensures
        r.stored == Some(clamp_spec(value as int) as u32),
        r.forwarded is None,
        r.update is None,
{
}

/// Opening twice in a row: the second open is refused, and the editor stays open with
/// the ends that the first open installed.
pub proof fn lemma_open_twice(
    e0: EditorLifecycle,
    s0: ChannelSlots,
    e1: EditorLifecycle,
    s1: ChannelSlots,
    r1: Option<GuiEndpoints>,
    e2: EditorLifecycle,
    s2: ChannelSlots,
    r2: Option<GuiEndpoints>,
)
    requires
        e0.open ==> s0.attached(),
        open_post(e0, s0, e1, s1, r1),
        open_post(e1, s1, e2, s2, r2),
    ensures
        r2 is None,
        e2.open,
        s2 == s1,
        s2.attached(),
        !e0.open ==> r1 is Some,
{
}

/// After a close, in the middle of a drag or not, host writes reach no GUI: they commit
/// the limited value and send nothing. No receiving end is left, so the per-buffer
/// drain (`process_gui_msgs`) commits nothing the GUI still proposed.
pub proof fn lemma_set_after_close(e1: EditorLifecycle, s1: ChannelSlots, value: i64, r: SetOutcome)
    requires
        close_post(e1, s1),
        set_parameter_post(GAIN_PARAM, value, s1, r),
    ensures
        !e1.open,
        r.stored == Some(clamp_spec(value as int) as u32),
        r.forwarded is None,
        r.update is None,
        s1.gui_to_host_rx is None,
{
}

/// Only the last of a batch of GUI messages counts: whatever came before, a batch that
/// ends with gain `g` leaves `g`.
pub proof fn lemma_coalesce_last(msgs: Seq<GuiToHost>, g: u32)
    ensures
        last_gain(msgs.push(GuiToHost::of_gain(g))) == Some(g),
{
    assert(msgs.push(GuiToHost::of_gain(g)).last() == GuiToHost::of_gain(g));
}

} // verus!
