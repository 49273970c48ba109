//! What the mixer UI shows, and how it reconciles its optimistic updates
//! with the backend's notifications.

use std::collections::HashMap;
use vstd::prelude::*;
use crate::audio::{cap_percent, clamp_percent, clamped, AudioCmd, AudioEvent, OutputInfo};
use crate::text::{decimal, decimal_text, owned};

verus! {

broadcast use vstd::std_specs::hash::group_hash_axioms;

/// Whether a volume the user set is still waiting for the backend to
/// confirm it.
#[derive(Clone, Copy, Debug, PartialEq, Eq, Structural)]
pub enum Pending {
    Idle,
    PendingConfirmation(u32),
}

/// The shown state of one volume control.
#[derive(Clone, Copy, Debug, PartialEq, Eq, Structural)]
pub struct VolumeSlot {
    pub volume: u32,
    pub muted: bool,
    pub pending: Pending,
}

/// The control after the user set it to `requested`: the clamped value is
/// shown at once and awaits confirmation.
pub open spec fn after_local_set(s: VolumeSlot, requested: int) -> VolumeSlot {
    VolumeSlot {
        volume: clamped(requested),
        muted: s.muted,
        pending: Pending::PendingConfirmation(clamped(requested)),
    }
}

/// Whether a change notification reporting `volume` moves the slider: all
/// but the confirmation of the value the user set do.
pub open spec fn moves_slider(s: VolumeSlot, volume: u32) -> bool {
    s.pending != Pending::PendingConfirmation(volume)
}

/// The control after a change notification: a confirmation takes only the
/// mute state; any other report is shown whole. Either clears the pending
/// value.
pub open spec fn after_changed(s: VolumeSlot, volume: u32, muted: bool) -> VolumeSlot {
    if moves_slider(s, volume) {
        VolumeSlot { volume: clamped(volume as int), muted, pending: Pending::Idle }
    } else {
        VolumeSlot { volume: s.volume, muted, pending: Pending::Idle }
    }
}

/// The control after a requested report: shown whole.
pub open spec fn after_received(volume: u32, muted: bool) -> VolumeSlot {
    VolumeSlot { volume: clamped(volume as int), muted, pending: Pending::Idle }
}

/// After the user sets a control, a change notification that reports
/// exactly the value sent takes only the reported mute state and leaves
/// the slider where it is, while one that reports any other value is shown
/// whole; both end the wait for confirmation.
pub proof fn lemma_optimistic_reconciliation(s: VolumeSlot, requested: int, reported: u32, muted: bool)
    ensures
        ({
            let t = after_local_set(s, requested);
            &&& reported == clamped(requested) ==> {
                &&& !moves_slider(t, reported)
                &&& after_changed(t, reported, muted) == (VolumeSlot {
                    volume: clamped(requested),
                    muted,
                    pending: Pending::Idle,
                })
            }
            &&& reported != clamped(requested) ==> {
                &&& moves_slider(t, reported)
                &&& after_changed(t, reported, muted) == (VolumeSlot {
                    volume: clamped(reported as int),
                    muted,
                    pending: Pending::Idle,
                })
            }
        }),
{
}

/// The text that shows a volume: its clamped percentage and `%`.
pub fn percent_label(volume: u32) -> (r: String)
    ensures
        r@ == decimal(clamped(volume as int) as nat) + "%"@,
{
    let mut s = decimal_text(cap_percent(volume) as u128);
    s.append("%");
    s
}

impl VolumeSlot {
    pub fn new() -> (r: Self)
        ensures
            r == (VolumeSlot { volume: 0, muted: false, pending: Pending::Idle }),
    {
        VolumeSlot { volume: 0, muted: false, pending: Pending::Idle }
    }

    /// The user moved the control to `requested`; returns the value to show
    /// and send, held to `0..=100`.
    pub fn set_locally(&mut self, requested: i64) -> (r: u32)
        ensures
            r == clamped(requested as int),
            r <= 100,
            *final(self) == after_local_set(*old(self), requested as int),
    {
        let v = clamp_percent(requested);
        self.volume = v;
        self.pending = Pending::PendingConfirmation(v);
        v
    }

    /// A change notification from the backend; returns whether the slider
    /// moves.
    pub fn on_changed(&mut self, volume: u32, muted: bool) -> (moved: bool)
        ensures
            moved == moves_slider(*old(self), volume),
            *final(self) == after_changed(*old(self), volume, muted),
    {
        let confirmed = match self.pending {
            Pending::PendingConfirmation(p) => p == volume,
            Pending::Idle => false,
        };
        if !confirmed {
            self.volume = cap_percent(volume);
        }
        self.muted = muted;
        self.pending = Pending::Idle;
        !confirmed
    }

    /// A report the UI asked for.
    pub fn on_received(&mut self, volume: u32, muted: bool)
        ensures
            *final(self) == after_received(volume, muted),
    {
        self.volume = cap_percent(volume);
        self.muted = muted;
        self.pending = Pending::Idle;
    }

    /// The text beside the slider.
    pub fn volume_label(&self) -> (r: String)
        ensures
            r@ == decimal(clamped(self.volume as int) as nat) + "%"@,
    {
        percent_label(self.volume)
    }

    /// The label of the mute button: what pressing it does.
    pub fn mute_label(&self) -> (r: &'static str)
        ensures
            r@ == (if self.muted {
                "Unmute"@
            } else {
                "Mute"@
            }),
    {
        if self.muted {
            "Unmute"
        } else {
            "Mute"
        }
    }

    /// The text of the bar's audio indicator.
    pub fn indicator_text(&self) -> (r: String)
        ensures
            r@ == (if self.muted {
                "MUTE"@
            } else {
                "VOL "@ + decimal(clamped(self.volume as int) as nat) + "%"@
            }),
    {
        if self.muted {
            owned("MUTE")
        } else {
            let mut s = owned("VOL ");
            let p = percent_label(self.volume);
            s.append(p.as_str());
            assert(s@ =~= "VOL "@ + decimal(clamped(self.volume as int) as nat) + "%"@);
            s
        }
    }
}

/// The shown state of one application's volume control.
pub struct AppSlot {
    pub index: u32,
    pub name: String,
    pub volume: u32,
    pub muted: bool,
}

/// The mixer popup: the sink the global control acts on, the global
/// control, one control per application, and the volume last set by the
/// user for each application that awaits confirmation.
pub struct Mixer {
    pub sink_index: Option<u32>,
    pub global: VolumeSlot,
    pub apps: Vec<AppSlot>,
    pub expected_apps: HashMap<u32, u32>,
}

/// What a notification changed on screen.
#[derive(Clone, Copy, Debug, PartialEq, Eq, Structural)]
pub enum MixerUpdate {
    Global { moved: bool },
    App { index: u32, moved: bool },
    AppsList,
}

/// The application controls after a report about application `index`:
/// its control takes `muted`, and `volume` held to 100 unless `keep_volume`.
pub open spec fn apps_reported(apps: Seq<AppSlot>, index: u32, keep_volume: bool, volume: u32, muted: bool) -> Seq<
    AppSlot,
> {
    apps.map_values(
        |a: AppSlot|
            if a.index == index {
                AppSlot {
                    index: a.index,
                    name: a.name,
                    volume: if keep_volume {
                        a.volume
                    } else {
                        clamped(volume as int)
                    },
                    muted,
                }
            } else {
                a
            },
    )
}

/// The application controls that a listed sink input gets.
pub open spec fn slot_of(o: OutputInfo) -> AppSlot {
    AppSlot {
        index: o.index,
        name: o.app_name,
        volume: clamped(o.volume_level as int),
        muted: o.mute,
    }
}

/// Whether a change notification for application `index` reporting
/// `volume` confirms the value the user set.
pub open spec fn confirms(expected: Map<u32, u32>, index: u32, volume: u32) -> bool {
    expected.contains_key(index) && expected[index] == volume
}

fn report_app(apps: Vec<AppSlot>, index: u32, keep_volume: bool, volume: u32, muted: bool) -> (r: Vec<
    AppSlot,
>)
    ensures
        r@ == apps_reported(apps@, index, keep_volume, volume, muted),
{
    let ghost orig = apps@;
    let n = apps.len();
    let mut rest = apps;
    let mut out: Vec<AppSlot> = Vec::new();
    let mut k: usize = 0;
    while rest.len() > 0
        invariant
            n == orig.len(),
            k + rest@.len() == n,
            rest@ == orig.subrange(k as int, n as int),
            out@ == apps_reported(orig.subrange(0, k as int), index, keep_volume, volume, muted),
        decreases rest@.len(),
    {
        let a = rest.remove(0);
        assert(a == orig[k as int]);
        let b = if a.index == index {
            let v = if keep_volume {
                a.volume
            } else {
                cap_percent(volume)
            };
            AppSlot { index: a.index, name: a.name, volume: v, muted }
        } else {
            a
        };
        out.push(b);
        assert(out@ =~= apps_reported(orig.subrange(0, k + 1), index, keep_volume, volume, muted));
        assert(rest@ =~= orig.subrange(k + 1, n as int));
        k = k + 1;
    }
    assert(orig.subrange(0, n as int) =~= orig);
    out
}

fn slots_of(apps: Vec<OutputInfo>) -> (r: Vec<AppSlot>)
    ensures
        r@ == apps@.map_values(|o: OutputInfo| slot_of(o)),
{
    let ghost orig = apps@;
    let n = apps.len();
    let mut rest = apps;
    let mut out: Vec<AppSlot> = Vec::new();
    let mut k: usize = 0;
    while rest.len() > 0
        invariant
            n == orig.len(),
            k + rest@.len() == n,
            rest@ == orig.subrange(k as int, n as int),
            out@ == orig.subrange(0, k as int).map_values(|o: OutputInfo| slot_of(o)),
        decreases rest@.len(),
    {
        let o = rest.remove(0);
        assert(o == orig[k as int]);
        out.push(
            AppSlot {
                index: o.index,
                name: o.app_name,
                volume: cap_percent(o.volume_level),
                muted: o.mute,
            },
        );
        assert(out@ =~= orig.subrange(0, k + 1).map_values(|o: OutputInfo| slot_of(o)));
        assert(rest@ =~= orig.subrange(k + 1, n as int));
        k = k + 1;
    }
    assert(orig.subrange(0, n as int) =~= orig);
    out
}

impl Mixer {
    pub fn new() -> (r: Self)
        ensures
            r.sink_index is None,
            r.global == VolumeSlot::initial(),
            r.apps@.len() == 0,
            r.expected_apps@ == Map::<u32, u32>::empty(),
    {
        Mixer {
            sink_index: None,
            global: VolumeSlot::new(),
            apps: Vec::new(),
            expected_apps: HashMap::new(),
        }
    }

    /// Applies a backend notification to what is shown.
    pub fn handle_event(&mut self, event: AudioEvent) -> (r: MixerUpdate)
        ensures
            match event {
                AudioEvent::GlobalVolumeChanged { sink_index, volume, muted } => {
                    &&& final(self).sink_index == Some(sink_index)
                    &&& final(self).global == after_changed(old(self).global, volume, muted)
                    &&& final(self).apps == old(self).apps
                    &&& final(self).expected_apps == old(self).expected_apps
                    &&& r == MixerUpdate::Global { moved: moves_slider(old(self).global, volume) }
                },
                AudioEvent::GlobalVolumeReceived { sink_index, volume, muted } => {
                    &&& final(self).sink_index == Some(sink_index)
                    &&& final(self).global == after_received(volume, muted)
                    &&& final(self).apps == old(self).apps
                    &&& final(self).expected_apps == old(self).expected_apps
                    &&& r == MixerUpdate::Global { moved: true }
                },
                AudioEvent::AppsListUpdated { apps } => {
                    &&& final(self).sink_index == old(self).sink_index
                    &&& final(self).global == old(self).global
                    &&& final(self).apps@ == apps@.map_values(|o: OutputInfo| slot_of(o))
                    &&& final(self).expected_apps == old(self).expected_apps
                    &&& r == MixerUpdate::AppsList
                },
                AudioEvent::AppVolumeChanged { sink_input_index, volume, muted, .. } => {
                    let confirmed = confirms(old(self).expected_apps@, sink_input_index, volume);
                    &&& final(self).sink_index == old(self).sink_index
                    &&& final(self).global == old(self).global
                    &&& final(self).apps@ == apps_reported(
                        old(self).apps@,
                        sink_input_index,
                        confirmed,
                        volume,
                        muted,
                    )
                    &&& final(self).expected_apps@ == old(self).expected_apps@.remove(sink_input_index)
                    &&& r == MixerUpdate::App { index: sink_input_index, moved: !confirmed }
                },
                AudioEvent::AppVolumeReceived { sink_input_index, volume, muted, .. } => {
                    &&& final(self).sink_index == old(self).sink_index
                    &&& final(self).global == old(self).global
                    &&& final(self).apps@ == apps_reported(
                        old(self).apps@,
                        sink_input_index,
                        false,
                        volume,
                        muted,
                    )
                    &&& final(self).expected_apps@ == old(self).expected_apps@.remove(sink_input_index)
                    &&& r == MixerUpdate::App { index: sink_input_index, moved: true }
                },
            },
    {
        match event {
            AudioEvent::GlobalVolumeChanged { sink_index, volume, muted } => {
                self.sink_index = Some(sink_index);
                let moved = self.global.on_changed(volume, muted);
                MixerUpdate::Global { moved }
            },
            AudioEvent::GlobalVolumeReceived { sink_index, volume, muted } => {
                self.sink_index = Some(sink_index);
                self.global.on_received(volume, muted);
                MixerUpdate::Global { moved: true }
            },
            AudioEvent::AppsListUpdated { apps } => {
                self.apps = slots_of(apps);
                MixerUpdate::AppsList
            },
            AudioEvent::AppVolumeChanged { sink_input_index, volume, muted, .. } => {
                let confirmed = match self.expected_apps.get(&sink_input_index) {
                    Some(v) => *v == volume,
                    None => false,
                };
                let mut apps: Vec<AppSlot> = Vec::new();
                std::mem::swap(&mut apps, &mut self.apps);
                self.apps = report_app(apps, sink_input_index, confirmed, volume, muted);
                self.expected_apps.remove(&sink_input_index);
                MixerUpdate::App { index: sink_input_index, moved: !confirmed }
            },
            AudioEvent::AppVolumeReceived { sink_input_index, volume, muted, .. } => {
                let mut apps: Vec<AppSlot> = Vec::new();
                std::mem::swap(&mut apps, &mut self.apps);
                self.apps = report_app(apps, sink_input_index, false, volume, muted);
                self.expected_apps.remove(&sink_input_index);
                MixerUpdate::App { index: sink_input_index, moved: true }
            },
        }
    }

    /// The user moved the global control: the clamped volume is shown and
    /// awaits confirmation, and the command to send is returned; nothing
    /// happens before a sink is known.
    pub fn set_global_volume(&mut self, requested: i64) -> (r: Option<AudioCmd>)
        ensures
            old(self).sink_index is None ==> r is None && *final(self) == *old(self),
            old(self).sink_index matches Some(si) ==> {
                &&& r matches Some(AudioCmd::SetGlobalVolume { sink_index, volume }) && sink_index
                    == si && volume == clamped(requested as int)
                &&& final(self).global == after_local_set(old(self).global, requested as int)
                &&& final(self).sink_index == old(self).sink_index
                &&& final(self).apps == old(self).apps
                &&& final(self).expected_apps == old(self).expected_apps
            },
    {
        match self.sink_index {
            Some(si) => {
                let v = self.global.set_locally(requested);
                Some(AudioCmd::SetGlobalVolume { sink_index: si, volume: v })
            },
            None => None,
        }
    }

    /// The user pressed the global mute button.
    pub fn toggle_global_mute(&self) -> (r: Option<AudioCmd>)
        ensures
            self.sink_index is None ==> r is None,
            self.sink_index matches Some(si) ==> r matches Some(AudioCmd::ToggleGlobalMute { sink_index })
                && sink_index == si,
    {
        match self.sink_index {
            Some(si) => Some(AudioCmd::ToggleGlobalMute { sink_index: si }),
            None => None,
        }
    }

    /// The user moved the control of application `index`: the clamped
    /// volume awaits confirmation, and the command to send is returned.
    pub fn set_app_volume(&mut self, index: u32, requested: i64) -> (r: AudioCmd)
        ensures
            r matches AudioCmd::SetAppVolume { sink_input_index, volume } && sink_input_index == index
                && volume == clamped(requested as int),
            final(self).expected_apps@ == old(self).expected_apps@.insert(index, clamped(requested as int)),
            final(self).sink_index == old(self).sink_index,
            final(self).global == old(self).global,
            final(self).apps == old(self).apps,
    {
        let v = clamp_percent(requested);
        self.expected_apps.insert(index, v);
        AudioCmd::SetAppVolume { sink_input_index: index, volume: v }
    }

    /// The user pressed the mute button of application `index`.
    pub fn toggle_app_mute(&self, index: u32) -> (r: AudioCmd)
        ensures
            r matches AudioCmd::ToggleAppMute { sink_input_index } && sink_input_index == index,
    {
        AudioCmd::ToggleAppMute { sink_input_index: index }
    }
}

impl VolumeSlot {
    pub open spec fn initial() -> VolumeSlot {
        VolumeSlot { volume: 0, muted: false, pending: Pending::Idle }
    }
}

} // verus!
