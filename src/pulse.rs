//! Decisions of the audio backend client: what to ask the sound server and
//! what to tell the UI, for each command, server reply, subscription
//! notification and context state. The caller performs the requests and
//! feeds back what the server answered.

use std::collections::HashMap;
use vstd::prelude::*;
use crate::audio::{
    app_event_for, cap_percent, clamped, global_event_for, send_app_volume_event,
    send_global_volume_event, AudioCmd, AudioEvent, AudioEventView, OutputInfo, OutputInfoView,
};

verus! {

broadcast use vstd::std_specs::hash::group_hash_axioms;

/// State of the connection to the sound server.
#[derive(Clone, Copy, Debug, PartialEq, Eq, Structural)]
pub enum ContextState {
    Unconnected,
    Connecting,
    Authorizing,
    SettingName,
    Ready,
    Failed,
    Terminated,
}

/// A terminal connection state, which ends the client.
#[derive(Clone, Copy, Debug, PartialEq, Eq, Structural)]
pub enum BackendFailure {
    Failed,
    Terminated,
    Unconnected,
}

/// Why a sink was asked for.
#[derive(Clone, Copy, Debug, PartialEq, Eq, Structural)]
pub enum SinkPurpose {
    Report { initial: bool },
    SetVolume { target: u32 },
    ToggleMute,
}

/// Why a sink input was asked for.
#[derive(Clone, Copy, Debug, PartialEq, Eq, Structural)]
pub enum InputPurpose {
    Report { initial: bool },
    SetVolume { target: u32 },
    ToggleMute,
}

/// Why the list of sink inputs was asked for: to report each one, or to
/// send the whole list at its end.
#[derive(Clone, Copy, Debug, PartialEq, Eq, Structural)]
pub enum ListPurpose {
    ReportEach { initial: bool },
    AppsList,
}

/// A request to the sound server.
#[derive(Clone, Copy, Debug, PartialEq, Eq, Structural)]
pub enum PulseRequest {
    /// Subscribe to sink and sink-input changes.
    Subscribe,
    SinkInfoByIndex { index: u32, purpose: SinkPurpose },
    /// Server info, then the default sink by name.
    DefaultSinkInfo { initial: bool },
    SinkInputInfo { index: u32, purpose: InputPurpose },
    SinkInputList { purpose: ListPurpose },
    SetSinkVolume { index: u32, channels: u8, percent: u32 },
    SetSinkInputVolume { index: u32, channels: u8, percent: u32 },
    SetSinkMute { index: u32, mute: bool },
    SetSinkInputMute { index: u32, mute: bool },
}

/// Class of object a subscription notification is about.
#[derive(Clone, Copy, Debug, PartialEq, Eq, Structural)]
pub enum Facility {
    Sink,
    SinkInput,
    Other,
}

#[derive(Clone, Copy, Debug, PartialEq, Eq, Structural)]
pub enum Operation {
    New,
    Changed,
    Removed,
}

/// Something for the caller to do: ask the server, or tell the UI.
pub enum BackendAction {
    Request(PulseRequest),
    Emit(AudioEvent),
}

pub enum ActionView {
    Request(PulseRequest),
    Emit(AudioEventView),
}

impl View for BackendAction {
    type V = ActionView;

    open spec fn view(&self) -> ActionView {
        match self {
            BackendAction::Request(r) => ActionView::Request(*r),
            BackendAction::Emit(e) => ActionView::Emit(e@),
        }
    }
}

pub open spec fn actions_view(a: Seq<BackendAction>) -> Seq<ActionView> {
    a.map_values(|x: BackendAction| x@)
}

/// What a command asks for, with `cache` the known channel counts. A
/// volume is held to 100 first; with a cached channel count the new volume
/// is reported at once and then set, else the endpoint is fetched first.
pub open spec fn command_actions(cmd: AudioCmd, cache: Map<u32, u8>) -> Seq<ActionView> {
    match cmd {
        AudioCmd::SetGlobalVolume { sink_index, volume } => {
            let target = clamped(volume as int);
            if cache.contains_key(sink_index) {
                if cache[sink_index] == 0 {
                    Seq::empty()
                } else {
                    seq![
                        ActionView::Emit(
                            AudioEventView::GlobalVolumeChanged {
                                sink_index,
                                volume: target,
                                muted: false,
                            },
                        ),
                        ActionView::Request(
                            PulseRequest::SetSinkVolume {
                                index: sink_index,
                                channels: cache[sink_index],
                                percent: target,
                            },
                        ),
                    ]
                }
            } else {
                seq![
                    ActionView::Request(
                        PulseRequest::SinkInfoByIndex {
                            index: sink_index,
                            purpose: SinkPurpose::SetVolume { target },
                        },
                    ),
                ]
            }
        },
        AudioCmd::ToggleGlobalMute { sink_index } => seq![
            ActionView::Request(
                PulseRequest::SinkInfoByIndex { index: sink_index, purpose: SinkPurpose::ToggleMute },
            ),
        ],
        AudioCmd::SetAppVolume { sink_input_index, volume } => {
            let target = clamped(volume as int);
            if cache.contains_key(sink_input_index) {
                if cache[sink_input_index] == 0 {
                    Seq::empty()
                } else {
                    seq![
                        ActionView::Emit(
                            AudioEventView::AppVolumeChanged {
                                sink_input_index,
                                volume: target,
                                muted: false,
                                app_name: Seq::empty(),
                            },
                        ),
                        ActionView::Request(
                            PulseRequest::SetSinkInputVolume {
                                index: sink_input_index,
                                channels: cache[sink_input_index],
                                percent: target,
                            },
                        ),
                    ]
                }
            } else {
                seq![
                    ActionView::Request(
                        PulseRequest::SinkInputInfo {
                            index: sink_input_index,
                            purpose: InputPurpose::SetVolume { target },
                        },
                    ),
                ]
            }
        },
        AudioCmd::ToggleAppMute { sink_input_index } => seq![
            ActionView::Request(
                PulseRequest::SinkInputInfo {
                    index: sink_input_index,
                    purpose: InputPurpose::ToggleMute,
                },
            ),
        ],
        AudioCmd::RequestGlobalVolume { sink_index } => match sink_index {
            Some(i) => seq![
                ActionView::Request(
                    PulseRequest::SinkInfoByIndex {
                        index: i,
                        purpose: SinkPurpose::Report { initial: true },
                    },
                ),
            ],
            None => seq![ActionView::Request(PulseRequest::DefaultSinkInfo { initial: true })],
        },
        AudioCmd::RequestAppsList => seq![
            ActionView::Request(PulseRequest::SinkInputList { purpose: ListPurpose::AppsList }),
        ],
        _ => Seq::empty(),
    }
}

/// The actions of queued commands, in the order they arrived.
pub open spec fn flush_actions(cmds: Seq<AudioCmd>, cache: Map<u32, u8>) -> Seq<ActionView>
    decreases cmds.len(),
{
    if cmds.len() == 0 {
        Seq::empty()
    } else {
        flush_actions(cmds.drop_last(), cache) + command_actions(cmds.last(), cache)
    }
}

/// What the client asks for once the connection is ready: change
/// notifications, the default sink and every sink input.
pub open spec fn startup_actions() -> Seq<ActionView> {
    seq![
        ActionView::Request(PulseRequest::Subscribe),
        ActionView::Request(PulseRequest::DefaultSinkInfo { initial: true }),
        ActionView::Request(
            PulseRequest::SinkInputList { purpose: ListPurpose::ReportEach { initial: true } },
        ),
    ]
}

/// What a change notification asks for: a changed sink input or sink is
/// fetched again; a removed sink input makes the whole list be fetched.
pub open spec fn subscription_request(facility: Facility, op: Operation, index: u32) -> Option<
    PulseRequest,
> {
    match (facility, op) {
        (Facility::SinkInput, Operation::Removed) => Some(
            PulseRequest::SinkInputList { purpose: ListPurpose::AppsList },
        ),
        (Facility::SinkInput, _) => Some(
            PulseRequest::SinkInputInfo { index, purpose: InputPurpose::Report { initial: false } },
        ),
        (Facility::Sink, Operation::Removed) => None,
        (Facility::Sink, _) => Some(
            PulseRequest::SinkInfoByIndex { index, purpose: SinkPurpose::Report { initial: false } },
        ),
        _ => None,
    }
}

pub fn subscription_request_for(facility: Facility, op: Operation, index: u32) -> (r: Option<
    PulseRequest,
>)
    ensures
        r == subscription_request(facility, op, index),
{
    match (facility, op) {
        (Facility::SinkInput, Operation::Removed) => Some(
            PulseRequest::SinkInputList { purpose: ListPurpose::AppsList },
        ),
        (Facility::SinkInput, _) => Some(
            PulseRequest::SinkInputInfo { index, purpose: InputPurpose::Report { initial: false } },
        ),
        (Facility::Sink, Operation::Removed) => None,
        (Facility::Sink, _) => Some(
            PulseRequest::SinkInfoByIndex { index, purpose: SinkPurpose::Report { initial: false } },
        ),
        _ => None,
    }
}

/// The event that carries a whole list of sink inputs.
pub fn apps_list_event(apps: Vec<OutputInfo>) -> (r: AudioEvent)
    ensures
        r@ == (AudioEventView::AppsListUpdated { apps: apps@.map_values(|a: OutputInfo| a@) }),
{
    AudioEvent::AppsListUpdated { apps }
}

fn append_actions(out: &mut Vec<BackendAction>, more: Vec<BackendAction>)
    ensures
        actions_view(final(out)@) == actions_view(old(out)@) + actions_view(more@),
{
    let ghost orig = more@;
    let n = more.len();
    let mut rest = more;
    let mut k: usize = 0;
    while rest.len() > 0
        invariant
            n == orig.len(),
            k + rest@.len() == orig.len(),
            rest@ == orig.subrange(k as int, orig.len() as int),
            actions_view(out@) == actions_view(old(out)@) + actions_view(orig.subrange(0, k as int)),
        decreases rest@.len(),
    {
        let a = rest.remove(0);
        assert(a == orig[k as int]);
        let ghost prev = out@;
        out.push(a);
        assert(orig.subrange(0, k + 1) =~= orig.subrange(0, k as int).push(a));
        assert(actions_view(orig.subrange(0, k as int).push(a)) =~= actions_view(orig.subrange(0, k as int)).push(a@));
        assert(actions_view(out@) =~= actions_view(prev).push(a@));
        assert(actions_view(out@) =~= actions_view(old(out)@) + actions_view(orig.subrange(0, k + 1)));
        assert(rest@ =~= orig.subrange(k + 1, orig.len() as int));
        k = k + 1;
    }
    assert(orig.subrange(0, k as int) =~= orig);
}

/// The client's state: whether the connection is ready, the commands that
/// came before it was, and the channel count of each endpoint seen.
pub struct PulseBackend {
    pub ready: bool,
    pub pending: Vec<AudioCmd>,
    pub channels: HashMap<u32, u8>,
}

impl PulseBackend {
    pub fn new() -> (r: Self)
        ensures
            !r.ready,
            r.pending@.len() == 0,
            r.channels@ == Map::<u32, u8>::empty(),
    {
        PulseBackend { ready: false, pending: Vec::new(), channels: HashMap::new() }
    }

    fn cached_channels(&self, index: u32) -> (r: Option<u8>)
        ensures
            r matches Some(c) ==> self.channels@.contains_key(index) && self.channels@[index] == c,
            r is None ==> !self.channels@.contains_key(index),
    {
        match self.channels.get(&index) {
            Some(c) => Some(*c),
            None => None,
        }
    }

    /// The actions of one command on a ready connection.
    pub fn command_actions_for(&self, cmd: AudioCmd) -> (r: Vec<BackendAction>)
        ensures
            actions_view(r@) == command_actions(cmd, self.channels@),
    {
        let mut out: Vec<BackendAction> = Vec::new();
        match cmd {
            AudioCmd::SetGlobalVolume { sink_index, volume } => {
                let target = cap_percent(volume);
                match self.cached_channels(sink_index) {
                    Some(c) => {
                        if c != 0 {
                            out.push(
                                BackendAction::Emit(
                                    AudioEvent::GlobalVolumeChanged {
                                        sink_index,
                                        volume: target,
                                        muted: false,
                                    },
                                ),
                            );
                            out.push(
                                BackendAction::Request(
                                    PulseRequest::SetSinkVolume {
                                        index: sink_index,
                                        channels: c,
                                        percent: target,
                                    },
                                ),
                            );
                        }
                    },
                    None => {
                        out.push(
                            BackendAction::Request(
                                PulseRequest::SinkInfoByIndex {
                                    index: sink_index,
                                    purpose: SinkPurpose::SetVolume { target },
                                },
                            ),
                        );
                    },
                }
            },
            AudioCmd::ToggleGlobalMute { sink_index } => {
                out.push(
                    BackendAction::Request(
                        PulseRequest::SinkInfoByIndex {
                            index: sink_index,
                            purpose: SinkPurpose::ToggleMute,
                        },
                    ),
                );
            },
            AudioCmd::SetAppVolume { sink_input_index, volume } => {
                let target = cap_percent(volume);
                match self.cached_channels(sink_input_index) {
                    Some(c) => {
                        if c != 0 {
                            out.push(
                                BackendAction::Emit(
                                    AudioEvent::AppVolumeChanged {
                                        sink_input_index,
                                        volume: target,
                                        muted: false,
                                        app_name: String::new(),
                                    },
                                ),
                            );
                            out.push(
                                BackendAction::Request(
                                    PulseRequest::SetSinkInputVolume {
                                        index: sink_input_index,
                                        channels: c,
                                        percent: target,
                                    },
                                ),
                            );
                        }
                    },
                    None => {
                        out.push(
                            BackendAction::Request(
                                PulseRequest::SinkInputInfo {
                                    index: sink_input_index,
                                    purpose: InputPurpose::SetVolume { target },
                                },
                            ),
                        );
                    },
                }
            },
            AudioCmd::ToggleAppMute { sink_input_index } => {
                out.push(
                    BackendAction::Request(
                        PulseRequest::SinkInputInfo {
                            index: sink_input_index,
                            purpose: InputPurpose::ToggleMute,
                        },
                    ),
                );
            },
            AudioCmd::RequestGlobalVolume { sink_index } => {
                match sink_index {
                    Some(i) => {
                        out.push(
                            BackendAction::Request(
                                PulseRequest::SinkInfoByIndex {
                                    index: i,
                                    purpose: SinkPurpose::Report { initial: true },
                                },
                            ),
                        );
                    },
                    None => {
                        out.push(
                            BackendAction::Request(PulseRequest::DefaultSinkInfo { initial: true }),
                        );
                    },
                }
            },
            AudioCmd::RequestAppsList => {
                out.push(
                    BackendAction::Request(
                        PulseRequest::SinkInputList { purpose: ListPurpose::AppsList },
                    ),
                );
            },
            _ => {},
        }
        assert(actions_view(out@) =~= command_actions(cmd, self.channels@));
        out
    }

    /// A command from the UI: acted on at once when the connection is
    /// ready, else queued.
    pub fn on_command(&mut self, cmd: AudioCmd) -> (r: Vec<BackendAction>)
        ensures
            old(self).ready ==> {
                &&& actions_view(r@) == command_actions(cmd, old(self).channels@)
                &&& *final(self) == *old(self)
            },
            !old(self).ready ==> {
                &&& r@.len() == 0
                &&& final(self).pending@ == old(self).pending@.push(cmd)
                &&& final(self).ready == old(self).ready
                &&& final(self).channels == old(self).channels
            },
    {
        if self.ready {
            self.command_actions_for(cmd)
        } else {
            self.pending.push(cmd);
            Vec::new()
        }
    }

    /// The connection state seen after a turn of the main loop. On the first
    /// `Ready` the client subscribes, asks for the initial state and then
    /// acts on the queued commands in arrival order; a terminal state is a
    /// failure.
    pub fn on_state(&mut self, state: ContextState) -> (r: Result<Vec<BackendAction>, BackendFailure>)
        ensures
            state == ContextState::Ready && !old(self).ready ==> {
                &&& r matches Ok(a) && actions_view(a@) == startup_actions() + flush_actions(
                    old(self).pending@,
                    old(self).channels@,
                )
                &&& final(self).ready
                &&& final(self).pending@.len() == 0
                &&& final(self).channels == old(self).channels
            },
            state == ContextState::Ready && old(self).ready ==> (r matches Ok(a) && a@.len() == 0)
                && *final(self) == *old(self),
            state == ContextState::Failed ==> r == Err::<Vec<BackendAction>, BackendFailure>(
                BackendFailure::Failed,
            ) && *final(self) == *old(self),
            state == ContextState::Terminated ==> r == Err::<Vec<BackendAction>, BackendFailure>(
                BackendFailure::Terminated,
            ) && *final(self) == *old(self),
            state == ContextState::Unconnected ==> r == Err::<Vec<BackendAction>, BackendFailure>(
                BackendFailure::Unconnected,
            ) && *final(self) == *old(self),
            (state == ContextState::Connecting || state == ContextState::Authorizing || state
                == ContextState::SettingName) ==> (r matches Ok(a) && a@.len() == 0) && *final(self)
                == *old(self),
    {
        match state {
            ContextState::Ready => {
                if self.ready {
                    return Ok(Vec::new());
                }
                self.ready = true;
                let mut out: Vec<BackendAction> = Vec::new();
                out.push(BackendAction::Request(PulseRequest::Subscribe));
                out.push(BackendAction::Request(PulseRequest::DefaultSinkInfo { initial: true }));
                out.push(
                    BackendAction::Request(
                        PulseRequest::SinkInputList { purpose: ListPurpose::ReportEach { initial: true } },
                    ),
                );
                assert(actions_view(out@) =~= startup_actions());
                let ghost queued = old(self).pending@;
                let ghost cache = old(self).channels@;
                let mut done: usize = 0;
                let total = self.pending.len();
                while self.pending.len() > 0
                    invariant
                        total == queued.len(),
                        self.ready,
                        self.channels@ == cache,
                        self.channels == old(self).channels,
                        done <= queued.len(),
                        self.pending@ == queued.subrange(done as int, queued.len() as int),
                        actions_view(out@) == startup_actions() + flush_actions(
                            queued.subrange(0, done as int),
                            cache,
                        ),
                    decreases self.pending@.len(),
                {
                    let cmd = self.pending.remove(0);
                    assert(cmd == queued[done as int]);
                    let more = self.command_actions_for(cmd);
                    let ghost before = out@;
                    append_actions(&mut out, more);
                    assert(queued.subrange(0, done + 1).drop_last() =~= queued.subrange(0, done as int));
                    assert(queued.subrange(0, done + 1).last() == cmd);
                    assert(actions_view(before) == startup_actions() + flush_actions(
                        queued.subrange(0, done as int),
                        cache,
                    ));
                    assert(actions_view(out@) =~= startup_actions() + flush_actions(
                        queued.subrange(0, done + 1),
                        cache,
                    ));
                    done = done + 1;
                    assert(self.pending@ =~= queued.subrange(done as int, queued.len() as int));
                }
                assert(queued.subrange(0, done as int) =~= queued);
                Ok(out)
            },
            ContextState::Failed => Err(BackendFailure::Failed),
            ContextState::Terminated => Err(BackendFailure::Terminated),
            ContextState::Unconnected => Err(BackendFailure::Unconnected),
            _ => Ok(Vec::new()),
        }
    }

    /// A sink the server reported for a request made for `purpose`; `key`
    /// is the sink's index and `channels` its channel count.
    pub fn on_sink_info(&mut self, key: u32, purpose: SinkPurpose, channels: u8, output: OutputInfo) -> (r: Vec<
        BackendAction,
    >)
        ensures
            actions_view(r@) == sink_reply_actions(key, purpose, channels, output@),
            final(self).channels@ == reply_cache(old(self).channels@, key, purpose is ToggleMute, channels),
            final(self).ready == old(self).ready,
            final(self).pending == old(self).pending,
    {
        let mut out: Vec<BackendAction> = Vec::new();
        match purpose {
            SinkPurpose::Report { initial } => {
                self.channels.insert(key, channels);
                out.push(BackendAction::Emit(send_global_volume_event(output, initial)));
            },
            SinkPurpose::SetVolume { target } => {
                self.channels.insert(key, channels);
                if channels != 0 {
                    out.push(
                        BackendAction::Emit(
                            AudioEvent::GlobalVolumeChanged {
                                sink_index: key,
                                volume: target,
                                muted: output.mute,
                            },
                        ),
                    );
                    out.push(
                        BackendAction::Request(
                            PulseRequest::SetSinkVolume { index: key, channels, percent: target },
                        ),
                    );
                }
            },
            SinkPurpose::ToggleMute => {
                out.push(
                    BackendAction::Request(PulseRequest::SetSinkMute { index: key, mute: !output.mute }),
                );
            },
        }
        assert(actions_view(out@) =~= sink_reply_actions(key, purpose, channels, output@));
        out
    }

    /// A sink input the server reported for a request made for `purpose`,
    /// one at a time for a list reported item by item.
    pub fn on_sink_input_info(
        &mut self,
        key: u32,
        purpose: InputPurpose,
        channels: u8,
        output: OutputInfo,
    ) -> (r: Vec<BackendAction>)
        ensures
            actions_view(r@) == input_reply_actions(key, purpose, channels, output@),
            final(self).channels@ == reply_cache(old(self).channels@, key, purpose is ToggleMute, channels),
            final(self).ready == old(self).ready,
            final(self).pending == old(self).pending,
    {
        let mut out: Vec<BackendAction> = Vec::new();
        match purpose {
            InputPurpose::Report { initial } => {
                self.channels.insert(key, channels);
                out.push(BackendAction::Emit(send_app_volume_event(output, initial)));
            },
            InputPurpose::SetVolume { target } => {
                self.channels.insert(key, channels);
                if channels != 0 {
                    out.push(
                        BackendAction::Emit(
                            AudioEvent::AppVolumeChanged {
                                sink_input_index: key,
                                volume: target,
                                muted: output.mute,
                                app_name: output.app_name,
                            },
                        ),
                    );
                    out.push(
                        BackendAction::Request(
                            PulseRequest::SetSinkInputVolume { index: key, channels, percent: target },
                        ),
                    );
                }
            },
            InputPurpose::ToggleMute => {
                out.push(
                    BackendAction::Request(
                        PulseRequest::SetSinkInputMute { index: key, mute: !output.mute },
                    ),
                );
            },
        }
        assert(actions_view(out@) =~= input_reply_actions(key, purpose, channels, output@));
        out
    }
}

/// The channel cache after a reply: its channel count is recorded, but for
/// a mute toggle.
pub open spec fn reply_cache(cache: Map<u32, u8>, key: u32, toggle: bool, channels: u8) -> Map<u32, u8> {
    if toggle {
        cache
    } else {
        cache.insert(key, channels)
    }
}

/// What a sink reply leads to: a report is passed on; a volume change is
/// reported at once and then set, unless the sink has no channels; a mute
/// toggle sets the opposite of the reported mute.
pub open spec fn sink_reply_actions(key: u32, purpose: SinkPurpose, channels: u8, output: OutputInfoView) -> Seq<
    ActionView,
> {
    match purpose {
        SinkPurpose::Report { initial } => seq![ActionView::Emit(global_event_for(output, initial))],
        SinkPurpose::SetVolume { target } => if channels == 0 {
            Seq::empty()
        } else {
            seq![
                ActionView::Emit(
                    AudioEventView::GlobalVolumeChanged {
                        sink_index: key,
                        volume: target,
                        muted: output.mute,
                    },
                ),
                ActionView::Request(PulseRequest::SetSinkVolume { index: key, channels, percent: target }),
            ]
        },
        SinkPurpose::ToggleMute => seq![
            ActionView::Request(PulseRequest::SetSinkMute { index: key, mute: !output.mute }),
        ],
    }
}

/// What a sink-input reply leads to, as for sinks.
pub open spec fn input_reply_actions(
    key: u32,
    purpose: InputPurpose,
    channels: u8,
    output: OutputInfoView,
) -> Seq<ActionView> {
    match purpose {
        InputPurpose::Report { initial } => seq![ActionView::Emit(app_event_for(output, initial))],
        InputPurpose::SetVolume { target } => if channels == 0 {
            Seq::empty()
        } else {
            seq![
                ActionView::Emit(
                    AudioEventView::AppVolumeChanged {
                        sink_input_index: key,
                        volume: target,
                        muted: output.mute,
                        app_name: output.app_name,
                    },
                ),
                ActionView::Request(
                    PulseRequest::SetSinkInputVolume { index: key, channels, percent: target },
                ),
            ]
        },
        InputPurpose::ToggleMute => seq![
            ActionView::Request(PulseRequest::SetSinkInputMute { index: key, mute: !output.mute }),
        ],
    }
}

/// Every volume an action carries, as an event to the UI or as a request
/// to the server, held to 100 or less.
pub open spec fn volumes_capped(actions: Seq<ActionView>) -> bool {
    forall|k: int|
        0 <= k < actions.len() ==> match #[trigger] actions[k] {
            ActionView::Emit(AudioEventView::GlobalVolumeChanged { volume, .. }) => volume <= 100,
            ActionView::Emit(AudioEventView::AppVolumeChanged { volume, .. }) => volume <= 100,
            ActionView::Request(PulseRequest::SinkInfoByIndex { purpose: SinkPurpose::SetVolume { target }, .. }) => target
                <= 100,
            ActionView::Request(PulseRequest::SinkInputInfo { purpose: InputPurpose::SetVolume { target }, .. }) => target
                <= 100,
            ActionView::Request(PulseRequest::SetSinkVolume { percent, .. }) => percent <= 100,
            ActionView::Request(PulseRequest::SetSinkInputVolume { percent, .. }) => percent <= 100,
            _ => true,
        }
}

/// Whatever volume a command asks for, above 100 included, what is shown
/// at once and what is sent to the server is the requested volume held
/// to 100; a server reply that completes a volume change sends and shows
/// the same held value.
pub proof fn lemma_volume_clamped(
    cmd: AudioCmd,
    cache: Map<u32, u8>,
    key: u32,
    target: u32,
    channels: u8,
    output: OutputInfoView,
)
    ensures
        volumes_capped(command_actions(cmd, cache)),
        cmd matches AudioCmd::SetGlobalVolume { sink_index, volume } ==> (cache.contains_key(sink_index)
            && cache[sink_index] != 0 ==> command_actions(cmd, cache)[1] == ActionView::Request(
            PulseRequest::SetSinkVolume {
                index: sink_index,
                channels: cache[sink_index],
                percent: clamped(volume as int),
            },
        )),
        cmd matches AudioCmd::SetAppVolume { sink_input_index, volume } ==> (cache.contains_key(
            sink_input_index,
        ) && cache[sink_input_index] != 0 ==> command_actions(cmd, cache)[1] == ActionView::Request(
            PulseRequest::SetSinkInputVolume {
                index: sink_input_index,
                channels: cache[sink_input_index],
                percent: clamped(volume as int),
            },
        )),
        target <= 100 ==> volumes_capped(
            sink_reply_actions(key, SinkPurpose::SetVolume { target }, channels, output),
        ),
        target <= 100 ==> volumes_capped(
            input_reply_actions(key, InputPurpose::SetVolume { target }, channels, output),
        ),
{
}

} // verus!
