//! Audio endpoints and the command/event protocol between the mixer UI and
//! the audio backend.

use vstd::prelude::*;
use crate::text::{bool_text, decimal, decimal_text, owned};

verus! {

/// Raw volume of a channel at 100%.
pub const NORMAL_VOLUME: u32 = 0x10000;

/// Highest volume percentage sent or shown.
pub const MAX_PERCENT: u32 = 100;

/// A raw average channel volume as a whole percentage of the normal
/// volume, rounded down.
pub open spec fn percent_of_raw(raw: u32) -> u32 {
    ((raw as int) * 100 / (NORMAL_VOLUME as int)) as u32
}

pub fn volume_percent(raw: u32) -> (r: u32)
    ensures
        r == percent_of_raw(raw),
{
    let wide = (raw as u64) * 100 / (NORMAL_VOLUME as u64);
    assert(wide <= 0xffff_ffff) by (nonlinear_arith)
        requires
            wide == (raw as u64) * 100 / 0x10000,
            raw <= 0xffff_ffff,
    ;
    wide as u32
}

/// A requested percentage held to `0..=100`.
pub open spec fn clamped(v: int) -> u32 {
    if v < 0 {
        0
    } else if v > 100 {
        100
    } else {
        v as u32
    }
}

/// Holds a requested volume, which may be negative or above 100, to the
/// range that is sent and shown.
pub fn clamp_percent(v: i64) -> (r: u32)
    ensures
        r == clamped(v as int),
        r <= MAX_PERCENT,
{
    if v < 0 {
        0
    } else if v > 100 {
        100
    } else {
        v as u32
    }
}

/// An unsigned volume held to at most 100.
pub fn cap_percent(v: u32) -> (r: u32)
    ensures
        r == clamped(v as int),
        r <= MAX_PERCENT,
{
    if v > MAX_PERCENT {
        MAX_PERCENT
    } else {
        v
    }
}

/// A sink or sink input as the backend reports it.
pub struct OutputInfo {
    pub index: u32,
    pub sink: u32,
    pub client: Option<u32>,
    pub mute: bool,
    pub name: String,
    pub app_name: String,
    pub volume_level: u32,
}

pub struct OutputInfoView {
    pub index: u32,
    pub sink: u32,
    pub client: Option<u32>,
    pub mute: bool,
    pub name: Seq<char>,
    pub app_name: Seq<char>,
    pub volume_level: u32,
}

impl View for OutputInfo {
    type V = OutputInfoView;

    open spec fn view(&self) -> OutputInfoView {
        OutputInfoView {
            index: self.index,
            sink: self.sink,
            client: self.client,
            mute: self.mute,
            name: self.name@,
            app_name: self.app_name@,
            volume_level: self.volume_level,
        }
    }
}

/// A device as the backend reports it.
pub struct DeviceInfo {
    pub index: u32,
    pub sink: u32,
    pub client: Option<u32>,
    pub mute: bool,
    pub name: String,
    pub app_name: String,
    pub volume_level: u32,
}

/// The text an absent name reads as.
pub open spec fn name_or_unknown(s: Option<String>) -> Seq<char> {
    match s {
        Some(t) => t@,
        None => "Unknown"@,
    }
}

fn name_or_default(s: Option<String>) -> (r: String)
    ensures
        r@ == name_or_unknown(s),
{
    match s {
        Some(t) => t,
        None => owned("Unknown"),
    }
}

impl OutputInfo {
    /// A sink input from its reported fields; `volume_avg` is the raw
    /// average of its channel volumes.
    pub fn from_sink_input_parts(
        index: u32,
        sink: u32,
        client: Option<u32>,
        mute: bool,
        name: Option<String>,
        app_name: Option<String>,
        volume_avg: u32,
    ) -> (r: Self)
        ensures
            r.index == index,
            r.sink == sink,
            r.client == client,
            r.mute == mute,
            r.name@ == name_or_unknown(name),
            r.app_name@ == name_or_unknown(app_name),
            r.volume_level == percent_of_raw(volume_avg),
    {
        OutputInfo {
            index,
            sink,
            client,
            mute,
            name: name_or_default(name),
            app_name: name_or_default(app_name),
            volume_level: volume_percent(volume_avg),
        }
    }

    /// A sink from its reported fields; a sink is its own sink and has no
    /// client.
    pub fn from_sink_parts(
        index: u32,
        mute: bool,
        name: Option<String>,
        app_name: Option<String>,
        volume_avg: u32,
    ) -> (r: Self)
        ensures
            r.index == index,
            r.sink == index,
            r.client is None,
            r.mute == mute,
            r.name@ == name_or_unknown(name),
            r.app_name@ == name_or_unknown(app_name),
            r.volume_level == percent_of_raw(volume_avg),
    {
        Self::from_sink_input_parts(index, index, None, mute, name, app_name, volume_avg)
    }
}

impl DeviceInfo {
    /// A sink device from its reported fields.
    pub fn from_sink_parts(
        index: u32,
        mute: bool,
        name: Option<String>,
        app_name: Option<String>,
        volume_avg: u32,
    ) -> (r: Self)
        ensures
            r.index == index,
            r.sink == index,
            r.client is None,
            r.mute == mute,
            r.name@ == name_or_unknown(name),
            r.app_name@ == name_or_unknown(app_name),
            r.volume_level == percent_of_raw(volume_avg),
    {
        DeviceInfo {
            index,
            sink: index,
            client: None,
            mute,
            name: name_or_default(name),
            app_name: name_or_default(app_name),
            volume_level: volume_percent(volume_avg),
        }
    }
}

/// A command from the mixer UI to the backend.
pub enum AudioCmd {
    AddOutput(OutputInfo),
    ChangeOutput(u32, OutputInfo),
    SetGlobalVolume { sink_index: u32, volume: u32 },
    ToggleGlobalMute { sink_index: u32 },
    SetAppVolume { sink_input_index: u32, volume: u32 },
    ToggleAppMute { sink_input_index: u32 },
    RequestGlobalVolume { sink_index: Option<u32> },
    RequestAppsList,
}

/// A notification from the backend to the mixer UI. `...Received` reports
/// the state asked for; `...Changed` reports a change.
pub enum AudioEvent {
    GlobalVolumeChanged { sink_index: u32, volume: u32, muted: bool },
    AppVolumeChanged { sink_input_index: u32, volume: u32, muted: bool, app_name: String },
    AppsListUpdated { apps: Vec<OutputInfo> },
    GlobalVolumeReceived { sink_index: u32, volume: u32, muted: bool },
    AppVolumeReceived { sink_input_index: u32, volume: u32, muted: bool, app_name: String },
}

pub enum AudioEventView {
    GlobalVolumeChanged { sink_index: u32, volume: u32, muted: bool },
    AppVolumeChanged { sink_input_index: u32, volume: u32, muted: bool, app_name: Seq<char> },
    AppsListUpdated { apps: Seq<OutputInfoView> },
    GlobalVolumeReceived { sink_index: u32, volume: u32, muted: bool },
    AppVolumeReceived { sink_input_index: u32, volume: u32, muted: bool, app_name: Seq<char> },
}

impl View for AudioEvent {
    type V = AudioEventView;

    open spec fn view(&self) -> AudioEventView {
        match self {
            AudioEvent::GlobalVolumeChanged { sink_index, volume, muted } => {
                AudioEventView::GlobalVolumeChanged {
                    sink_index: *sink_index,
                    volume: *volume,
                    muted: *muted,
                }
            },
            AudioEvent::AppVolumeChanged { sink_input_index, volume, muted, app_name } => {
                AudioEventView::AppVolumeChanged {
                    sink_input_index: *sink_input_index,
                    volume: *volume,
                    muted: *muted,
                    app_name: app_name@,
                }
            },
            AudioEvent::AppsListUpdated { apps } => AudioEventView::AppsListUpdated {
                apps: apps@.map_values(|a: OutputInfo| a@),
            },
            AudioEvent::GlobalVolumeReceived { sink_index, volume, muted } => {
                AudioEventView::GlobalVolumeReceived {
                    sink_index: *sink_index,
                    volume: *volume,
                    muted: *muted,
                }
            },
            AudioEvent::AppVolumeReceived { sink_input_index, volume, muted, app_name } => {
                AudioEventView::AppVolumeReceived {
                    sink_input_index: *sink_input_index,
                    volume: *volume,
                    muted: *muted,
                    app_name: app_name@,
                }
            },
        }
    }
}

/// The event that reports a sink: `...Received` when it was asked for,
/// `...Changed` otherwise.
pub open spec fn global_event_for(output: OutputInfoView, initial: bool) -> AudioEventView {
    if initial {
        AudioEventView::GlobalVolumeReceived {
            sink_index: output.index,
            volume: output.volume_level,
            muted: output.mute,
        }
    } else {
        AudioEventView::GlobalVolumeChanged {
            sink_index: output.index,
            volume: output.volume_level,
            muted: output.mute,
        }
    }
}

/// The event that reports a sink input.
pub open spec fn app_event_for(output: OutputInfoView, initial: bool) -> AudioEventView {
    if initial {
        AudioEventView::AppVolumeReceived {
            sink_input_index: output.index,
            volume: output.volume_level,
            muted: output.mute,
            app_name: output.app_name,
        }
    } else {
        AudioEventView::AppVolumeChanged {
            sink_input_index: output.index,
            volume: output.volume_level,
            muted: output.mute,
            app_name: output.app_name,
        }
    }
}

pub fn send_global_volume_event(output: OutputInfo, initial: bool) -> (r: AudioEvent)
    ensures
        r@ == global_event_for(output@, initial),
{
    if initial {
        AudioEvent::GlobalVolumeReceived {
            sink_index: output.index,
            volume: output.volume_level,
            muted: output.mute,
        }
    } else {
        AudioEvent::GlobalVolumeChanged {
            sink_index: output.index,
            volume: output.volume_level,
            muted: output.mute,
        }
    }
}

pub fn send_app_volume_event(output: OutputInfo, initial: bool) -> (r: AudioEvent)
    ensures
        r@ == app_event_for(output@, initial),
{
    if initial {
        AudioEvent::AppVolumeReceived {
            sink_input_index: output.index,
            volume: output.volume_level,
            muted: output.mute,
            app_name: output.app_name,
        }
    } else {
        AudioEvent::AppVolumeChanged {
            sink_input_index: output.index,
            volume: output.volume_level,
            muted: output.mute,
            app_name: output.app_name,
        }
    }
}

pub open spec fn bool_view(b: bool) -> Seq<char> {
    if b {
        "true"@
    } else {
        "false"@
    }
}

/// An optional index as `Some(n)` or `None`.
pub open spec fn opt_index_text(c: Option<u32>) -> Seq<char> {
    match c {
        Some(v) => "Some("@ + decimal(v as nat) + ")"@,
        None => "None"@,
    }
}

/// The one-line description of an endpoint.
pub open spec fn endpoint_text(
    index: u32,
    sink: u32,
    client: Option<u32>,
    mute: bool,
    name: Seq<char>,
    app_name: Seq<char>,
    volume_level: u32,
) -> Seq<char> {
    "OutputInfo { index: "@ + decimal(index as nat) + ", sink: "@ + decimal(sink as nat) + ", client: "@
        + opt_index_text(client) + ", mute: "@ + bool_view(mute) + ", name: "@ + name + ", app_name: "@
        + app_name + ", volume_level: "@ + decimal(volume_level as nat) + " }"@
}

fn describe_endpoint(
    index: u32,
    sink: u32,
    client: Option<u32>,
    mute: bool,
    name: &str,
    app_name: &str,
    volume_level: u32,
) -> (r: String)
    ensures
        r@ == endpoint_text(index, sink, client, mute, name@, app_name@, volume_level),
{
    let mut s = owned("OutputInfo { index: ");
    s.append(decimal_text(index as u128).as_str());
    s.append(", sink: ");
    s.append(decimal_text(sink as u128).as_str());
    s.append(", client: ");
    match client {
        Some(v) => {
            s.append("Some(");
            s.append(decimal_text(v as u128).as_str());
            s.append(")");
        },
        None => {
            s.append("None");
        },
    }
    s.append(", mute: ");
    s.append(bool_text(mute));
    s.append(", name: ");
    s.append(name);
    s.append(", app_name: ");
    s.append(app_name);
    s.append(", volume_level: ");
    s.append(decimal_text(volume_level as u128).as_str());
    s.append(" }");
    assert(s@ =~= endpoint_text(index, sink, client, mute, name@, app_name@, volume_level));
    s
}

impl OutputInfo {
    /// A one-line description for logs.
    pub fn describe(&self) -> (r: String)
        ensures
            r@ == endpoint_text(
                self.index,
                self.sink,
                self.client,
                self.mute,
                self.name@,
                self.app_name@,
                self.volume_level,
            ),
    {
        describe_endpoint(
            self.index,
            self.sink,
            self.client,
            self.mute,
            self.name.as_str(),
            self.app_name.as_str(),
            self.volume_level,
        )
    }
}

impl DeviceInfo {
    /// A one-line description for logs, in the form endpoints share.
    pub fn describe(&self) -> (r: String)
        ensures
            r@ == endpoint_text(
                self.index,
                self.sink,
                self.client,
                self.mute,
                self.name@,
                self.app_name@,
                self.volume_level,
            ),
    {
        describe_endpoint(
            self.index,
            self.sink,
            self.client,
            self.mute,
            self.name.as_str(),
            self.app_name.as_str(),
            self.volume_level,
        )
    }
}

} // verus!
