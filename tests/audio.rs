use oxidbar::audio::{
    clamp_percent, send_app_volume_event, send_global_volume_event, volume_percent, AudioCmd,
    AudioEvent, DeviceInfo, OutputInfo,
};
use oxidbar::mixer::{Mixer, MixerUpdate, Pending, VolumeSlot};
use oxidbar::text::{decimal_text, signed_decimal_text};
use oxidbar::pulse::{
    subscription_request_for, BackendAction, BackendFailure, ContextState, Facility, InputPurpose,
    ListPurpose, Operation, PulseBackend, PulseRequest, SinkPurpose,
};

fn output(index: u32, volume: u32, mute: bool, app: &str) -> OutputInfo {
    OutputInfo {
        index,
        sink: 0,
        client: None,
        mute,
        name: "n".to_string(),
        app_name: app.to_string(),
        volume_level: volume,
    }
}

fn requests(actions: &[BackendAction]) -> Vec<PulseRequest> {
    actions
        .iter()
        .filter_map(|a| match a {
            BackendAction::Request(r) => Some(*r),
            BackendAction::Emit(_) => None,
        })
        .collect()
}

#[test]
fn volume_is_clamped() {
    assert_eq!(clamp_percent(-5), 0);
    assert_eq!(clamp_percent(150), 100);
    assert_eq!(clamp_percent(42), 42);
    let mut slot = VolumeSlot::new();
    assert_eq!(slot.set_locally(-20), 0);
    assert_eq!(slot.set_locally(250), 100);
    assert_eq!(slot.volume_label(), "100%");
}

#[test]
fn raw_volume_to_percent() {
    assert_eq!(volume_percent(0x10000), 100);
    assert_eq!(volume_percent(0x8000), 50);
    assert_eq!(volume_percent(655), 0);
    assert_eq!(volume_percent(656), 1);
    assert_eq!(volume_percent(u32::MAX), 6553599);
}

#[test]
fn unknown_names_and_parts() {
    let o = OutputInfo::from_sink_input_parts(4, 1, Some(9), true, None, Some("mpv".to_string()), 0x10000);
    assert_eq!((o.index, o.sink, o.client, o.mute), (4, 1, Some(9), true));
    assert_eq!(o.name, "Unknown");
    assert_eq!(o.app_name, "mpv");
    assert_eq!(o.volume_level, 100);
    let s = OutputInfo::from_sink_parts(2, false, Some("alsa".to_string()), None, 0x4000);
    assert_eq!((s.index, s.sink, s.client), (2, 2, None));
    assert_eq!(s.app_name, "Unknown");
    assert_eq!(s.volume_level, 25);
    let d = DeviceInfo::from_sink_parts(3, true, None, None, 0);
    assert_eq!((d.index, d.sink, d.volume_level), (3, 3, 0));
}

#[test]
fn events_for_reports() {
    match send_global_volume_event(output(1, 30, true, "x"), true) {
        AudioEvent::GlobalVolumeReceived { sink_index: 1, volume: 30, muted: true } => {}
        _ => panic!("expected a received event"),
    }
    match send_app_volume_event(output(5, 70, false, "mpv"), false) {
        AudioEvent::AppVolumeChanged { sink_input_index: 5, volume: 70, muted: false, app_name } => {
            assert_eq!(app_name, "mpv")
        }
        _ => panic!("expected a changed event"),
    }
}

#[test]
fn removal_refetches_whole_list() {
    assert_eq!(
        subscription_request_for(Facility::SinkInput, Operation::Removed, 12),
        Some(PulseRequest::SinkInputList { purpose: ListPurpose::AppsList })
    );
    assert_eq!(
        subscription_request_for(Facility::SinkInput, Operation::Changed, 12),
        Some(PulseRequest::SinkInputInfo { index: 12, purpose: InputPurpose::Report { initial: false } })
    );
    assert_eq!(
        subscription_request_for(Facility::Sink, Operation::New, 3),
        Some(PulseRequest::SinkInfoByIndex { index: 3, purpose: SinkPurpose::Report { initial: false } })
    );
    assert_eq!(subscription_request_for(Facility::Sink, Operation::Removed, 3), None);
    assert_eq!(subscription_request_for(Facility::Other, Operation::New, 3), None);
}

#[test]
fn commands_wait_for_ready() {
    let mut b = PulseBackend::new();
    assert!(b.on_command(AudioCmd::RequestAppsList).is_empty());
    assert!(b.on_command(AudioCmd::ToggleGlobalMute { sink_index: 1 }).is_empty());
    assert!(b.on_state(ContextState::Connecting).unwrap().is_empty());
    let actions = b.on_state(ContextState::Ready).unwrap();
    assert_eq!(
        requests(&actions),
        vec![
            PulseRequest::Subscribe,
            PulseRequest::DefaultSinkInfo { initial: true },
            PulseRequest::SinkInputList { purpose: ListPurpose::ReportEach { initial: true } },
            PulseRequest::SinkInputList { purpose: ListPurpose::AppsList },
            PulseRequest::SinkInfoByIndex { index: 1, purpose: SinkPurpose::ToggleMute },
        ]
    );
    assert!(b.ready);
    assert!(b.pending.is_empty());
    assert!(b.on_state(ContextState::Ready).unwrap().is_empty());
    assert!(matches!(b.on_state(ContextState::Failed), Err(BackendFailure::Failed)));
    assert!(matches!(b.on_state(ContextState::Terminated), Err(BackendFailure::Terminated)));
    assert!(matches!(b.on_state(ContextState::Unconnected), Err(BackendFailure::Unconnected)));
}

#[test]
fn optimistic_volume_set_with_channel_cache() {
    let mut b = PulseBackend::new();
    b.on_state(ContextState::Ready).unwrap();
    let first = b.on_command(AudioCmd::SetGlobalVolume { sink_index: 4, volume: 140 });
    assert_eq!(
        requests(&first),
        vec![PulseRequest::SinkInfoByIndex { index: 4, purpose: SinkPurpose::SetVolume { target: 100 } }]
    );
    let reply = b.on_sink_info(4, SinkPurpose::SetVolume { target: 100 }, 2, output(4, 20, true, "x"));
    assert_eq!(reply.len(), 2);
    assert!(matches!(
        reply[0],
        BackendAction::Emit(AudioEvent::GlobalVolumeChanged { sink_index: 4, volume: 100, muted: true })
    ));
    assert_eq!(
        requests(&reply),
        vec![PulseRequest::SetSinkVolume { index: 4, channels: 2, percent: 100 }]
    );
    let second = b.on_command(AudioCmd::SetGlobalVolume { sink_index: 4, volume: 30 });
    assert!(matches!(
        second[0],
        BackendAction::Emit(AudioEvent::GlobalVolumeChanged { sink_index: 4, volume: 30, muted: false })
    ));
    assert_eq!(requests(&second), vec![PulseRequest::SetSinkVolume { index: 4, channels: 2, percent: 30 }]);
    b.on_sink_input_info(9, InputPurpose::Report { initial: true }, 0, output(9, 10, false, "a"));
    assert!(b.on_command(AudioCmd::SetAppVolume { sink_input_index: 9, volume: 10 }).is_empty());
    let toggle = b.on_sink_input_info(7, InputPurpose::ToggleMute, 2, output(7, 10, true, "a"));
    assert_eq!(requests(&toggle), vec![PulseRequest::SetSinkInputMute { index: 7, mute: false }]);
    assert!(b.on_command(AudioCmd::AddOutput(output(1, 1, false, "z"))).is_empty());
}

#[test]
fn confirmation_updates_only_mute() {
    let mut slot = VolumeSlot::new();
    let v = slot.set_locally(60);
    assert_eq!(slot.pending, Pending::PendingConfirmation(60));
    let moved = slot.on_changed(v, true);
    assert!(!moved);
    assert_eq!(slot, VolumeSlot { volume: 60, muted: true, pending: Pending::Idle });

    slot.set_locally(70);
    let moved = slot.on_changed(65, false);
    assert!(moved);
    assert_eq!(slot, VolumeSlot { volume: 65, muted: false, pending: Pending::Idle });
    slot.on_received(180, true);
    assert_eq!(slot, VolumeSlot { volume: 100, muted: true, pending: Pending::Idle });
}

#[test]
fn indicator_and_labels() {
    let mut slot = VolumeSlot::new();
    slot.on_received(7, false);
    assert_eq!(slot.indicator_text(), "VOL 7%");
    assert_eq!(slot.mute_label(), "Mute");
    slot.on_received(7, true);
    assert_eq!(slot.indicator_text(), "MUTE");
    assert_eq!(slot.mute_label(), "Unmute");
    assert_eq!(decimal_text(0), "0");
    assert_eq!(decimal_text(1234567890), "1234567890");
}

#[test]
fn mixer_reconciles_app_volumes() {
    let mut m = Mixer::new();
    assert!(m.set_global_volume(50).is_none());
    m.handle_event(AudioEvent::GlobalVolumeReceived { sink_index: 2, volume: 40, muted: false });
    assert!(matches!(m.set_global_volume(-3), Some(AudioCmd::SetGlobalVolume { sink_index: 2, volume: 0 })));
    assert!(matches!(m.toggle_global_mute(), Some(AudioCmd::ToggleGlobalMute { sink_index: 2 })));
    let r = m.handle_event(AudioEvent::GlobalVolumeChanged { sink_index: 2, volume: 0, muted: true });
    assert_eq!(r, MixerUpdate::Global { moved: false });
    assert_eq!(m.global, VolumeSlot { volume: 0, muted: true, pending: Pending::Idle });

    m.handle_event(AudioEvent::AppsListUpdated { apps: vec![output(5, 120, false, "mpv"), output(6, 10, true, "fx")] });
    assert_eq!(m.apps.len(), 2);
    assert_eq!((m.apps[0].index, m.apps[0].volume, m.apps[0].muted), (5, 100, false));
    assert_eq!(m.apps[0].name, "mpv");
    assert!(matches!(m.set_app_volume(5, 30), AudioCmd::SetAppVolume { sink_input_index: 5, volume: 30 }));
    let r = m.handle_event(AudioEvent::AppVolumeChanged {
        sink_input_index: 5,
        volume: 30,
        muted: true,
        app_name: String::new(),
    });
    assert_eq!(r, MixerUpdate::App { index: 5, moved: false });
    assert_eq!((m.apps[0].volume, m.apps[0].muted), (100, true));
    let r = m.handle_event(AudioEvent::AppVolumeChanged {
        sink_input_index: 5,
        volume: 30,
        muted: false,
        app_name: String::new(),
    });
    assert_eq!(r, MixerUpdate::App { index: 5, moved: true });
    assert_eq!((m.apps[0].volume, m.apps[0].muted), (30, false));
    assert!(matches!(m.toggle_app_mute(6), AudioCmd::ToggleAppMute { sink_input_index: 6 }));
}

#[test]
fn endpoint_descriptions() {
    let o = OutputInfo {
        index: 3,
        sink: 1,
        client: Some(12),
        mute: false,
        name: "playback".to_string(),
        app_name: "mpv".to_string(),
        volume_level: 55,
    };
    assert_eq!(
        o.describe(),
        "OutputInfo { index: 3, sink: 1, client: Some(12), mute: false, name: playback, app_name: mpv, volume_level: 55 }"
    );
    let d = DeviceInfo::from_sink_parts(0, true, None, None, 0x10000);
    assert_eq!(
        d.describe(),
        "OutputInfo { index: 0, sink: 0, client: None, mute: true, name: Unknown, app_name: Unknown, volume_level: 100 }"
    );
}

#[test]
fn signed_numbers() {
    assert_eq!(signed_decimal_text(-98), "-98");
    assert_eq!(signed_decimal_text(0), "0");
    assert_eq!(signed_decimal_text(i128::MIN), i128::MIN.to_string());
    assert_eq!(decimal_text(u128::MAX), u128::MAX.to_string());
}
