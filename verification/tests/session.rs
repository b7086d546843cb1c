//! Whole sessions, event by event.

use qsonaut_hostbridge::alsa::{stable_audio_id, AlsaAudioOutput, AlsaAudioSource, ProbedCard};
use qsonaut_hostbridge::audio::AudioSink;
use qsonaut_hostbridge::bridge::{show_devices, HostBridge, HostConfig, StaticAuthorizer};
use qsonaut_hostbridge::media::{
    AudioCodec, AudioFrame, CaptureStream, MediaDirection, MediaFrameHeader,
};
use qsonaut_hostbridge::protocol::{
    radio_state, AudioFormat, ClientHello, ClientMessage, ControlCapability, ControlValue,
    RadioCapabilities, RadioDriver, RadioMode, RadioRequest, RadioState, ServerMessage,
    TunerStatus, PROTOCOL_VERSION,
};
use qsonaut_hostbridge::radio::{
    add_radio_entry, ConfiguredRadioProvider, RadioFactory, RadioProvider,
};
use qsonaut_hostbridge::session::{Action, Event, Session, SessionEnd};

struct Speaker {
    played: usize,
}

impl AudioSink for Speaker {
    fn try_submit(&mut self, frame: AudioFrame) -> Result<(), String> {
        self.played += frame.pcm_s16le.len();
        Ok(())
    }
}

type Host = HostBridge<
    ConfiguredRadioProvider<RadioFactory>,
    AlsaAudioSource,
    Speaker,
    AlsaAudioOutput,
    StaticAuthorizer,
>;

const SECOND: u64 = 1_000_000_000;
const CARD: &str = "hw:CARD=CODEC,DEV=0";

fn radios() -> ConfiguredRadioProvider<RadioFactory> {
    let mut entries = Vec::new();
    add_radio_entry(&mut entries, "usb-a".into(), "/dev/serial/by-id/usb-a".into());
    add_radio_entry(&mut entries, "usb-b".into(), "/dev/serial/by-id/usb-b".into());
    ConfiguredRadioProvider::new(entries)
}

fn cards() -> Vec<ProbedCard> {
    vec![ProbedCard { line: CARD.into(), channels: Some(1) }]
}

fn config() -> HostConfig {
    HostConfig { bind: "127.0.0.1:8765".into(), host_name: "Shack".into() }
}

fn authorizer() -> StaticAuthorizer {
    StaticAuthorizer::new("station".into(), "secret".into())
}

fn host() -> Host {
    HostBridge::new_with_audio_output(
        config(),
        radios(),
        Some(AlsaAudioSource::new(&cards())),
        Some(AlsaAudioOutput::new(&cards())),
        authorizer(),
    )
}

fn mono() -> AudioFormat {
    AudioFormat { codec: AudioCodec::PcmS16Le, channels: 1, sample_rate_hz: 48_000 }
}

fn hello(version: u32) -> ClientMessage {
    ClientMessage::Hello(ClientHello {
        protocol_version: version,
        client_name: "phone".into(),
        access_key: "station".into(),
        password: "secret".into(),
    })
}

fn text(message: ClientMessage) -> Event {
    Event::Text { now: 3 * SECOND, message: Ok(message) }
}

fn id(name: &str) -> Option<String> {
    Some(name.to_owned())
}

fn icom() -> RadioRequest {
    RadioRequest {
        driver: RadioDriver::IcomCiv,
        model: Some("IC-7300".into()),
        baud_rate: None,
        radio_address: None,
    }
}

fn abilities() -> RadioCapabilities {
    RadioCapabilities {
        can_get_frequency: true,
        can_set_frequency: true,
        can_get_mode: true,
        can_set_mode: true,
        can_get_ptt: false,
        can_set_ptt: true,
        controls: vec![
            ControlCapability { id: "AfGain".into(), readable: true, writable: false },
            ControlCapability { id: "RfPower".into(), readable: false, writable: true },
        ],
        meters: vec!["signal".into()],
        tuner: true,
    }
}

fn select(name: &str, device: &str) -> Event {
    text(ClientMessage::SelectRadio {
        request_id: id(name),
        device_id: device.to_owned(),
        request: icom(),
    })
}

fn ack(name: &str) -> Action {
    Action::Send(ServerMessage::Ack { request_id: id(name) })
}

fn error(code: &str, message: &str, request_id: Option<String>) -> Action {
    Action::Send(ServerMessage::Error { code: code.into(), message: message.into(), request_id })
}

fn failed(reason: &str) -> Action {
    Action::Close(SessionEnd::Failed(reason.into()))
}

/// A session whose client was let in.
fn ready(host: &mut Host) -> Session {
    let mut session = Session::new();
    session.step(host, text(hello(PROTOCOL_VERSION)));
    session.authorize(host, 2 * SECOND);
    session
}

fn closed_with(outcome: (Session, Vec<Action>), reason: &str) {
    assert!(outcome.0.is_closed());
    assert_eq!(outcome.1, vec![failed(reason)]);
}

/// A session that has a radio.
fn tuned(host: &mut Host, device: &str) -> Session {
    let mut session = ready(host);
    session.step(host, select("r", device));
    session.step(host, Event::RadioOpened(Ok(())));
    session.step(host, Event::RadioDescribed(abilities()));
    session.step(host, Event::RadioRead(RadioState::default()));
    session
}

fn in_use(host: &Host) -> Vec<bool> {
    host.radios().devices().iter().map(|d| d.in_use).collect()
}

fn client_frame(pcm: &[u8]) -> Vec<u8> {
    let header = MediaFrameHeader {
        version: 1,
        stream_id: 1,
        direction: MediaDirection::ClientToHost,
        codec: AudioCodec::PcmS16Le,
        sequence: 0,
        timestamp_samples: 0,
        sample_rate_hz: 48_000,
        channels: 1,
        payload_bytes: pcm.len() as u32,
    };
    let mut bytes = Vec::new();
    header.encode(&mut bytes);
    bytes.extend_from_slice(pcm);
    bytes
}

#[test]
fn admitted_client_gets_the_catalog() {
    let mut host = host();
    let mut session = Session::new();
    let asked = session.step(&mut host, text(hello(PROTOCOL_VERSION)));
    assert_eq!(
        asked,
        vec![Action::Authorize { key: "station".into(), password: "secret".into() }]
    );
    let greeted = session.authorize(&mut host, SECOND);
    assert_eq!(greeted.len(), 1);
    match &greeted[0] {
        Action::Send(ServerMessage::Hello(hello)) => {
            assert_eq!(hello.protocol_version, PROTOCOL_VERSION);
            assert_eq!(hello.host_name, "Shack");
            assert!(hello.capabilities.radio_control);
            assert_eq!(hello.capabilities.radio_devices.len(), 2);
            assert!(hello.capabilities.audio_capture);
            assert!(hello.capabilities.audio_playback);
            assert_eq!(hello.capabilities.media_codecs, vec![AudioCodec::PcmS16Le]);
            assert_eq!(hello.capabilities.audio_sources.len(), 1);
            assert_eq!(hello.capabilities.audio_outputs.len(), 1);
        }
        other => panic!("{other:?}"),
    }
}

#[test]
fn first_message_decides() {
    let mut host = host();
    let (mut session, actions) = host.handle(text(hello(PROTOCOL_VERSION)), SECOND);
    assert!(matches!(actions[..], [Action::Send(ServerMessage::Hello(_))]));
    assert_eq!(
        session.step(&mut host, text(ClientMessage::Ping { nonce: 9 })),
        vec![Action::Send(ServerMessage::Pong { nonce: 9 })]
    );
    let unauthorized = "unauthorized HostBridge client";
    closed_with(host.handle(text(hello(PROTOCOL_VERSION + 1)), SECOND), unauthorized);
    let wrong = ClientMessage::Hello(ClientHello {
        protocol_version: PROTOCOL_VERSION,
        client_name: "phone".into(),
        access_key: "other".into(),
        password: "secret".into(),
    });
    closed_with(host.handle(text(wrong), SECOND), unauthorized);
    closed_with(
        host.handle(text(ClientMessage::GetState { request_id: None }), SECOND),
        "first message must be hello",
    );
    closed_with(host.handle(Event::PeerClosed, SECOND), "client closed before hello");
    assert_eq!(in_use(&host), vec![false, false]);
}

#[test]
fn announced_operations_reach_the_radio() {
    let mut host = host();
    let mut session = tuned(&mut host, "usb-a");
    let meter = |id: &str| ClientMessage::GetMeter { request_id: Some("m".into()), meter_id: id.into() };
    assert_eq!(
        session.step(&mut host, text(meter("signal"))),
        vec![Action::ReadMeter("signal".into())]
    );
    assert_eq!(
        session.step(&mut host, Event::MeterRead(Ok(Some(120)))),
        vec![Action::Send(ServerMessage::MeterValue {
            request_id: id("m"),
            meter_id: "signal".into(),
            level: Some(120)
        })]
    );
    session.step(&mut host, text(meter("signal")));
    assert_eq!(
        session.step(&mut host, Event::MeterRead(Err("timeout".into()))),
        vec![error("request_failed", "timeout", id("m"))]
    );
    let read = ClientMessage::GetControl { request_id: id("c"), control_id: "AfGain".into() };
    assert_eq!(
        session.step(&mut host, text(read)),
        vec![Action::ReadControl("AfGain".into())]
    );
    assert_eq!(
        session.step(&mut host, Event::ControlRead(Ok(Some(ControlValue::U8(3))))),
        vec![Action::Send(ServerMessage::ControlValue {
            request_id: id("c"),
            control_id: "AfGain".into(),
            value: Some(ControlValue::U8(3))
        })]
    );
    let write = ClientMessage::SetControl {
        request_id: id("w"),
        control_id: "RfPower".into(),
        value: ControlValue::U8(128),
    };
    assert_eq!(
        session.step(&mut host, text(write)),
        vec![Action::WriteControl { control_id: "RfPower".into(), value: ControlValue::U8(128) }]
    );
    assert_eq!(session.step(&mut host, Event::RadioDone(Ok(()))), vec![ack("w")]);
    let status = ClientMessage::GetTunerStatus { request_id: id("t") };
    assert_eq!(session.step(&mut host, text(status)), vec![Action::ReadTuner]);
    let tuning = TunerStatus { enabled: true, tuning: false };
    assert_eq!(
        session.step(&mut host, Event::TunerRead(Ok(Some(tuning)))),
        vec![Action::Send(ServerMessage::TunerStatus {
            request_id: id("t"),
            status: Some(tuning)
        })]
    );
    let start = ClientMessage::StartTuner { request_id: id("s") };
    assert_eq!(session.step(&mut host, text(start)), vec![Action::StartTuner]);
    assert_eq!(session.step(&mut host, Event::RadioDone(Ok(()))), vec![ack("s")]);
}

#[test]
fn other_operations_are_refused() {
    let mut host = host();
    let mut session = tuned(&mut host, "usb-a");
    let meter = || ClientMessage::GetMeter { request_id: id("q"), meter_id: "swr".into() };
    let read = || ClientMessage::GetControl { request_id: id("q"), control_id: "RfPower".into() };
    let write = || ClientMessage::SetControl {
        request_id: id("q"),
        control_id: "AfGain".into(),
        value: ControlValue::Bool(true),
    };
    for (message, reason) in [
        (meter(), "meter is unavailable on the selected radio"),
        (read(), "control is not readable on the selected radio"),
        (write(), "control is not writable on the selected radio"),
    ] {
        assert_eq!(
            session.step(&mut host, text(message)),
            vec![error("request_failed", reason, id("q"))]
        );
    }
    let mut plain = ready(&mut host);
    for message in [
        meter(),
        read(),
        write(),
        ClientMessage::GetTunerStatus { request_id: id("q") },
        ClientMessage::StartTuner { request_id: id("q") },
    ] {
        assert_eq!(
            plain.step(&mut host, text(message)),
            vec![error("request_failed", "select a radio first", id("q"))]
        );
    }
    plain.step(&mut host, select("r", "usb-b"));
    plain.step(&mut host, Event::RadioOpened(Ok(())));
    let untuned = RadioCapabilities { tuner: false, ..abilities() };
    plain.step(&mut host, Event::RadioDescribed(untuned));
    plain.step(&mut host, Event::RadioRead(RadioState::default()));
    for message in [
        ClientMessage::GetTunerStatus { request_id: id("q") },
        ClientMessage::StartTuner { request_id: id("q") },
    ] {
        assert_eq!(
            plain.step(&mut host, text(message)),
            vec![error(
                "request_failed",
                "antenna tuner is unavailable on the selected radio",
                id("q")
            )]
        );
    }
}

#[test]
fn session_numbers_are_random_uuids() {
    let number = |host: &mut Host| {
        let mut session = Session::new();
        session.step(host, text(hello(PROTOCOL_VERSION)));
        match &session.authorize(host, 0)[0] {
            Action::Send(ServerMessage::Hello(hello)) => hello.session_id,
            other => panic!("{other:?}"),
        }
    };
    let mut host = host();
    let (first, second) = (number(&mut host), number(&mut host));
    assert_ne!(first, second);
    for id in [first, second] {
        assert_eq!((id >> 76) & 0xF, 4);
        assert_eq!((id >> 62) & 0b11, 0b10);
    }
}

#[test]
fn strangers_are_dropped_without_a_word() {
    let mut host = host();
    let refused = vec![failed("unauthorized HostBridge client")];
    let mut session = Session::new();
    assert_eq!(session.step(&mut host, text(hello(PROTOCOL_VERSION + 1))), refused);
    let wrong = ClientMessage::Hello(ClientHello {
        protocol_version: PROTOCOL_VERSION,
        client_name: "phone".into(),
        access_key: "station".into(),
        password: "wrong".into(),
    });
    let mut session = Session::new();
    assert!(session.authorize(&mut host, 0).is_empty());
    session.step(&mut host, text(wrong));
    assert_eq!(session.authorize(&mut host, 0), refused);
    assert!(session.is_closed());
    let mut session = Session::new();
    assert_eq!(
        session.step(&mut host, text(ClientMessage::Ping { nonce: 1 })),
        vec![failed("first message must be hello")]
    );
    let mut session = Session::new();
    assert_eq!(
        session.step(&mut host, Event::Text { now: 0, message: Err("expected value".into()) }),
        vec![failed("expected value")]
    );
    for event in [
        Event::OtherFrame,
        Event::PeerClosed,
        Event::Binary { now: 0, bytes: vec![1] },
        Event::TransportFailed("reset".into()),
    ] {
        let mut session = Session::new();
        assert_eq!(session.step(&mut host, event), vec![failed("client closed before hello")]);
    }
}

#[test]
fn host_without_audio_offers_none() {
    let mut host: Host =
        HostBridge::new(config(), ConfiguredRadioProvider::new(Vec::new()), None, authorizer());
    assert_eq!(host.bind(), "127.0.0.1:8765");
    let capabilities = host.capabilities();
    assert!(!capabilities.radio_control);
    assert!(!capabilities.audio_capture);
    assert!(!capabilities.audio_playback);
    assert!(capabilities.media_codecs.is_empty());
    let mut session = ready(&mut host);
    let capture = ClientMessage::SelectAudio {
        request_id: id("c"),
        enabled: true,
        source_id: "s".into(),
        format: mono(),
    };
    assert_eq!(
        session.step(&mut host, text(capture)),
        vec![error("request_failed", "audio capture is unavailable", id("c"))]
    );
    let playback = ClientMessage::SelectAudioOutput {
        request_id: None,
        enabled: true,
        output_id: "o".into(),
        format: mono(),
    };
    assert_eq!(
        session.step(&mut host, text(playback)),
        vec![error("request_failed", "audio playback is unavailable", None)]
    );
}

#[test]
fn fixed_sink_is_selected_from_the_start() {
    let mut host: Host = HostBridge::new_with_audio_sink(
        config(),
        radios(),
        None,
        Some(Speaker { played: 0 }),
        authorizer(),
    );
    assert!(host.capabilities().audio_playback);
    assert_eq!(host.capabilities().media_codecs, vec![AudioCodec::PcmS16Le]);
    let mut session = ready(&mut host);
    let actions =
        session.step(&mut host, Event::Binary { now: SECOND, bytes: client_frame(&[1, 2]) });
    assert_eq!(actions.len(), 1);
    for action in actions {
        match action {
            Action::Submit(frame) => host.sink().unwrap().try_submit(frame).unwrap(),
            other => panic!("{other:?}"),
        }
    }
    assert_eq!(host.sink().unwrap().played, 2);
}

#[test]
fn selecting_reserves_opens_and_reports_capabilities_and_state() {
    let mut host = host();
    let mut session = ready(&mut host);
    assert_eq!(
        session.step(&mut host, select("q1", "usb-b")),
        vec![Action::OpenRadio { place: 1, device_id: "usb-b".into(), request: icom() }]
    );
    assert_eq!(in_use(&host), vec![false, true]);
    assert_eq!(
        session.step(&mut host, Event::RadioOpened(Ok(()))),
        vec![ack("q1"), Action::DescribeRadio]
    );
    assert!(session.step(&mut host, Event::RadioRead(RadioState::default())).is_empty());
    assert_eq!(
        session.step(&mut host, Event::RadioDescribed(abilities())),
        vec![
            Action::Send(ServerMessage::RadioCapabilities(abilities())),
            Action::ReadRadio
        ]
    );
    let state = RadioState {
        frequency_hz: Some(14_074_000),
        mode: Some(RadioMode::Usb),
        ptt: Some(false),
    };
    assert_eq!(
        session.step(&mut host, Event::RadioRead(state)),
        vec![Action::Send(ServerMessage::State(state))]
    );
}

#[test]
fn end_while_describing_unkeys_the_radio() {
    let mut host = host();
    let mut session = ready(&mut host);
    session.step(&mut host, select("q", "usb-a"));
    session.step(&mut host, Event::RadioOpened(Ok(())));
    assert_eq!(
        session.step(&mut host, Event::SendFailed("gone".into())),
        vec![Action::ForcePttOff]
    );
    assert!(session.step(&mut host, Event::RadioDescribed(abilities())).is_empty());
    session.step(&mut host, Event::PttForcedOff);
    assert_eq!(in_use(&host), vec![false, false]);
}

#[test]
fn failed_readings_empty_only_their_own_field() {
    let failed = || "timeout".to_owned();
    assert_eq!(
        radio_state(Ok(7_074_000), Err(failed()), Ok(true)),
        RadioState { frequency_hz: Some(7_074_000), mode: None, ptt: Some(true) }
    );
    assert_eq!(
        radio_state(Err(failed()), Ok(RadioMode::Cw), Err(failed())),
        RadioState { frequency_hz: None, mode: Some(RadioMode::Cw), ptt: None }
    );
    assert_eq!(
        radio_state(Err(failed()), Err(failed()), Err(failed())),
        RadioState::default()
    );
}

#[test]
fn sessions_leave_the_host_as_it_was_built() {
    let mut host = host();
    let mut session = tuned(&mut host, "usb-b");
    session.step(&mut host, Event::PeerClosed);
    session.step(&mut host, Event::PttForcedOff);
    assert_eq!(host.bind(), "127.0.0.1:8765");
    assert!(host.authorize("station", "secret"));
    assert!(!host.authorize("station", "other"));
    assert_eq!(host.radios().factory(1).unwrap().path, "/dev/serial/by-id/usb-b");
    let id = stable_audio_id("capture", CARD);
    assert_eq!(host.audio().unwrap().subscribe(&id, &mono()).unwrap().device, CARD);
    let id = stable_audio_id("playback", CARD);
    assert_eq!(host.outputs().unwrap().open(&id, &mono()).unwrap().device, CARD);
}

#[test]
fn failed_opening_leaves_no_reservation() {
    let mut host = host();
    let mut session = ready(&mut host);
    session.step(&mut host, select("q", "usb-a"));
    assert_eq!(
        session.step(&mut host, Event::RadioOpened(Err("no such port".into()))),
        vec![error("request_failed", "no such port", id("q"))]
    );
    assert_eq!(in_use(&host), vec![false, false]);
}

#[test]
fn second_session_is_refused_until_the_first_ends() {
    let mut host = host();
    let mut first = tuned(&mut host, "usb-a");
    let mut second = ready(&mut host);
    assert_eq!(
        second.step(&mut host, select("x", "usb-a")),
        vec![error("request_failed", "radio device is already in use", id("x"))]
    );
    assert_eq!(
        second.step(&mut host, select("y", "usb-z")),
        vec![error("request_failed", "radio device is unavailable", id("y"))]
    );
    assert_eq!(first.step(&mut host, Event::PeerClosed), vec![Action::ForcePttOff]);
    assert_eq!(in_use(&host), vec![true, false]);
    assert_eq!(
        first.step(&mut host, Event::PttForcedOff),
        vec![Action::DropRadio, Action::Close(SessionEnd::Finished)]
    );
    assert_eq!(in_use(&host), vec![false, false]);
    assert!(first.is_closed());
    assert_eq!(second.step(&mut host, select("z", "usb-a")).len(), 1);
    assert_eq!(in_use(&host), vec![true, false]);
}

#[test]
fn switching_gives_the_old_radio_back_first() {
    let mut host = host();
    let mut session = tuned(&mut host, "usb-a");
    assert_eq!(session.step(&mut host, select("s", "usb-b")), vec![Action::ForcePttOff]);
    assert_eq!(
        session.step(&mut host, Event::PttForcedOff),
        vec![
            Action::DropRadio,
            Action::OpenRadio { place: 1, device_id: "usb-b".into(), request: icom() }
        ]
    );
    assert_eq!(in_use(&host), vec![false, true]);
    session.step(&mut host, Event::RadioOpened(Ok(())));
    session.step(&mut host, Event::RadioDescribed(abilities()));
    session.step(&mut host, Event::RadioRead(RadioState::default()));
    session.step(&mut host, select("t", "usb-b"));
    let again = session.step(&mut host, Event::PttForcedOff);
    assert_eq!(again.len(), 2);
    assert_eq!(in_use(&host), vec![false, true]);
}

#[test]
fn switching_to_nothing_loses_the_old_radio() {
    let mut host = host();
    let mut session = tuned(&mut host, "usb-a");
    session.step(&mut host, select("s", "gone"));
    assert_eq!(
        session.step(&mut host, Event::PttForcedOff),
        vec![
            Action::DropRadio,
            error("request_failed", "radio device is unavailable", id("s"))
        ]
    );
    assert_eq!(in_use(&host), vec![false, false]);
}

#[test]
fn distrusted_reservations_refuse_everyone() {
    let mut host = host();
    let mut session = ready(&mut host);
    host.poison_radios();
    assert_eq!(
        session.step(&mut host, select("s", "usb-a")),
        vec![error("request_failed", "radio reservation lock poisoned", id("s"))]
    );
    assert_eq!(in_use(&host), vec![true, true]);
}

#[test]
fn commands_need_a_radio() {
    let mut host = host();
    let mut session = ready(&mut host);
    let commands = [
        ClientMessage::SetFrequency { request_id: id("f"), frequency_hz: 7_074_000 },
        ClientMessage::SetMode { request_id: id("f"), mode: RadioMode::Lsb },
        ClientMessage::SetPtt { request_id: id("f"), enabled: true },
    ];
    for command in commands {
        assert_eq!(
            session.step(&mut host, text(command)),
            vec![error("request_failed", "select a radio first", id("f"))]
        );
    }
    assert_eq!(
        session.step(&mut host, text(ClientMessage::GetState { request_id: id("g") })),
        vec![Action::Send(ServerMessage::State(RadioState::default()))]
    );
}

#[test]
fn commands_reach_the_radio_and_are_settled() {
    let mut host = host();
    let mut session = tuned(&mut host, "usb-a");
    let tune = ClientMessage::SetFrequency { request_id: id("f"), frequency_hz: 7_074_000 };
    assert_eq!(session.step(&mut host, text(tune)), vec![Action::SetFrequency(7_074_000)]);
    assert_eq!(session.step(&mut host, Event::RadioDone(Ok(()))), vec![ack("f")]);
    let mode = ClientMessage::SetMode { request_id: id("m"), mode: RadioMode::Rtty };
    assert_eq!(session.step(&mut host, text(mode)), vec![Action::SetMode(RadioMode::Rtty)]);
    assert_eq!(
        session.step(&mut host, Event::RadioDone(Err("timeout".into()))),
        vec![error("request_failed", "timeout", id("m"))]
    );
    let key = ClientMessage::SetPtt { request_id: None, enabled: true };
    assert_eq!(session.step(&mut host, text(key)), vec![Action::SetPtt(true)]);
    assert_eq!(
        session.step(&mut host, Event::RadioDone(Ok(()))),
        vec![Action::Send(ServerMessage::Ack { request_id: None })]
    );
    assert_eq!(
        session.step(&mut host, text(ClientMessage::GetState { request_id: None })),
        vec![Action::ReadRadio]
    );
}

#[test]
fn capture_is_opt_in() {
    let mut host = host();
    let mut session = ready(&mut host);
    let mut stream = CaptureStream::new(9, 1);
    let ignored = session.step(&mut host, Event::CaptureFrame(stream.next_frame(vec![0; 4])));
    assert!(ignored.is_empty());
    let source = stable_audio_id("capture", CARD);
    let select = |source_id: &str, format: AudioFormat, enabled: bool| {
        text(ClientMessage::SelectAudio {
            request_id: id("c"),
            enabled,
            source_id: source_id.to_owned(),
            format,
        })
    };
    assert_eq!(
        session.step(&mut host, select("other", mono(), true)),
        vec![error("request_failed", "audio source is unavailable", id("c"))]
    );
    let stereo = AudioFormat { channels: 2, ..mono() };
    assert_eq!(
        session.step(&mut host, select(&source, stereo, true)),
        vec![error(
            "request_failed",
            "requested format is unavailable for audio source",
            id("c")
        )]
    );
    assert_eq!(
        session.step(&mut host, select(&source, mono(), true)),
        vec![Action::StartCapture { source_id: source.clone(), format: mono() }]
    );
    assert_eq!(session.step(&mut host, Event::CaptureStarted(Ok(()))), vec![ack("c")]);
    assert!(session.captures());
    let sent = session.step(&mut host, Event::CaptureFrame(stream.next_frame(vec![7; 4])));
    match &sent[..] {
        [Action::SendMedia(bytes)] => assert_eq!(&bytes[32..], &[7, 7, 7, 7]),
        other => panic!("{other:?}"),
    }
    assert_eq!(
        session.step(&mut host, Event::CaptureLagged(12)),
        vec![error(
            "media_frames_dropped",
            "audio consumer fell behind; dropped 12 frames",
            None
        )]
    );
    let large = stream.next_frame(vec![0; 1_048_577]);
    assert_eq!(
        session.step(&mut host, Event::CaptureFrame(large)),
        vec![error(
            "media_frame_too_large",
            "audio frame exceeds the HostBridge limit",
            None
        )]
    );
    assert_eq!(
        session.step(&mut host, select("", mono(), false)),
        vec![Action::StopCapture, ack("c")]
    );
    assert!(!session.captures());
}

#[test]
fn capture_that_ends_or_fails_is_forgotten_or_reported() {
    let mut host = host();
    let mut session = ready(&mut host);
    let start = |source_id: String| {
        text(ClientMessage::SelectAudio {
            request_id: id("c"),
            enabled: true,
            source_id,
            format: mono(),
        })
    };
    session.step(&mut host, start(stable_audio_id("capture", CARD)));
    assert_eq!(
        session.step(&mut host, Event::CaptureStarted(Err("busy".into()))),
        vec![error("request_failed", "busy", id("c"))]
    );
    assert!(!session.captures());
    session.step(&mut host, start(stable_audio_id("capture", CARD)));
    session.step(&mut host, Event::CaptureStarted(Ok(())));
    assert!(session.step(&mut host, Event::CaptureClosed).is_empty());
    assert!(!session.captures());
}

#[test]
fn playback_is_selected_and_fed() {
    let mut host = host();
    let mut session = ready(&mut host);
    let output = stable_audio_id("playback", CARD);
    let select = |output_id: &str, format: AudioFormat, enabled: bool| {
        text(ClientMessage::SelectAudioOutput {
            request_id: id("p"),
            enabled,
            output_id: output_id.to_owned(),
            format,
        })
    };
    let frame = || Event::Binary { now: 4 * SECOND, bytes: client_frame(&[1, 2, 3, 4]) };
    assert_eq!(
        session.step(&mut host, frame()),
        vec![error("media_failed", "select an audio output first", None)]
    );
    assert_eq!(
        session.step(&mut host, select("other", mono(), true)),
        vec![error("request_failed", "audio output is unavailable", id("p"))]
    );
    let stereo = AudioFormat { channels: 2, ..mono() };
    assert_eq!(
        session.step(&mut host, select(&output, stereo, true)),
        vec![error(
            "request_failed",
            "requested format is unavailable for audio output",
            id("p")
        )]
    );
    assert_eq!(
        session.step(&mut host, select(&output, mono(), true)),
        vec![Action::OpenOutput { output_id: output.clone(), format: mono() }]
    );
    assert_eq!(session.step(&mut host, Event::OutputOpened(Ok(()))), vec![ack("p")]);
    match &session.step(&mut host, frame())[..] {
        [Action::Submit(frame)] => assert_eq!(frame.pcm_s16le, vec![1, 2, 3, 4]),
        other => panic!("{other:?}"),
    }
    assert!(session.step(&mut host, Event::FrameSubmitted(Ok(()))).is_empty());
    session.step(&mut host, frame());
    assert_eq!(
        session.step(&mut host, Event::FrameSubmitted(Err("queue is full".into()))),
        vec![error("media_failed", "queue is full", None)]
    );
    assert_eq!(
        session.step(&mut host, select("", mono(), false)),
        vec![Action::CloseOutput, ack("p")]
    );
    assert_eq!(
        session.step(&mut host, frame()),
        vec![error("media_failed", "select an audio output first", None)]
    );
    session.step(&mut host, select(&output, mono(), true));
    assert_eq!(
        session.step(&mut host, Event::OutputOpened(Err("device busy".into()))),
        vec![error("request_failed", "device busy", id("p"))]
    );
    assert_eq!(
        session.step(&mut host, frame()),
        vec![error("media_failed", "select an audio output first", None)]
    );
}

#[test]
fn signs_of_life_are_counted_and_answered() {
    let mut host = host();
    let mut session = ready(&mut host);
    assert_eq!(
        session.step(&mut host, Event::Tick { now: 2 * SECOND }),
        vec![Action::Send(ServerMessage::Ping { nonce: 1 })]
    );
    assert_eq!(
        session.step(&mut host, Event::Tick { now: 47 * SECOND }),
        vec![Action::Send(ServerMessage::Ping { nonce: 2 })]
    );
    assert_eq!(
        session.step(&mut host, text(ClientMessage::Ping { nonce: 77 })),
        vec![Action::Send(ServerMessage::Pong { nonce: 77 })]
    );
    assert!(session.step(&mut host, text(ClientMessage::Pong { nonce: 2 })).is_empty());
    assert!(session.step(&mut host, Event::OtherFrame).is_empty());
    assert_eq!(
        session.step(&mut host, Event::Tick { now: 48 * SECOND + 1 }),
        vec![failed("client heartbeat timed out")]
    );
    assert!(session.is_closed());
}

#[test]
fn silence_unkeys_the_radio_before_the_end() {
    let mut host = host();
    let mut session = tuned(&mut host, "usb-a");
    assert_eq!(
        session.step(&mut host, Event::Tick { now: 100 * SECOND }),
        vec![Action::ForcePttOff]
    );
    assert!(!session.is_closed());
    assert_eq!(
        session.step(&mut host, Event::PttForcedOff),
        vec![Action::DropRadio, failed("client heartbeat timed out")]
    );
    assert_eq!(in_use(&host), vec![false, false]);
    assert!(session.step(&mut host, Event::PttForcedOff).is_empty());
    assert!(session.step(&mut host, Event::Shutdown).is_empty());
}

#[test]
fn every_way_out_unkeys_the_radio() {
    for (event, end) in [
        (Event::PeerClosed, SessionEnd::Finished),
        (Event::Shutdown, SessionEnd::Finished),
        (Event::SendFailed("broken pipe".into()), SessionEnd::Failed("broken pipe".into())),
        (Event::TransportFailed("reset".into()), SessionEnd::Failed("reset".into())),
    ] {
        let mut host = host();
        let mut session = tuned(&mut host, "usb-a");
        assert_eq!(session.step(&mut host, event), vec![Action::ForcePttOff]);
        assert_eq!(
            session.step(&mut host, Event::PttForcedOff),
            vec![Action::DropRadio, Action::Close(end)]
        );
        assert_eq!(in_use(&host), vec![false, false]);
    }
}

#[test]
fn ending_is_not_disturbed() {
    let mut host = host();
    let mut session = tuned(&mut host, "usb-a");
    session.step(&mut host, Event::TransportFailed("reset".into()));
    let key = ClientMessage::SetPtt { request_id: None, enabled: true };
    assert!(session.step(&mut host, text(key)).is_empty());
    assert!(session.step(&mut host, Event::PeerClosed).is_empty());
    assert!(session.step(&mut host, Event::RadioDone(Ok(()))).is_empty());
    assert_eq!(in_use(&host), vec![true, false]);
    assert_eq!(
        session.step(&mut host, Event::PttForcedOff),
        vec![Action::DropRadio, failed("reset")]
    );
    assert_eq!(in_use(&host), vec![false, false]);
}

#[test]
fn end_during_opening_gives_the_radio_back() {
    let mut host = host();
    let mut session = ready(&mut host);
    session.step(&mut host, select("s", "usb-a"));
    assert_eq!(in_use(&host), vec![true, false]);
    assert_eq!(
        session.step(&mut host, Event::Shutdown),
        vec![Action::Close(SessionEnd::Finished)]
    );
    assert_eq!(in_use(&host), vec![false, false]);
}

#[test]
fn unreadable_messages_are_harmless() {
    let mut host = host();
    let mut session = tuned(&mut host, "usb-a");
    assert_eq!(
        session.step(&mut host, Event::Text { now: 5, message: Err("unknown variant".into()) }),
        vec![error("request_failed", "unknown variant", None)]
    );
    assert_eq!(
        session.step(&mut host, text(hello(PROTOCOL_VERSION))),
        vec![error(
            "already_authenticated",
            "hello is only valid as the first message",
            None
        )]
    );
    assert_eq!(
        session.step(&mut host, Event::Binary { now: 5, bytes: vec![1, 2] }),
        vec![error("media_failed", "media frame is shorter than its header", None)]
    );
    assert_eq!(in_use(&host), vec![true, false]);
}

#[test]
fn reconnecting_starts_over() {
    let mut host = host();
    let mut first = tuned(&mut host, "usb-a");
    first.step(&mut host, Event::PeerClosed);
    first.step(&mut host, Event::PttForcedOff);
    let mut second = ready(&mut host);
    assert!(!second.captures());
    let key = ClientMessage::SetPtt { request_id: id("k"), enabled: true };
    assert_eq!(
        second.step(&mut host, text(key)),
        vec![error("request_failed", "select a radio first", id("k"))]
    );
}

#[test]
fn device_report_counts_what_was_found() {
    let found = show_devices(
        &radios(),
        &AlsaAudioSource::new(&cards()),
        &AlsaAudioOutput::new(&Vec::new()),
    );
    assert!(found.radio_control);
    assert!(found.audio_capture);
    assert!(!found.audio_playback);
    assert_eq!(found.media_codecs, vec![AudioCodec::PcmS16Le]);
    let nothing = show_devices(
        &ConfiguredRadioProvider::<RadioFactory>::new(Vec::new()),
        &AlsaAudioSource::new(&Vec::new()),
        &AlsaAudioOutput::new(&Vec::new()),
    );
    assert!(!nothing.radio_control);
    assert!(!nothing.audio_capture);
    assert!(nothing.media_codecs.is_empty());
}
