//! One client's session, as a machine that takes what has happened and says
//! what is to be done.

use crate::audio::{AudioOutputProvider, AudioSink, AudioSource};
use crate::bridge::{Authorizer, HostBridge, HostView};
use crate::media::{dispatch_binary, package_frame, packaged, received, AudioFrame, AudioFrameView};
use crate::protocol::{
    find_output, find_source, has_format, opt_value, output_ids, source_ids, AudioFormat,
    ClientMessage, ControlValue, ControlValueView, RadioCapabilities, RadioCapabilitiesView,
    RadioMode, RadioRequest, RadioState, ServerMessage, ServerMessageView, TunerStatus,
    PROTOCOL_VERSION,
};
use crate::radio::{RadioCatalogView, RadioProvider};
use crate::safety::{
    held, law_first_message_decides, law_new_session_holds_nothing,
    law_nothing_is_acquired_before_admission,
};
use crate::text::{decimal, decimal_text, opt_text, place_of};
use vstd::prelude::*;

verus! {

/// How long a client may stay silent.
pub const SILENCE_LIMIT_NANOS: u64 = 45_000_000_000;

/// How often the host asks for a sign of life.
pub const HEARTBEAT_SECONDS: u64 = 15;

/// How a session ended.
#[derive(Debug, PartialEq, Eq)]
pub enum SessionEnd {
    Finished,
    Failed(String),
}

#[verifier::ext_equal]
pub enum SessionEndView {
    Finished,
    Failed(Seq<char>),
}

impl View for SessionEnd {
    type V = SessionEndView;

    open spec fn view(&self) -> SessionEndView {
        match self {
            SessionEnd::Finished => SessionEndView::Finished,
            SessionEnd::Failed(reason) => SessionEndView::Failed(reason@),
        }
    }
}

/// What a session waits for.
enum Phase {
    AwaitHello,
    Authorizing { key: String, password: String },
    Ready,
    Switching { request_id: Option<String>, device_id: String, request: RadioRequest },
    Opening { request_id: Option<String>, device_id: String },
    Describing,
    Announcing,
    Reading,
    Commanding { request_id: Option<String> },
    Metering { request_id: Option<String>, meter_id: String },
    Inspecting { request_id: Option<String>, control_id: String },
    CheckingTuner { request_id: Option<String> },
    StartingCapture { request_id: Option<String> },
    OpeningOutput { request_id: Option<String> },
    Submitting,
    Closing { end: SessionEnd },
    Closed,
}

/// What a session waits for.
#[verifier::ext_equal]
pub enum PhaseView {
    /// The greeting of the client.
    AwaitHello,
    /// The decision whether the client is admitted.
    Authorizing { key: Seq<char>, password: Seq<char> },
    /// The next message.
    Ready,
    /// The old radio to stop transmitting before another is selected.
    Switching { request_id: Option<Seq<char>>, device_id: Seq<char>, request: RadioRequest },
    /// The reserved radio to open.
    Opening { request_id: Option<Seq<char>>, device_id: Seq<char> },
    /// What the radio that has just been selected can do.
    Describing,
    /// The state of the radio that has just been selected.
    Announcing,
    /// The state of the radio that a client asked for.
    Reading,
    /// The radio to carry out a command.
    Commanding { request_id: Option<Seq<char>> },
    /// The reading of a meter.
    Metering { request_id: Option<Seq<char>>, meter_id: Seq<char> },
    /// The value of a control.
    Inspecting { request_id: Option<Seq<char>>, control_id: Seq<char> },
    /// What the antenna tuner does.
    CheckingTuner { request_id: Option<Seq<char>> },
    /// A capture to start.
    StartingCapture { request_id: Option<Seq<char>> },
    /// An output to open.
    OpeningOutput { request_id: Option<Seq<char>> },
    /// The output to take a frame.
    Submitting,
    /// The radio to stop transmitting before the session ends.
    Closing { end: SessionEndView },
    /// Nothing: the session is over.
    Closed,
}

impl Phase {
    spec fn view(&self) -> PhaseView {
        match self {
            Phase::AwaitHello => PhaseView::AwaitHello,
            Phase::Authorizing { key, password } => PhaseView::Authorizing {
                key: key@,
                password: password@,
            },
            Phase::Ready => PhaseView::Ready,
            Phase::Switching { request_id, device_id, request } => PhaseView::Switching {
                request_id: opt_text(*request_id),
                device_id: device_id@,
                request: *request,
            },
            Phase::Opening { request_id, device_id } => PhaseView::Opening {
                request_id: opt_text(*request_id),
                device_id: device_id@,
            },
            Phase::Describing => PhaseView::Describing,
            Phase::Announcing => PhaseView::Announcing,
            Phase::Reading => PhaseView::Reading,
            Phase::Commanding { request_id } => PhaseView::Commanding {
                request_id: opt_text(*request_id),
            },
            Phase::Metering { request_id, meter_id } => PhaseView::Metering {
                request_id: opt_text(*request_id),
                meter_id: meter_id@,
            },
            Phase::Inspecting { request_id, control_id } => PhaseView::Inspecting {
                request_id: opt_text(*request_id),
                control_id: control_id@,
            },
            Phase::CheckingTuner { request_id } => PhaseView::CheckingTuner {
                request_id: opt_text(*request_id),
            },
            Phase::StartingCapture { request_id } => PhaseView::StartingCapture {
                request_id: opt_text(*request_id),
            },
            Phase::OpeningOutput { request_id } => PhaseView::OpeningOutput {
                request_id: opt_text(*request_id),
            },
            Phase::Submitting => PhaseView::Submitting,
            Phase::Closing { end } => PhaseView::Closing { end: end@ },
            Phase::Closed => PhaseView::Closed,
        }
    }
}

/// Something that has happened to a session. Times are nanoseconds since the
/// session began.
#[derive(Debug)]
pub enum Event {
    /// A text message, or what was wrong with it.
    Text { now: u64, message: Result<ClientMessage, String> },
    /// A binary message.
    Binary { now: u64, bytes: Vec<u8> },
    /// A frame that carries no message.
    OtherFrame,
    /// The client closed the connection.
    PeerClosed,
    /// The connection failed while receiving.
    TransportFailed(String),
    /// The connection failed while sending.
    SendFailed(String),
    /// The host stops.
    Shutdown,
    /// It is time for a sign of life.
    Tick { now: u64 },
    /// The decision whether the client is admitted.
    Authorized { now: u64, granted: bool, session_id: u128 },
    /// The radio was told to stop transmitting.
    PttForcedOff,
    /// The radio was opened, or was not.
    RadioOpened(Result<(), String>),
    /// What the radio that has just been selected can do.
    RadioDescribed(RadioCapabilities),
    /// The radio carried out a command, or did not.
    RadioDone(Result<(), String>),
    /// The state of the radio, as far as it could be read.
    RadioRead(RadioState),
    /// A meter was read, or was not.
    MeterRead(Result<Option<u8>, String>),
    /// A control was read, or was not.
    ControlRead(Result<Option<ControlValue>, String>),
    /// The antenna tuner was asked what it does, or was not.
    TunerRead(Result<Option<TunerStatus>, String>),
    /// A capture was started, or was not.
    CaptureStarted(Result<(), String>),
    /// A captured frame.
    CaptureFrame(AudioFrame),
    /// Captured frames were lost.
    CaptureLagged(u64),
    /// The capture ended.
    CaptureClosed,
    /// An output was opened, or was not.
    OutputOpened(Result<(), String>),
    /// The output took a frame, or did not.
    FrameSubmitted(Result<(), String>),
}

/// Something that is to be done for a session.
#[derive(Debug, PartialEq, Eq)]
pub enum Action {
    /// Decide whether a client is admitted.
    Authorize { key: String, password: String },
    /// Send a text message.
    Send(ServerMessage),
    /// Send a binary message.
    SendMedia(Vec<u8>),
    /// Tell the selected radio to stop transmitting.
    ForcePttOff,
    /// Let go of the selected radio.
    DropRadio,
    /// Open a reserved radio.
    OpenRadio { place: usize, device_id: String, request: RadioRequest },
    /// Find out what the selected radio can do.
    DescribeRadio,
    /// Tune the selected radio.
    SetFrequency(u64),
    /// Switch the mode of the selected radio.
    SetMode(RadioMode),
    /// Key or unkey the selected radio.
    SetPtt(bool),
    /// Read the state of the selected radio.
    ReadRadio,
    /// Read a meter of the selected radio.
    ReadMeter(String),
    /// Read a control of the selected radio.
    ReadControl(String),
    /// Set a control of the selected radio.
    WriteControl { control_id: String, value: ControlValue },
    /// Ask what the antenna tuner of the selected radio does.
    ReadTuner,
    /// Start the antenna tuner of the selected radio.
    StartTuner,
    /// Start a capture.
    StartCapture { source_id: String, format: AudioFormat },
    /// End the capture.
    StopCapture,
    /// Open an output.
    OpenOutput { output_id: String, format: AudioFormat },
    /// Let go of the output.
    CloseOutput,
    /// Hand a frame to the output.
    Submit(AudioFrame),
    /// End the session.
    Close(SessionEnd),
}

#[verifier::ext_equal]
pub enum ActionView {
    Authorize { key: Seq<char>, password: Seq<char> },
    Send(ServerMessageView),
    SendMedia(Seq<u8>),
    ForcePttOff,
    DropRadio,
    OpenRadio { place: nat, device_id: Seq<char>, request: RadioRequest },
    DescribeRadio,
    SetFrequency(u64),
    SetMode(RadioMode),
    SetPtt(bool),
    ReadRadio,
    ReadMeter(Seq<char>),
    ReadControl(Seq<char>),
    WriteControl { control_id: Seq<char>, value: ControlValueView },
    ReadTuner,
    StartTuner,
    StartCapture { source_id: Seq<char>, format: AudioFormat },
    StopCapture,
    OpenOutput { output_id: Seq<char>, format: AudioFormat },
    CloseOutput,
    Submit(AudioFrameView),
    Close(SessionEndView),
}

impl View for Action {
    type V = ActionView;

    open spec fn view(&self) -> ActionView {
        match self {
            Action::Authorize { key, password } => ActionView::Authorize {
                key: key@,
                password: password@,
            },
            Action::Send(message) => ActionView::Send(message@),
            Action::SendMedia(bytes) => ActionView::SendMedia(bytes@),
            Action::ForcePttOff => ActionView::ForcePttOff,
            Action::DropRadio => ActionView::DropRadio,
            Action::OpenRadio { place, device_id, request } => ActionView::OpenRadio {
                place: *place as nat,
                device_id: device_id@,
                request: *request,
            },
            Action::DescribeRadio => ActionView::DescribeRadio,
            Action::SetFrequency(hz) => ActionView::SetFrequency(*hz),
            Action::SetMode(mode) => ActionView::SetMode(*mode),
            Action::SetPtt(enabled) => ActionView::SetPtt(*enabled),
            Action::ReadRadio => ActionView::ReadRadio,
            Action::ReadMeter(id) => ActionView::ReadMeter(id@),
            Action::ReadControl(id) => ActionView::ReadControl(id@),
            Action::WriteControl { control_id, value } => ActionView::WriteControl {
                control_id: control_id@,
                value: value@,
            },
            Action::ReadTuner => ActionView::ReadTuner,
            Action::StartTuner => ActionView::StartTuner,
            Action::StartCapture { source_id, format } => ActionView::StartCapture {
                source_id: source_id@,
                format: *format,
            },
            Action::StopCapture => ActionView::StopCapture,
            Action::OpenOutput { output_id, format } => ActionView::OpenOutput {
                output_id: output_id@,
                format: *format,
            },
            Action::CloseOutput => ActionView::CloseOutput,
            Action::Submit(frame) => ActionView::Submit(frame@),
            Action::Close(end) => ActionView::Close(end@),
        }
    }
}

pub open spec fn action_views(actions: Seq<Action>) -> Seq<ActionView> {
    actions.map_values(|a: Action| a@)
}

/// The state of a session.
#[verifier::ext_equal]
pub struct SessionView {
    /// The radio that the session has selected.
    pub radio: Option<Seq<char>>,
    /// What the client was told that the selected radio can do.
    pub abilities: Option<RadioCapabilitiesView>,
    /// Whether a capture runs.
    pub capture: bool,
    /// Whether an output is selected.
    pub playback: bool,
    /// When the client last sent a message.
    pub last_activity: u64,
    /// The number of the last sign of life that was asked for.
    pub nonce: u64,
    /// What the session waits for.
    pub phase: PhaseView,
}

/// The message that refuses a request.
pub open spec fn refusal(request_id: Option<Seq<char>>, reason: Seq<char>) -> ServerMessageView {
    ServerMessageView::Error { code: "request_failed"@, message: reason, request_id }
}

/// The message that tells how a request came out.
pub open spec fn settlement(
    request_id: Option<Seq<char>>,
    outcome: Result<(), String>,
) -> ServerMessageView {
    match outcome {
        Ok(_) => ServerMessageView::Ack { request_id },
        Err(reason) => refusal(request_id, reason@),
    }
}

/// What one event leads to.
#[verifier::ext_equal]
pub struct StepView {
    pub session: SessionView,
    pub radios: RadioCatalogView,
    pub actions: Seq<ActionView>,
}

impl SessionView {
    pub open spec fn in_phase(self, phase: PhaseView) -> SessionView {
        SessionView { phase, ..self }
    }

    /// Nothing changes and nothing is done.
    pub open spec fn idle(self, radios: RadioCatalogView) -> StepView {
        StepView { session: self, radios, actions: seq![] }
    }

    /// One thing is done.
    pub open spec fn doing(self, radios: RadioCatalogView, action: ActionView) -> StepView {
        StepView { session: self, radios, actions: seq![action] }
    }

    /// One message is sent and the next is awaited.
    pub open spec fn answering(
        self,
        radios: RadioCatalogView,
        message: ServerMessageView,
    ) -> StepView {
        self.in_phase(PhaseView::Ready).doing(radios, ActionView::Send(message))
    }

    /// A request is refused.
    pub open spec fn refusing(
        self,
        radios: RadioCatalogView,
        request_id: Option<Seq<char>>,
        reason: Seq<char>,
    ) -> StepView {
        self.answering(radios, refusal(request_id, reason))
    }

    /// A request is acknowledged or refused, as its outcome was.
    pub open spec fn settling(
        self,
        radios: RadioCatalogView,
        request_id: Option<Seq<char>>,
        outcome: Result<(), String>,
    ) -> StepView {
        self.answering(radios, settlement(request_id, outcome))
    }

    /// The session ends. A selected radio is told to stop transmitting first;
    /// a radio that was only reserved is given back.
    pub open spec fn ending(self, radios: RadioCatalogView, end: SessionEndView) -> StepView {
        match self.phase {
            PhaseView::Closing { .. } => self.idle(radios),
            PhaseView::Closed => self.idle(radios),
            _ => if self.radio is Some {
                self.in_phase(PhaseView::Closing { end }).doing(radios, ActionView::ForcePttOff)
            } else {
                self.in_phase(PhaseView::Closed).doing(
                    match self.phase {
                        PhaseView::Opening { device_id, .. } => radios.released(device_id),
                        _ => radios,
                    },
                    ActionView::Close(end),
                )
            },
        }
    }

    /// A radio is reserved in order to be opened, or is refused.
    pub open spec fn selecting(
        self,
        radios: RadioCatalogView,
        request_id: Option<Seq<char>>,
        device_id: Seq<char>,
        request: RadioRequest,
    ) -> StepView {
        match radios.reservation(device_id) {
            Ok(place) => self.in_phase(PhaseView::Opening { request_id, device_id }).doing(
                radios.acquired(device_id),
                ActionView::OpenRadio { place, device_id, request },
            ),
            Err(error) => self.refusing(radios, request_id, error.text()),
        }
    }

    /// Something is asked of a radio that was announced to be capable of it, or
    /// the request is refused.
    pub open spec fn asking(
        self,
        radios: RadioCatalogView,
        request_id: Option<Seq<char>>,
        refused: Option<Seq<char>>,
        phase: PhaseView,
        action: ActionView,
    ) -> StepView {
        match refused {
            Some(reason) => self.refusing(radios, request_id, reason),
            None => self.in_phase(phase).doing(radios, action),
        }
    }

    /// A command goes to the selected radio, or is refused for want of one.
    pub open spec fn commanding(
        self,
        radios: RadioCatalogView,
        request_id: Option<Seq<char>>,
        command: ActionView,
    ) -> StepView {
        if self.radio is Some {
            self.in_phase(PhaseView::Commanding { request_id }).doing(radios, command)
        } else {
            self.refusing(radios, request_id, "select a radio first"@)
        }
    }
}

/// Why a request is refused that takes a radio which was announced to be
/// capable of it, if it is refused.
pub open spec fn objection(s: SessionView, capable: bool, reason: Seq<char>) -> Option<Seq<char>> {
    if s.radio is None {
        Some("select a radio first"@)
    } else if !capable {
        Some(reason)
    } else {
        None
    }
}

/// Why a meter is not read, if it is not.
pub open spec fn meter_objection(s: SessionView, id: Seq<char>) -> Option<Seq<char>> {
    objection(
        s,
        s.abilities matches Some(abilities) && abilities.has_meter(id),
        "meter is unavailable on the selected radio"@,
    )
}

/// Why a control is not read, if it is not.
pub open spec fn read_objection(s: SessionView, id: Seq<char>) -> Option<Seq<char>> {
    objection(
        s,
        s.abilities matches Some(abilities) && abilities.reads(id),
        "control is not readable on the selected radio"@,
    )
}

/// Why a control is not set, if it is not.
pub open spec fn write_objection(s: SessionView, id: Seq<char>) -> Option<Seq<char>> {
    objection(
        s,
        s.abilities matches Some(abilities) && abilities.writes(id),
        "control is not writable on the selected radio"@,
    )
}

/// Why the antenna tuner is not used, if it is not.
pub open spec fn tuner_objection(s: SessionView) -> Option<Seq<char>> {
    objection(
        s,
        s.abilities matches Some(abilities) && abilities.tuner,
        "antenna tuner is unavailable on the selected radio"@,
    )
}

/// What a request for a capture comes to: nothing is wrong, or a reason.
pub open spec fn capture_refusal(
    host: HostView,
    source_id: Seq<char>,
    format: AudioFormat,
) -> Option<Seq<char>> {
    match host.audio {
        None => Some("audio capture is unavailable"@),
        Some(sources) => {
            let place = place_of(source_ids(sources), source_id);
            if place >= sources.len() {
                Some("audio source is unavailable"@)
            } else if !sources[place as int].formats.contains(format) {
                Some("requested format is unavailable for audio source"@)
            } else {
                None
            }
        },
    }
}

/// What a request for an output comes to: nothing is wrong, or a reason.
pub open spec fn output_refusal(
    host: HostView,
    output_id: Seq<char>,
    format: AudioFormat,
) -> Option<Seq<char>> {
    match host.audio_outputs {
        None => Some("audio playback is unavailable"@),
        Some(outputs) => {
            let place = place_of(output_ids(outputs), output_id);
            if place >= outputs.len() {
                Some("audio output is unavailable"@)
            } else if !outputs[place as int].formats.contains(format) {
                Some("requested format is unavailable for audio output"@)
            } else {
                None
            }
        },
    }
}

/// What a message from an admitted client leads to.
pub open spec fn dispatched(s: SessionView, host: HostView, message: ClientMessage) -> StepView {
    let radios = host.radios;
    match message {
        ClientMessage::Hello(_) => s.answering(
            radios,
            ServerMessageView::Error {
                code: "already_authenticated"@,
                message: "hello is only valid as the first message"@,
                request_id: None,
            },
        ),
        ClientMessage::SelectRadio { request_id, device_id, request } => if s.radio is Some {
            s.in_phase(
                PhaseView::Switching {
                    request_id: opt_text(request_id),
                    device_id: device_id@,
                    request,
                },
            ).doing(radios, ActionView::ForcePttOff)
        } else {
            s.selecting(radios, opt_text(request_id), device_id@, request)
        },
        ClientMessage::GetState { request_id } => if s.radio is Some {
            s.in_phase(PhaseView::Reading).doing(radios, ActionView::ReadRadio)
        } else {
            s.answering(
                radios,
                ServerMessageView::State(RadioState { frequency_hz: None, mode: None, ptt: None }),
            )
        },
        ClientMessage::SetFrequency { request_id, frequency_hz } => s.commanding(
            radios,
            opt_text(request_id),
            ActionView::SetFrequency(frequency_hz),
        ),
        ClientMessage::SetMode { request_id, mode } => s.commanding(
            radios,
            opt_text(request_id),
            ActionView::SetMode(mode),
        ),
        ClientMessage::SetPtt { request_id, enabled } => s.commanding(
            radios,
            opt_text(request_id),
            ActionView::SetPtt(enabled),
        ),
        ClientMessage::GetMeter { request_id, meter_id } => s.asking(
            radios,
            opt_text(request_id),
            meter_objection(s, meter_id@),
            PhaseView::Metering { request_id: opt_text(request_id), meter_id: meter_id@ },
            ActionView::ReadMeter(meter_id@),
        ),
        ClientMessage::GetControl { request_id, control_id } => s.asking(
            radios,
            opt_text(request_id),
            read_objection(s, control_id@),
            PhaseView::Inspecting { request_id: opt_text(request_id), control_id: control_id@ },
            ActionView::ReadControl(control_id@),
        ),
        ClientMessage::SetControl { request_id, control_id, value } => s.asking(
            radios,
            opt_text(request_id),
            write_objection(s, control_id@),
            PhaseView::Commanding { request_id: opt_text(request_id) },
            ActionView::WriteControl { control_id: control_id@, value: value@ },
        ),
        ClientMessage::GetTunerStatus { request_id } => s.asking(
            radios,
            opt_text(request_id),
            tuner_objection(s),
            PhaseView::CheckingTuner { request_id: opt_text(request_id) },
            ActionView::ReadTuner,
        ),
        ClientMessage::StartTuner { request_id } => s.asking(
            radios,
            opt_text(request_id),
            tuner_objection(s),
            PhaseView::Commanding { request_id: opt_text(request_id) },
            ActionView::StartTuner,
        ),
        ClientMessage::SelectAudio { request_id, enabled, source_id, format } => if !enabled {
            StepView {
                session: SessionView { capture: false, phase: PhaseView::Ready, ..s },
                radios,
                actions: seq![
                    ActionView::StopCapture,
                    ActionView::Send(ServerMessageView::Ack { request_id: opt_text(request_id) }),
                ],
            }
        } else {
            match capture_refusal(host, source_id@, format) {
                Some(reason) => s.refusing(radios, opt_text(request_id), reason),
                None => s.in_phase(
                    PhaseView::StartingCapture { request_id: opt_text(request_id) },
                ).doing(radios, ActionView::StartCapture { source_id: source_id@, format }),
            }
        },
        ClientMessage::SelectAudioOutput { request_id, enabled, output_id, format } => if !enabled {
            StepView {
                session: SessionView { playback: false, phase: PhaseView::Ready, ..s },
                radios,
                actions: seq![
                    ActionView::CloseOutput,
                    ActionView::Send(ServerMessageView::Ack { request_id: opt_text(request_id) }),
                ],
            }
        } else {
            match output_refusal(host, output_id@, format) {
                Some(reason) => s.refusing(radios, opt_text(request_id), reason),
                None => s.in_phase(
                    PhaseView::OpeningOutput { request_id: opt_text(request_id) },
                ).doing(radios, ActionView::OpenOutput { output_id: output_id@, format }),
            }
        },
        ClientMessage::Ping { nonce } => s.answering(radios, ServerMessageView::Pong { nonce }),
        ClientMessage::Pong { .. } => s.in_phase(PhaseView::Ready).idle(radios),
    }
}

/// What the first message of a client leads to.
pub open spec fn greeted(
    s: SessionView,
    radios: RadioCatalogView,
    message: Result<ClientMessage, String>,
) -> StepView {
    match message {
        Err(reason) => s.ending(radios, SessionEndView::Failed(reason@)),
        Ok(ClientMessage::Hello(hello)) => if hello.protocol_version != PROTOCOL_VERSION {
            s.ending(radios, SessionEndView::Failed("unauthorized HostBridge client"@))
        } else {
            s.in_phase(
                PhaseView::Authorizing { key: hello.access_key@, password: hello.password@ },
            ).doing(
                radios,
                ActionView::Authorize { key: hello.access_key@, password: hello.password@ },
            )
        },
        Ok(_) => s.ending(radios, SessionEndView::Failed("first message must be hello"@)),
    }
}

/// What an event leads to while the session waits for the next message.
pub open spec fn handled(s: SessionView, host: HostView, event: Event) -> StepView {
    let radios = host.radios;
    match event {
        Event::Text { now, message } => {
            let s = SessionView { last_activity: now, ..s };
            match message {
                Ok(message) => dispatched(s, host, message),
                Err(reason) => s.refusing(radios, None, reason@),
            }
        },
        Event::Binary { now, bytes } => {
            let s = SessionView { last_activity: now, ..s };
            match received(bytes@, s.playback) {
                Ok(frame) => s.in_phase(PhaseView::Submitting).doing(
                    radios,
                    ActionView::Submit(frame),
                ),
                Err(error) => s.answering(
                    radios,
                    ServerMessageView::Error {
                        code: "media_failed"@,
                        message: error.text(),
                        request_id: None,
                    },
                ),
            }
        },
        Event::CaptureFrame(frame) => if !s.capture {
            s.idle(radios)
        } else {
            match packaged(frame@) {
                Some(bytes) => s.doing(radios, ActionView::SendMedia(bytes)),
                None => s.answering(
                    radios,
                    ServerMessageView::Error {
                        code: "media_frame_too_large"@,
                        message: "audio frame exceeds the HostBridge limit"@,
                        request_id: None,
                    },
                ),
            }
        },
        Event::CaptureLagged(count) => if !s.capture {
            s.idle(radios)
        } else {
            s.answering(
                radios,
                ServerMessageView::Error {
                    code: "media_frames_dropped"@,
                    message: "audio consumer fell behind; dropped "@ + decimal(count as nat)
                        + " frames"@,
                    request_id: None,
                },
            )
        },
        Event::CaptureClosed => SessionView { capture: false, ..s }.idle(radios),
        Event::Tick { now } => if now - s.last_activity > SILENCE_LIMIT_NANOS {
            s.ending(radios, SessionEndView::Failed("client heartbeat timed out"@))
        } else {
            let nonce = s.nonce.wrapping_add(1);
            SessionView { nonce, ..s }.answering(radios, ServerMessageView::Ping { nonce })
        },
        _ => s.idle(radios),
    }
}

/// What an event leads to.
pub open spec fn stepped(s: SessionView, host: HostView, event: Event) -> StepView {
    let radios = host.radios;
    match (event, s.phase) {
        (Event::SendFailed(reason), _) => s.ending(radios, SessionEndView::Failed(reason@)),
        (Event::Shutdown, _) => s.ending(radios, SessionEndView::Finished),
        (Event::Text { message, .. }, PhaseView::AwaitHello) => greeted(s, radios, message),
        (
            Event::Binary { .. } | Event::OtherFrame | Event::PeerClosed | Event::TransportFailed(
                _,
            ),
            PhaseView::AwaitHello,
        ) => s.ending(radios, SessionEndView::Failed("client closed before hello"@)),
        (Event::PeerClosed, _) => s.ending(radios, SessionEndView::Finished),
        (Event::TransportFailed(reason), _) => s.ending(radios, SessionEndView::Failed(reason@)),
        (Event::Authorized { now, granted, session_id }, PhaseView::Authorizing { .. }) => if granted {
            SessionView { last_activity: now, playback: host.audio_sink, ..s }.answering(
                radios,
                ServerMessageView::Hello(host.hello(session_id)),
            )
        } else {
            s.ending(radios, SessionEndView::Failed("unauthorized HostBridge client"@))
        },
        (_, PhaseView::Ready) => handled(s, host, event),
        (
            Event::PttForcedOff,
            PhaseView::Switching { request_id, device_id, request },
        ) => match s.radio {
            Some(old) => {
                let step = SessionView { radio: None, abilities: None, ..s }.selecting(
                    radios.released(old),
                    request_id,
                    device_id,
                    request,
                );
                StepView { actions: seq![ActionView::DropRadio] + step.actions, ..step }
            },
            None => s.idle(radios),
        },
        (Event::PttForcedOff, PhaseView::Closing { end }) => match s.radio {
            Some(old) => StepView {
                session: SessionView {
                    radio: None,
                    abilities: None,
                    phase: PhaseView::Closed,
                    ..s
                },
                radios: radios.released(old),
                actions: seq![ActionView::DropRadio, ActionView::Close(end)],
            },
            None => s.idle(radios),
        },
        (Event::RadioOpened(outcome), PhaseView::Opening { request_id, device_id }) => match outcome {
            Ok(_) => StepView {
                session: SessionView { radio: Some(device_id), phase: PhaseView::Describing, ..s },
                radios,
                actions: seq![
                    ActionView::Send(ServerMessageView::Ack { request_id }),
                    ActionView::DescribeRadio,
                ],
            },
            Err(reason) => s.refusing(radios.released(device_id), request_id, reason@),
        },
        (Event::RadioDescribed(capabilities), PhaseView::Describing) => StepView {
            session: SessionView {
                abilities: Some(capabilities@),
                phase: PhaseView::Announcing,
                ..s
            },
            radios,
            actions: seq![
                ActionView::Send(ServerMessageView::RadioCapabilities(capabilities@)),
                ActionView::ReadRadio,
            ],
        },
        (Event::RadioRead(state), PhaseView::Announcing) => s.answering(
            radios,
            ServerMessageView::State(state),
        ),
        (Event::RadioRead(state), PhaseView::Reading) => s.answering(
            radios,
            ServerMessageView::State(state),
        ),
        (Event::MeterRead(outcome), PhaseView::Metering { request_id, meter_id }) => s.answering(
            radios,
            match outcome {
                Ok(level) => ServerMessageView::MeterValue { request_id, meter_id, level },
                Err(reason) => refusal(request_id, reason@),
            },
        ),
        (
            Event::ControlRead(outcome),
            PhaseView::Inspecting { request_id, control_id },
        ) => s.answering(
            radios,
            match outcome {
                Ok(value) => ServerMessageView::ControlValue {
                    request_id,
                    control_id,
                    value: opt_value(value),
                },
                Err(reason) => refusal(request_id, reason@),
            },
        ),
        (Event::TunerRead(outcome), PhaseView::CheckingTuner { request_id }) => s.answering(
            radios,
            match outcome {
                Ok(status) => ServerMessageView::TunerStatus { request_id, status },
                Err(reason) => refusal(request_id, reason@),
            },
        ),
        (Event::RadioDone(outcome), PhaseView::Commanding { request_id }) => s.settling(
            radios,
            request_id,
            outcome,
        ),
        (Event::CaptureStarted(outcome), PhaseView::StartingCapture { request_id }) => SessionView {
            capture: s.capture || outcome is Ok,
            ..s
        }.settling(radios, request_id, outcome),
        (Event::OutputOpened(outcome), PhaseView::OpeningOutput { request_id }) => SessionView {
            playback: s.playback || outcome is Ok,
            ..s
        }.settling(radios, request_id, outcome),
        (Event::FrameSubmitted(outcome), PhaseView::Submitting) => match outcome {
            Ok(_) => s.in_phase(PhaseView::Ready).idle(radios),
            Err(reason) => s.answering(
                radios,
                ServerMessageView::Error {
                    code: "media_failed"@,
                    message: reason@,
                    request_id: None,
                },
            ),
        },
        _ => s.idle(radios),
    }
}

/// One client's session.
pub struct Session {
    radio: Option<String>,
    abilities: Option<RadioCapabilities>,
    capture: bool,
    playback: bool,
    last_activity: u64,
    nonce: u64,
    phase: Phase,
}

impl View for Session {
    type V = SessionView;

    closed spec fn view(&self) -> SessionView {
        SessionView {
            radio: opt_text(self.radio),
            abilities: match self.abilities {
                Some(abilities) => Some(abilities@),
                None => None,
            },
            capture: self.capture,
            playback: self.playback,
            last_activity: self.last_activity,
            nonce: self.nonce,
            phase: self.phase.view(),
        }
    }
}

/// The state in which every session begins.
pub open spec fn fresh() -> SessionView {
    SessionView {
        radio: None,
        abilities: None,
        capture: false,
        playback: false,
        last_activity: 0,
        nonce: 0,
        phase: PhaseView::AwaitHello,
    }
}

impl Session {
    /// A session that waits for the greeting of its client.
    pub fn new() -> (session: Session)
        ensures
            session@ == fresh(),
    {
        Session {
            radio: None,
            abilities: None,
            capture: false,
            playback: false,
            last_activity: 0,
            nonce: 0,
            phase: Phase::AwaitHello,
        }
    }

    /// Whether the session is over.
    pub fn is_closed(&self) -> (closed: bool)
        ensures
            closed == (self@.phase is Closed),
    {
        match self.phase {
            Phase::Closed => true,
            _ => false,
        }
    }

    /// Whether a capture runs.
    pub fn captures(&self) -> (capture: bool)
        ensures
            capture == self@.capture,
    {
        self.capture
    }

    /// Sends one message and waits for the next.
    fn answer(&mut self, message: ServerMessage) -> (actions: Vec<Action>)
        ensures
            final(self)@ == old(self)@.in_phase(PhaseView::Ready),
            action_views(actions@) == seq![ActionView::Send(message@)],
    {
        self.phase = Phase::Ready;
        one(Action::Send(message))
    }

    /// Reports a fault and waits for the next message.
    fn fault(&mut self, code: &str, message: String, request_id: Option<String>) -> (actions: Vec<
        Action,
    >)
        ensures
            final(self)@ == old(self)@.in_phase(PhaseView::Ready),
            action_views(actions@) == seq![
                ActionView::Send(
                    ServerMessageView::Error {
                        code: code@,
                        message: message@,
                        request_id: opt_text(request_id),
                    },
                ),
            ],
    {
        self.answer(ServerMessage::Error { code: code.to_owned(), message, request_id })
    }

    /// Refuses a request.
    fn refuse(&mut self, request_id: Option<String>, reason: String) -> (actions: Vec<Action>)
        ensures
            final(self)@ == old(self)@.in_phase(PhaseView::Ready),
            action_views(actions@) == seq![
                ActionView::Send(refusal(opt_text(request_id), reason@)),
            ],
    {
        self.fault("request_failed", reason, request_id)
    }

    /// Acknowledges or refuses a request, as its outcome was.
    fn settle(&mut self, request_id: Option<String>, outcome: Result<(), String>) -> (actions: Vec<
        Action,
    >)
        ensures
            final(self)@ == old(self)@.in_phase(PhaseView::Ready),
            action_views(actions@) == seq![
                ActionView::Send(settlement(opt_text(request_id), outcome)),
            ],
    {
        match outcome {
            Ok(_) => self.answer(ServerMessage::Ack { request_id }),
            Err(reason) => self.refuse(request_id, reason),
        }
    }

    /// Ends the session, or begins to.
    fn end<R, A, S, O, U>(&mut self, host: &mut HostBridge<R, A, S, O, U>, end: SessionEnd) -> (actions: Vec<
        Action,
    >) where
        R: RadioProvider,
        A: AudioSource,
        S: AudioSink,
        O: AudioOutputProvider,
        U: Authorizer,

        ensures
            final(self)@ == old(self)@.ending(old(host)@.radios, end@).session,
            final(host).same_equipment(old(host)),
            final(host)@ == old(host)@.with_radios(old(self)@.ending(old(host)@.radios, end@).radios),
            action_views(actions@) == old(self)@.ending(old(host)@.radios, end@).actions,
    {
        match &self.phase {
            Phase::Closing { .. } => {
                return none();
            },
            Phase::Closed => {
                return none();
            },
            _ => {},
        }
        if self.radio.is_some() {
            self.phase = Phase::Closing { end };
            return one(Action::ForcePttOff);
        }
        if let Phase::Opening { device_id, .. } = &self.phase {
            host.release_radio(device_id.as_str());
        }
        self.phase = Phase::Closed;
        one(Action::Close(end))
    }

    /// Reserves a radio in order to open it, or refuses.
    fn select<R, A, S, O, U>(
        &mut self,
        host: &mut HostBridge<R, A, S, O, U>,
        request_id: Option<String>,
        device_id: String,
        request: RadioRequest,
    ) -> (actions: Vec<Action>) where
        R: RadioProvider,
        A: AudioSource,
        S: AudioSink,
        O: AudioOutputProvider,
        U: Authorizer,

        ensures
            final(self)@ == old(self)@.selecting(old(host)@.radios, opt_text(request_id), device_id@, request).session,
            final(host).same_equipment(old(host)),
            final(host)@ == old(host)@.with_radios(old(self)@.selecting(old(host)@.radios, opt_text(request_id), device_id@, request).radios),
            action_views(actions@) == old(self)@.selecting(old(host)@.radios, opt_text(request_id), device_id@, request).actions,
    {
        match host.acquire_radio(device_id.as_str()) {
            Ok(place) => {
                self.phase = Phase::Opening { request_id, device_id: device_id.clone() };
                one(Action::OpenRadio { place, device_id, request })
            },
            Err(error) => self.refuse(request_id, error.message()),
        }
    }

    /// Sends a command to the selected radio, or refuses for want of one.
    fn command(&mut self, request_id: Option<String>, command: Action) -> (actions: Vec<Action>)
        ensures
            forall|radios: RadioCatalogView|
                #![trigger old(self)@.commanding(radios, opt_text(request_id), command@)]
                final(self)@ == old(self)@.commanding(
                    radios,
                    opt_text(request_id),
                    command@,
                ).session && action_views(actions@) == old(self)@.commanding(
                    radios,
                    opt_text(request_id),
                    command@,
                ).actions,
    {
        if self.radio.is_some() {
            self.phase = Phase::Commanding { request_id };
            one(command)
        } else {
            self.refuse(request_id, "select a radio first".to_owned())
        }
    }

    /// Why a request is refused that takes a radio which was announced to be
    /// capable of it, if it is refused.
    fn object(&self, capable: bool, reason: &str) -> (refused: Option<String>)
        ensures
            opt_text(refused) == objection(self@, capable, reason@),
    {
        if self.radio.is_none() {
            Some("select a radio first".to_owned())
        } else if !capable {
            Some(reason.to_owned())
        } else {
            None
        }
    }

    /// Why the antenna tuner is not used, if it is not.
    fn object_to_tuner(&self) -> (refused: Option<String>)
        ensures
            opt_text(refused) == tuner_objection(self@),
    {
        let capable: bool = match &self.abilities {
            Some(abilities) => abilities.tuner,
            None => false,
        };
        self.object(capable, "antenna tuner is unavailable on the selected radio")
    }

    /// Answers a message from an admitted client.
    pub fn dispatch<R, A, S, O, U>(&mut self, host: &mut HostBridge<R, A, S, O, U>, message: ClientMessage) -> (actions: Vec<
        Action,
    >) where
        R: RadioProvider,
        A: AudioSource,
        S: AudioSink,
        O: AudioOutputProvider,
        U: Authorizer,

        requires
            old(self)@.phase is Ready,
        ensures
            final(self)@ == dispatched(old(self)@, old(host)@, message).session,
            final(host).same_equipment(old(host)),
            final(host)@ == old(host)@.with_radios(dispatched(old(self)@, old(host)@, message).radios),
            action_views(actions@) == dispatched(old(self)@, old(host)@, message).actions,
    {
        match message {
            ClientMessage::Hello(_) => self.fault(
                "already_authenticated",
                "hello is only valid as the first message".to_owned(),
                None,
            ),
            ClientMessage::SelectRadio { request_id, device_id, request } => if self.radio.is_some() {
                self.phase = Phase::Switching { request_id, device_id, request };
                one(Action::ForcePttOff)
            } else {
                self.select(host, request_id, device_id, request)
            },
            ClientMessage::GetState { .. } => if self.radio.is_some() {
                self.phase = Phase::Reading;
                one(Action::ReadRadio)
            } else {
                self.answer(ServerMessage::State(RadioState::default()))
            },
            ClientMessage::SetFrequency { request_id, frequency_hz } => self.command(
                request_id,
                Action::SetFrequency(frequency_hz),
            ),
            ClientMessage::SetMode { request_id, mode } => self.command(
                request_id,
                Action::SetMode(mode),
            ),
            ClientMessage::SetPtt { request_id, enabled } => self.command(
                request_id,
                Action::SetPtt(enabled),
            ),
            ClientMessage::GetMeter { request_id, meter_id } => {
                let capable: bool = match &self.abilities {
                    Some(abilities) => abilities.has_meter(meter_id.as_str()),
                    None => false,
                };
                match self.object(capable, "meter is unavailable on the selected radio") {
                    Some(reason) => self.refuse(request_id, reason),
                    None => {
                        self.phase = Phase::Metering { request_id, meter_id: meter_id.clone() };
                        one(Action::ReadMeter(meter_id))
                    },
                }
            },
            ClientMessage::GetControl { request_id, control_id } => {
                let capable: bool = match &self.abilities {
                    Some(abilities) => abilities.reads(control_id.as_str()),
                    None => false,
                };
                match self.object(capable, "control is not readable on the selected radio") {
                    Some(reason) => self.refuse(request_id, reason),
                    None => {
                        self.phase = Phase::Inspecting {
                            request_id,
                            control_id: control_id.clone(),
                        };
                        one(Action::ReadControl(control_id))
                    },
                }
            },
            ClientMessage::SetControl { request_id, control_id, value } => {
                let capable: bool = match &self.abilities {
                    Some(abilities) => abilities.writes(control_id.as_str()),
                    None => false,
                };
                match self.object(capable, "control is not writable on the selected radio") {
                    Some(reason) => self.refuse(request_id, reason),
                    None => {
                        self.phase = Phase::Commanding { request_id };
                        one(Action::WriteControl { control_id, value })
                    },
                }
            },
            ClientMessage::GetTunerStatus { request_id } => match self.object_to_tuner() {
                Some(reason) => self.refuse(request_id, reason),
                None => {
                    self.phase = Phase::CheckingTuner { request_id };
                    one(Action::ReadTuner)
                },
            },
            ClientMessage::StartTuner { request_id } => match self.object_to_tuner() {
                Some(reason) => self.refuse(request_id, reason),
                None => {
                    self.phase = Phase::Commanding { request_id };
                    one(Action::StartTuner)
                },
            },
            ClientMessage::SelectAudio { request_id, enabled, source_id, format } => {
                if !enabled {
                    self.capture = false;
                    self.phase = Phase::Ready;
                    return two(
                        Action::StopCapture,
                        Action::Send(ServerMessage::Ack { request_id }),
                    );
                }
                match refuse_capture(host, source_id.as_str(), &format) {
                    Some(reason) => self.refuse(request_id, reason),
                    None => {
                        self.phase = Phase::StartingCapture { request_id };
                        one(Action::StartCapture { source_id, format })
                    },
                }
            },
            ClientMessage::SelectAudioOutput { request_id, enabled, output_id, format } => {
                if !enabled {
                    self.playback = false;
                    self.phase = Phase::Ready;
                    return two(
                        Action::CloseOutput,
                        Action::Send(ServerMessage::Ack { request_id }),
                    );
                }
                match refuse_output(host, output_id.as_str(), &format) {
                    Some(reason) => self.refuse(request_id, reason),
                    None => {
                        self.phase = Phase::OpeningOutput { request_id };
                        one(Action::OpenOutput { output_id, format })
                    },
                }
            },
            ClientMessage::Ping { nonce } => self.answer(ServerMessage::Pong { nonce }),
            ClientMessage::Pong { .. } => {
                self.phase = Phase::Ready;
                none()
            },
        }
    }

    /// Answers the first message of a client.
    fn greet<R, A, S, O, U>(&mut self, host: &mut HostBridge<R, A, S, O, U>, message: Result<
        ClientMessage,
        String,
    >) -> (actions: Vec<Action>) where
        R: RadioProvider,
        A: AudioSource,
        S: AudioSink,
        O: AudioOutputProvider,
        U: Authorizer,

        ensures
            final(self)@ == greeted(old(self)@, old(host)@.radios, message).session,
            final(host).same_equipment(old(host)),
            final(host)@ == old(host)@.with_radios(greeted(old(self)@, old(host)@.radios, message).radios),
            action_views(actions@) == greeted(old(self)@, old(host)@.radios, message).actions,
    {
        match message {
            Err(reason) => self.end(host, SessionEnd::Failed(reason)),
            Ok(ClientMessage::Hello(hello)) => {
                if hello.protocol_version != PROTOCOL_VERSION {
                    return self.end(
                        host,
                        SessionEnd::Failed("unauthorized HostBridge client".to_owned()),
                    );
                }
                let key = hello.access_key.clone();
                let password = hello.password.clone();
                self.phase = Phase::Authorizing { key: hello.access_key, password: hello.password };
                one(Action::Authorize { key, password })
            },
            Ok(_) => self.end(
                host,
                SessionEnd::Failed("first message must be hello".to_owned()),
            ),
        }
    }

    /// Answers an event while the session waits for the next message.
    fn handle<R, A, S, O, U>(&mut self, host: &mut HostBridge<R, A, S, O, U>, event: Event) -> (actions: Vec<
        Action,
    >) where
        R: RadioProvider,
        A: AudioSource,
        S: AudioSink,
        O: AudioOutputProvider,
        U: Authorizer,

        requires
            old(self)@.phase is Ready,
        ensures
            final(self)@ == handled(old(self)@, old(host)@, event).session,
            final(host).same_equipment(old(host)),
            final(host)@ == old(host)@.with_radios(handled(old(self)@, old(host)@, event).radios),
            action_views(actions@) == handled(old(self)@, old(host)@, event).actions,
    {
        match event {
            Event::Text { now, message } => {
                self.last_activity = now;
                match message {
                    Ok(message) => self.dispatch(host, message),
                    Err(reason) => self.refuse(None, reason),
                }
            },
            Event::Binary { now, bytes } => {
                self.last_activity = now;
                match dispatch_binary(bytes.as_slice(), self.playback) {
                    Ok(frame) => {
                        self.phase = Phase::Submitting;
                        one(Action::Submit(frame))
                    },
                    Err(error) => self.fault("media_failed", error.message(), None),
                }
            },
            Event::CaptureFrame(frame) => {
                if !self.capture {
                    return none();
                }
                match package_frame(&frame) {
                    Some(bytes) => one(Action::SendMedia(bytes)),
                    None => self.fault(
                        "media_frame_too_large",
                        "audio frame exceeds the HostBridge limit".to_owned(),
                        None,
                    ),
                }
            },
            Event::CaptureLagged(count) => {
                if !self.capture {
                    return none();
                }
                let mut message = "audio consumer fell behind; dropped ".to_owned();
                let number = decimal_text(count);
                message.append(number.as_str());
                message.append(" frames");
                self.fault("media_frames_dropped", message, None)
            },
            Event::CaptureClosed => {
                self.capture = false;
                none()
            },
            Event::Tick { now } => {
                if now.saturating_sub(self.last_activity) > SILENCE_LIMIT_NANOS {
                    return self.end(
                        host,
                        SessionEnd::Failed("client heartbeat timed out".to_owned()),
                    );
                }
                self.nonce = self.nonce.wrapping_add(1);
                let nonce: u64 = self.nonce;
                self.answer(ServerMessage::Ping { nonce })
            },
            _ => none(),
        }
    }

    /// Answers the report that the selected radio was told to stop
    /// transmitting: only now is it given back.
    fn radio_is_silent<R, A, S, O, U>(&mut self, host: &mut HostBridge<R, A, S, O, U>) -> (actions: Vec<Action>) where
        R: RadioProvider,
        A: AudioSource,
        S: AudioSink,
        O: AudioOutputProvider,
        U: Authorizer,

        ensures
            final(self)@ == stepped(old(self)@, old(host)@, Event::PttForcedOff).session,
            final(host).same_equipment(old(host)),
            final(host)@ == old(host)@.with_radios(stepped(old(self)@, old(host)@, Event::PttForcedOff).radios),
            action_views(actions@) == stepped(old(self)@, old(host)@, Event::PttForcedOff).actions,
    {
        let mut phase = Phase::Closed;
        std::mem::swap(&mut phase, &mut self.phase);
        match phase {
            Phase::Switching { request_id, device_id, request } => {
                let radio = self.radio.take();
                match radio {
                    Some(old) => {
                        self.abilities = None;
                        host.release_radio(old.as_str());
                        self.phase = Phase::Ready;
                        let mut rest = self.select(host, request_id, device_id, request);
                        let mut actions = one(Action::DropRadio);
                        let ghost (first, second) = (actions@, rest@);
                        actions.append(&mut rest);
                        assert(action_views(actions@) =~= action_views(first) + action_views(
                            second,
                        ));
                        actions
                    },
                    None => {
                        self.phase = Phase::Switching { request_id, device_id, request };
                        none()
                    },
                }
            },
            Phase::Closing { end } => {
                let radio = self.radio.take();
                match radio {
                    Some(old) => {
                        self.abilities = None;
                        host.release_radio(old.as_str());
                        two(Action::DropRadio, Action::Close(end))
                    },
                    None => {
                        self.phase = Phase::Closing { end };
                        none()
                    },
                }
            },
            other => {
                self.phase = other;
                none()
            },
        }
    }

    /// Answers the report that a reserved radio was opened, or was not. A radio
    /// that did not open is given back.
    fn radio_opened<R, A, S, O, U>(&mut self, host: &mut HostBridge<R, A, S, O, U>, outcome: Result<
        (),
        String,
    >) -> (actions: Vec<Action>) where
        R: RadioProvider,
        A: AudioSource,
        S: AudioSink,
        O: AudioOutputProvider,
        U: Authorizer,

        ensures
            final(self)@ == stepped(old(self)@, old(host)@, Event::RadioOpened(outcome)).session,
            final(host).same_equipment(old(host)),
            final(host)@ == old(host)@.with_radios(stepped(old(self)@, old(host)@, Event::RadioOpened(outcome)).radios),
            action_views(actions@) == stepped(old(self)@, old(host)@, Event::RadioOpened(outcome)).actions,
    {
        let mut phase = Phase::Closed;
        std::mem::swap(&mut phase, &mut self.phase);
        match phase {
            Phase::Opening { request_id, device_id } => match outcome {
                Ok(_) => {
                    self.radio = Some(device_id);
                    self.phase = Phase::Describing;
                    two(Action::Send(ServerMessage::Ack { request_id }), Action::DescribeRadio)
                },
                Err(reason) => {
                    host.release_radio(device_id.as_str());
                    self.refuse(request_id, reason)
                },
            },
            other => {
                self.phase = other;
                none()
            },
        }
    }

    /// Answers the report that a request was carried out, or was not.
    fn request_done<R, A, S, O, U>(&mut self, host: &mut HostBridge<R, A, S, O, U>, event: Event) -> (actions: Vec<
        Action,
    >) where
        R: RadioProvider,
        A: AudioSource,
        S: AudioSink,
        O: AudioOutputProvider,
        U: Authorizer,

        requires
            event is RadioDone || event is CaptureStarted || event is OutputOpened
                || event is MeterRead || event is ControlRead || event is TunerRead,
        ensures
            final(self)@ == stepped(old(self)@, old(host)@, event).session,
            final(host).same_equipment(old(host)),
            final(host)@ == old(host)@.with_radios(stepped(old(self)@, old(host)@, event).radios),
            action_views(actions@) == stepped(old(self)@, old(host)@, event).actions,
    {
        let mut phase = Phase::Closed;
        std::mem::swap(&mut phase, &mut self.phase);
        match (event, phase) {
            (Event::RadioDone(outcome), Phase::Commanding { request_id }) => self.settle(
                request_id,
                outcome,
            ),
            (Event::MeterRead(outcome), Phase::Metering { request_id, meter_id }) => match outcome {
                Ok(level) => self.answer(
                    ServerMessage::MeterValue { request_id, meter_id, level },
                ),
                Err(reason) => self.refuse(request_id, reason),
            },
            (
                Event::ControlRead(outcome),
                Phase::Inspecting { request_id, control_id },
            ) => match outcome {
                Ok(value) => self.answer(
                    ServerMessage::ControlValue { request_id, control_id, value },
                ),
                Err(reason) => self.refuse(request_id, reason),
            },
            (Event::TunerRead(outcome), Phase::CheckingTuner { request_id }) => match outcome {
                Ok(status) => self.answer(ServerMessage::TunerStatus { request_id, status }),
                Err(reason) => self.refuse(request_id, reason),
            },
            (Event::CaptureStarted(outcome), Phase::StartingCapture { request_id }) => {
                self.capture = self.capture || outcome.is_ok();
                self.settle(request_id, outcome)
            },
            (Event::OutputOpened(outcome), Phase::OpeningOutput { request_id }) => {
                self.playback = self.playback || outcome.is_ok();
                self.settle(request_id, outcome)
            },
            (_, other) => {
                self.phase = other;
                none()
            },
        }
    }

    /// Answers the decision whether the client is admitted.
    fn welcome<R, A, S, O, U>(
        &mut self,
        host: &mut HostBridge<R, A, S, O, U>,
        now: u64,
        granted: bool,
        session_id: u128,
    ) -> (actions: Vec<Action>) where
        R: RadioProvider,
        A: AudioSource,
        S: AudioSink,
        O: AudioOutputProvider,
        U: Authorizer,

        requires
            old(self)@.phase is Authorizing,
        ensures
            final(self)@ == stepped(old(self)@, old(host)@, Event::Authorized { now, granted, session_id }).session,
            final(host).same_equipment(old(host)),
            final(host)@ == old(host)@.with_radios(stepped(old(self)@, old(host)@, Event::Authorized { now, granted, session_id }).radios),
            action_views(actions@) == stepped(old(self)@, old(host)@, Event::Authorized { now, granted, session_id }).actions,
    {
        if granted {
            self.last_activity = now;
            self.playback = host.has_sink();
            self.answer(ServerMessage::Hello(host.hello(session_id)))
        } else {
            self.end(host, SessionEnd::Failed("unauthorized HostBridge client".to_owned()))
        }
    }

    /// Takes what has happened and says what is to be done.
    pub fn step<R, A, S, O, U>(&mut self, host: &mut HostBridge<R, A, S, O, U>, event: Event) -> (actions: Vec<
        Action,
    >) where
        R: RadioProvider,
        A: AudioSource,
        S: AudioSink,
        O: AudioOutputProvider,
        U: Authorizer,

        ensures
            final(self)@ == stepped(old(self)@, old(host)@, event).session,
            final(host).same_equipment(old(host)),
            final(host)@ == old(host)@.with_radios(stepped(old(self)@, old(host)@, event).radios),
            action_views(actions@) == stepped(old(self)@, old(host)@, event).actions,
    {
        let event = match event {
            Event::SendFailed(reason) => {
                return self.end(host, SessionEnd::Failed(reason));
            },
            Event::Shutdown => {
                return self.end(host, SessionEnd::Finished);
            },
            other => other,
        };
        if let Phase::AwaitHello = self.phase {
            return match event {
                Event::Text { message, .. } => self.greet(host, message),
                Event::Binary { .. } | Event::OtherFrame | Event::PeerClosed
                | Event::TransportFailed(_) => self.end(
                    host,
                    SessionEnd::Failed("client closed before hello".to_owned()),
                ),
                _ => none(),
            };
        }
        let event = match event {
            Event::PeerClosed => {
                return self.end(host, SessionEnd::Finished);
            },
            Event::TransportFailed(reason) => {
                return self.end(host, SessionEnd::Failed(reason));
            },
            other => other,
        };
        if let Phase::Ready = self.phase {
            return self.handle(host, event);
        }
        match event {
            Event::Authorized { now, granted, session_id } => match &self.phase {
                Phase::Authorizing { .. } => self.welcome(host, now, granted, session_id),
                _ => none(),
            },
            Event::PttForcedOff => self.radio_is_silent(host),
            Event::RadioOpened(outcome) => self.radio_opened(host, outcome),
            Event::RadioDescribed(capabilities) => match &self.phase {
                Phase::Describing => {
                    self.abilities = Some(capabilities.copied());
                    self.phase = Phase::Announcing;
                    two(
                        Action::Send(ServerMessage::RadioCapabilities(capabilities)),
                        Action::ReadRadio,
                    )
                },
                _ => none(),
            },
            Event::RadioRead(state) => match &self.phase {
                Phase::Announcing | Phase::Reading => self.answer(ServerMessage::State(state)),
                _ => none(),
            },
            Event::FrameSubmitted(outcome) => match &self.phase {
                Phase::Submitting => match outcome {
                    Ok(_) => {
                        self.phase = Phase::Ready;
                        none()
                    },
                    Err(reason) => self.fault("media_failed", reason, None),
                },
                _ => none(),
            },
            Event::RadioDone(outcome) => self.request_done(host, Event::RadioDone(outcome)),
            Event::CaptureStarted(outcome) => self.request_done(
                host,
                Event::CaptureStarted(outcome),
            ),
            Event::OutputOpened(outcome) => self.request_done(host, Event::OutputOpened(outcome)),
            Event::MeterRead(outcome) => self.request_done(host, Event::MeterRead(outcome)),
            Event::ControlRead(outcome) => self.request_done(host, Event::ControlRead(outcome)),
            Event::TunerRead(outcome) => self.request_done(host, Event::TunerRead(outcome)),
            _ => none(),
        }
    }

    /// Has the host decide on the key and the password that the client greeted
    /// with, and draws a session number for a client that is admitted. Unless
    /// such a decision is awaited, nothing happens.
    pub fn authorize<R, A, S, O, U>(&mut self, host: &mut HostBridge<R, A, S, O, U>, now: u64) -> (actions: Vec<
        Action,
    >) where
        R: RadioProvider,
        A: AudioSource,
        S: AudioSink,
        O: AudioOutputProvider,
        U: Authorizer,

        ensures
            final(host).same_equipment(old(host)),
            final(host)@ == old(host)@.with_radios(final(host)@.radios),
            decided(
                old(self)@,
                old(host)@,
                old(host).gatekeeper(),
                now,
                (StepView {
                    session: final(self)@,
                    radios: final(host)@.radios,
                    actions: action_views(actions@),
                }),
            ),
    {
        let granted: bool = match &self.phase {
            Phase::Authorizing { key, password } => host.authorize(key.as_str(), password.as_str()),
            _ => {
                return none();
            },
        };
        let session_id: u128 = new_session_id();
        self.step(host, Event::Authorized { now, granted, session_id })
    }
}

/// What the decision of a gatekeeper can lead to: it is on the key and the
/// password that the client greeted with, and an admitted client gets a random
/// session number. Unless such a decision is awaited, nothing happens.
pub open spec fn decided<U: Authorizer>(
    s: SessionView,
    host: HostView,
    gatekeeper: U,
    now: u64,
    step: StepView,
) -> bool {
    match s.phase {
        PhaseView::Authorizing { key, password } => exists|
            k: &str,
            p: &str,
            granted: bool,
            session_id: u128,
        |
            k@ == key && p@ == password && #[trigger] random_session_id(session_id)
                && #[trigger] call_ensures(U::authorize, (&gatekeeper, k, p), granted) && step
                == stepped(s, host, Event::Authorized { now, granted, session_id }),
        _ => step == s.idle(host.radios),
    }
}

/// Whether an event is the arrival of something from a client, or of its end.
pub open spec fn arrives(event: Event) -> bool {
    event is Text || event is Binary || event is OtherFrame || event is PeerClosed
        || event is TransportFailed
}

/// Whether an event is a greeting in the right version.
pub open spec fn greets(event: Event) -> bool {
    event matches Event::Text { message: Ok(ClientMessage::Hello(hello)), .. }
        && hello.protocol_version == PROTOCOL_VERSION
}

/// Whether a client is sent something.
pub open spec fn sends(step: StepView) -> bool {
    exists|i: int| 0 <= i < step.actions.len() && (#[trigger] step.actions[i]) is Send
}

/// What the first message of a client can lead to: where it asks for a
/// decision, what the decision of the gatekeeper leads to.
pub open spec fn began<U: Authorizer>(
    host: HostView,
    gatekeeper: U,
    first: Event,
    now: u64,
    step: StepView,
) -> bool {
    let greeted = stepped(fresh(), host, first);
    if greeted.session.phase is Authorizing {
        decided(greeted.session, host, gatekeeper, now, step)
    } else {
        step == greeted
    }
}

impl<R, A, S, O, U> HostBridge<R, A, S, O, U> where
    R: RadioProvider,
    A: AudioSource,
    S: AudioSink,
    O: AudioOutputProvider,
    U: Authorizer,
 {
    /// Begins a session with the first message of a client. Something is sent
    /// only if this is a greeting in the right version and the gatekeeper of
    /// this host grants its key and its password. Otherwise the session has
    /// failed. Either way nothing is reserved, selected or started.
    pub fn handle(&mut self, first: Event, now: u64) -> (outcome: (Session, Vec<Action>))
        ensures
            final(self).same_equipment(old(self)),
            final(self)@ == old(self)@,
            ({
                let step = StepView {
                    session: outcome.0@,
                    radios: old(self)@.radios,
                    actions: action_views(outcome.1@),
                };
                &&& began(old(self)@, old(self).gatekeeper(), first, now, step)
                &&& sends(step) ==> (first matches Event::Text {
                    message: Ok(ClientMessage::Hello(hello)),
                    ..
                } && hello.protocol_version == PROTOCOL_VERSION && exists|k: &str, p: &str|
                    k@ == hello.access_key@ && p@ == hello.password@ && #[trigger] call_ensures(
                        U::authorize,
                        (&old(self).gatekeeper(), k, p),
                        true,
                    ))
                &&& arrives(first) && !sends(step) ==> step.session.phase is Closed
                    && step.actions.len() == 1 && (step.actions[0] matches ActionView::Close(end)
                    && end is Failed)
                &&& held(step.session) is None
                &&& !step.session.capture
            }),
    {
        let mut session = Session::new();
        let ghost asked = first;
        let mut actions = session.step(self, first);
        proof {
            law_new_session_holds_nothing();
            law_nothing_is_acquired_before_admission(fresh(), old(self)@, asked);
        }
        assert(self@ =~= old(self)@);
        if let Phase::Authorizing { .. } = &session.phase {
            actions = session.authorize(self, now);
        }
        let ghost step = StepView {
            session: session@,
            radios: self@.radios,
            actions: action_views(actions@),
        };
        proof {
            law_first_message_decides(old(self)@, old(self).gatekeeper(), asked, now, step);
        }
        assert(self@ =~= old(self)@);
        (session, actions)
    }
}

/// What a random session number looks like: version 4 in the version field and
/// the standard variant.
pub open spec fn random_session_id(id: u128) -> bool {
    id & 0xF000_C000_0000_0000_0000u128 == 0x4000_8000_0000_0000_0000u128
}

/// `uuid::Uuid::new_v4` draws a random number and sets the fields for version
/// and variant; `as_u128` gives it as a number. The other bits are up to
/// chance. Without a source of randomness the call panics.
#[verifier::external_body]
fn new_session_id() -> (id: u128)
    ensures
        random_session_id(id),
{
    uuid::Uuid::new_v4().as_u128()
}

/// Why a capture cannot be started, if anything speaks against it.
fn refuse_capture<R, A, S, O, U>(
    host: &HostBridge<R, A, S, O, U>,
    source_id: &str,
    format: &AudioFormat,
) -> (reason: Option<String>) where
    R: RadioProvider,
    A: AudioSource,
    S: AudioSink,
    O: AudioOutputProvider,
    U: Authorizer,

    ensures
        opt_text(reason) == capture_refusal(host@, source_id@, *format),
{
    let sources = match host.audio_sources() {
        Some(sources) => sources,
        None => {
            return Some("audio capture is unavailable".to_owned());
        },
    };
    let place: usize = match find_source(&sources, source_id) {
        Some(place) => place,
        None => {
            return Some("audio source is unavailable".to_owned());
        },
    };
    if has_format(&sources[place].formats, format) {
        None
    } else {
        Some("requested format is unavailable for audio source".to_owned())
    }
}

/// Why an output cannot be opened, if anything speaks against it.
fn refuse_output<R, A, S, O, U>(
    host: &HostBridge<R, A, S, O, U>,
    output_id: &str,
    format: &AudioFormat,
) -> (reason: Option<String>) where
    R: RadioProvider,
    A: AudioSource,
    S: AudioSink,
    O: AudioOutputProvider,
    U: Authorizer,

    ensures
        opt_text(reason) == output_refusal(host@, output_id@, *format),
{
    let outputs = match host.playback_outputs() {
        Some(outputs) => outputs,
        None => {
            return Some("audio playback is unavailable".to_owned());
        },
    };
    let place: usize = match find_output(&outputs, output_id) {
        Some(place) => place,
        None => {
            return Some("audio output is unavailable".to_owned());
        },
    };
    if has_format(&outputs[place].formats, format) {
        None
    } else {
        Some("requested format is unavailable for audio output".to_owned())
    }
}

/// Nothing to do.
fn none() -> (actions: Vec<Action>)
    ensures
        action_views(actions@) == Seq::<ActionView>::empty(),
{
    let actions: Vec<Action> = Vec::new();
    assert(action_views(actions@) =~= seq![]);
    actions
}

/// One thing to do.
fn one(action: Action) -> (actions: Vec<Action>)
    ensures
        action_views(actions@) == seq![action@],
{
    let actions = vec![action];
    assert(action_views(actions@) =~= seq![action@]);
    actions
}

/// Two things to do, in this order.
fn two(first: Action, second: Action) -> (actions: Vec<Action>)
    ensures
        action_views(actions@) == seq![first@, second@],
{
    let actions = vec![first, second];
    assert(action_views(actions@) =~= seq![first@, second@]);
    actions
}

} // verus!
