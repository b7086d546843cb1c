//! What a session does on each thing that happens, told by what was asked and
//! what was reported.

use crate::bridge::{Authorizer, HostView};
use crate::media::{packaged, received, AudioFrame};
use crate::protocol::{
    opt_value, output_ids, source_ids, AudioFormat, ClientHello, ClientMessage, ControlValue,
    RadioCapabilities, RadioMode, RadioRequest, RadioState, ServerMessageView, TunerStatus,
};
use crate::session::{
    action_views, arrives, began, capture_refusal, decided, fresh, greets, output_refusal,
    random_session_id, sends, stepped, Action, ActionView, Event, PhaseView, SessionEnd,
    SessionEndView, SessionView, StepView, HEARTBEAT_SECONDS, SILENCE_LIMIT_NANOS,
};
use crate::text::{decimal, lemma_place_of, opt_text};
use vstd::prelude::*;

verus! {

/// The refusal of a request, as the client gets it.
pub open spec fn refused(request_id: Option<Seq<char>>, reason: Seq<char>) -> ActionView {
    ActionView::Send(
        ServerMessageView::Error { code: "request_failed"@, message: reason, request_id },
    )
}

/// The acknowledgement of a request, as the client gets it.
pub open spec fn acknowledged(request_id: Option<Seq<char>>) -> ActionView {
    ActionView::Send(ServerMessageView::Ack { request_id })
}

/// A session that waits for the next message, after a message at a time.
pub open spec fn awake(s: SessionView, now: u64) -> SessionView {
    SessionView { last_activity: now, phase: PhaseView::Ready, ..s }
}

/// The same session, waiting for something else.
pub open spec fn waiting(s: SessionView, phase: PhaseView) -> SessionView {
    SessionView { phase, ..s }
}

/// The limits on silence: a client is asked for a sign of life every 15
/// seconds, and may stay silent for 45.
pub proof fn law_silence_limits()
    ensures
        HEARTBEAT_SECONDS == 15,
        SILENCE_LIMIT_NANOS == 45 * 1_000_000_000,
{
}

/// Where every session begins.
pub proof fn law_beginning()
    ensures
        fresh().phase == PhaseView::AwaitHello,
        fresh().radio is None,
        fresh().abilities is None,
        !fresh().capture,
        !fresh().playback,
        fresh().last_activity == 0,
        fresh().nonce == 0,
{
}

/// A session number carries the marks of a random UUID.
pub proof fn law_session_number_is_a_random_uuid(id: u128)
    ensures
        random_session_id(id) <==> (id >> 76u128) & 0xF == 4 && (id >> 62u128) & 0b11 == 0b10,
{
    assert((id & 0xF000_C000_0000_0000_0000u128 == 0x4000_8000_0000_0000_0000u128) <==> ((id
        >> 76u128) & 0xF == 4 && (id >> 62u128) & 0b11 == 0b10)) by (bit_vector);
}

/// What is to be done is seen as it is, and so is each of a list.
pub proof fn law_actions_are_kept(action: Action, actions: Seq<Action>, i: int)
    requires
        0 <= i < actions.len(),
    ensures
        action_views(actions).len() == actions.len(),
        action_views(actions)[i] == actions[i]@,
        match action {
            Action::Authorize { key, password } => action@ == (ActionView::Authorize {
                key: key@,
                password: password@,
            }),
            Action::Send(message) => action@ == ActionView::Send(message@),
            Action::SendMedia(bytes) => action@ == ActionView::SendMedia(bytes@),
            Action::ForcePttOff => action@ == ActionView::ForcePttOff,
            Action::DropRadio => action@ == ActionView::DropRadio,
            Action::OpenRadio { place, device_id, request } => action@ == (ActionView::OpenRadio {
                place: place as nat,
                device_id: device_id@,
                request,
            }),
            Action::DescribeRadio => action@ == ActionView::DescribeRadio,
            Action::SetFrequency(hz) => action@ == ActionView::SetFrequency(hz),
            Action::SetMode(mode) => action@ == ActionView::SetMode(mode),
            Action::SetPtt(enabled) => action@ == ActionView::SetPtt(enabled),
            Action::ReadRadio => action@ == ActionView::ReadRadio,
            Action::ReadMeter(id) => action@ == ActionView::ReadMeter(id@),
            Action::ReadControl(id) => action@ == ActionView::ReadControl(id@),
            Action::WriteControl { control_id, value } => action@ == (ActionView::WriteControl {
                control_id: control_id@,
                value: value@,
            }),
            Action::ReadTuner => action@ == ActionView::ReadTuner,
            Action::StartTuner => action@ == ActionView::StartTuner,
            Action::StartCapture { source_id, format } => action@ == (ActionView::StartCapture {
                source_id: source_id@,
                format,
            }),
            Action::StopCapture => action@ == ActionView::StopCapture,
            Action::OpenOutput { output_id, format } => action@ == (ActionView::OpenOutput {
                output_id: output_id@,
                format,
            }),
            Action::CloseOutput => action@ == ActionView::CloseOutput,
            Action::Submit(frame) => action@ == ActionView::Submit(frame@),
            Action::Close(end) => action@ == ActionView::Close(end@),
        },
{
}

/// How a session ended is seen as it is.
pub proof fn law_ends_are_kept(reason: String)
    ensures
        SessionEnd::Finished@ == SessionEndView::Finished,
        SessionEnd::Failed(reason)@ == SessionEndView::Failed(reason@),
{
}

/// A client that has a radio and asks for a frequency, a mode or the
/// transmitter gets exactly what it asked for ordered from the radio.
#[verifier::spinoff_prover]
pub proof fn law_commands_are_ordered_as_asked(
    s: SessionView,
    host: HostView,
    now: u64,
    request_id: Option<String>,
    frequency_hz: u64,
    mode: RadioMode,
    enabled: bool,
)
    requires
        s.phase is Ready,
        s.radio is Some,
    ensures
        ({
            let tune = Event::Text {
                now,
                message: Ok(ClientMessage::SetFrequency { request_id, frequency_hz }),
            };
            let switch = Event::Text {
                now,
                message: Ok(ClientMessage::SetMode { request_id, mode }),
            };
            let key = Event::Text {
                now,
                message: Ok(ClientMessage::SetPtt { request_id, enabled }),
            };
            let commanding = waiting(
                awake(s, now),
                PhaseView::Commanding { request_id: opt_text(request_id) },
            );
            &&& stepped(s, host, tune) == (StepView {
                session: commanding,
                radios: host.radios,
                actions: seq![ActionView::SetFrequency(frequency_hz)],
            })
            &&& stepped(s, host, switch) == (StepView {
                session: commanding,
                radios: host.radios,
                actions: seq![ActionView::SetMode(mode)],
            })
            &&& stepped(s, host, key) == (StepView {
                session: commanding,
                radios: host.radios,
                actions: seq![ActionView::SetPtt(enabled)],
            })
        }),
{
}

/// A client without a radio that asks for any of these is told to select one
/// first.
#[verifier::spinoff_prover]
pub proof fn law_commands_without_a_radio_are_refused(
    s: SessionView,
    host: HostView,
    now: u64,
    message: ClientMessage,
)
    requires
        s.phase is Ready,
        s.radio is None,
        message is SetFrequency || message is SetMode || message is SetPtt || message is GetMeter
            || message is GetControl || message is SetControl || message is GetTunerStatus
            || message is StartTuner,
    ensures
        stepped(s, host, Event::Text { now, message: Ok(message) }) == (StepView {
            session: awake(s, now),
            radios: host.radios,
            actions: seq![refused(message.id(), "select a radio first"@)],
        }),
{
}

/// The name under which a client wants to be answered is the one it gave.
pub proof fn law_request_names(
    request_id: Option<String>,
    hello: ClientHello,
    text: String,
    request: RadioRequest,
    number: u64,
    mode: RadioMode,
    flag: bool,
    value: ControlValue,
    format: AudioFormat,
)
    ensures
        ({
            let id = opt_text(request_id);
            &&& ClientMessage::Hello(hello).id() is None
            &&& (ClientMessage::SelectRadio { request_id, device_id: text, request }).id() == id
            &&& (ClientMessage::GetState { request_id }).id() == id
            &&& (ClientMessage::SetFrequency { request_id, frequency_hz: number }).id() == id
            &&& (ClientMessage::SetMode { request_id, mode }).id() == id
            &&& (ClientMessage::SetPtt { request_id, enabled: flag }).id() == id
            &&& (ClientMessage::GetMeter { request_id, meter_id: text }).id() == id
            &&& (ClientMessage::GetControl { request_id, control_id: text }).id() == id
            &&& (ClientMessage::SetControl { request_id, control_id: text, value }).id() == id
            &&& (ClientMessage::GetTunerStatus { request_id }).id() == id
            &&& (ClientMessage::StartTuner { request_id }).id() == id
            &&& (ClientMessage::SelectAudio {
                request_id,
                enabled: flag,
                source_id: text,
                format,
            }).id() == id
            &&& (ClientMessage::SelectAudioOutput {
                request_id,
                enabled: flag,
                output_id: text,
                format,
            }).id() == id
            &&& (ClientMessage::Ping { nonce: number }).id() is None
            &&& (ClientMessage::Pong { nonce: number }).id() is None
        }),
{
}

/// A command that the radio carried out is acknowledged; one that it did not
/// is refused with the reason that it gave. Either way under the name of the
/// request.
#[verifier::spinoff_prover]
pub proof fn law_commands_are_settled(
    s: SessionView,
    host: HostView,
    request_id: Option<Seq<char>>,
    reason: String,
)
    requires
        s.phase == (PhaseView::Commanding { request_id }),
    ensures
        stepped(s, host, Event::RadioDone(Ok(()))) == (StepView {
            session: waiting(s, PhaseView::Ready),
            radios: host.radios,
            actions: seq![acknowledged(request_id)],
        }),
        stepped(s, host, Event::RadioDone(Err(reason))) == (StepView {
            session: waiting(s, PhaseView::Ready),
            radios: host.radios,
            actions: seq![refused(request_id, reason@)],
        }),
{
}

/// Each order to a radio comes from a message that asked for exactly that.
#[verifier::spinoff_prover]
pub proof fn law_every_order_was_asked_for(s: SessionView, host: HostView, event: Event, i: int)
    requires
        0 <= i < stepped(s, host, event).actions.len(),
    ensures
        ({
            let action = stepped(s, host, event).actions[i];
            &&& action matches ActionView::SetFrequency(hz) ==> (event matches Event::Text {
                message: Ok(ClientMessage::SetFrequency { frequency_hz, .. }),
                ..
            } && frequency_hz == hz && s.radio is Some)
            &&& action matches ActionView::SetMode(mode) ==> (event matches Event::Text {
                message: Ok(ClientMessage::SetMode { mode: asked, .. }),
                ..
            } && asked == mode && s.radio is Some)
            &&& action matches ActionView::ReadMeter(id) ==> (event matches Event::Text {
                message: Ok(ClientMessage::GetMeter { meter_id, .. }),
                ..
            } && meter_id@ == id && s.radio is Some)
            &&& action matches ActionView::ReadControl(id) ==> (event matches Event::Text {
                message: Ok(ClientMessage::GetControl { control_id, .. }),
                ..
            } && control_id@ == id && s.radio is Some)
            &&& action matches ActionView::WriteControl { control_id, value } ==> (
            event matches Event::Text {
                message: Ok(ClientMessage::SetControl { control_id: id, value: asked, .. }),
                ..
            } && id@ == control_id && asked@ == value && s.radio is Some)
            &&& action is StartTuner ==> (event matches Event::Text {
                message: Ok(ClientMessage::StartTuner { .. }),
                ..
            })
        }),
{
    if s.phase is Ready {
        match event {
            Event::Text { message: Ok(message), .. } => match message {
                ClientMessage::SelectRadio { .. } => {},
                ClientMessage::SelectAudio { .. } => {},
                ClientMessage::SelectAudioOutput { .. } => {},
                _ => {},
            },
            Event::Text { message: Err(_), .. } => {},
            Event::Binary { .. } => {},
            Event::CaptureFrame(_) => {},
            _ => {},
        }
    } else {
        match event {
            Event::Text { .. } => {},
            Event::PttForcedOff => {},
            Event::RadioOpened(_) => {},
            _ => {},
        }
    }
}

/// A client that asks for the state of its radio has the radio read, and is
/// then sent exactly what was read. Without a radio it is sent an empty state
/// at once. The state of a radio that was just selected is sent in the same
/// way.
#[verifier::spinoff_prover]
pub proof fn law_state_is_what_was_read(
    s: SessionView,
    host: HostView,
    now: u64,
    request_id: Option<String>,
    state: RadioState,
)
    ensures
        s.phase is Ready && s.radio is Some ==> stepped(
            s,
            host,
            Event::Text { now, message: Ok(ClientMessage::GetState { request_id }) },
        ) == (StepView {
            session: waiting(awake(s, now), PhaseView::Reading),
            radios: host.radios,
            actions: seq![ActionView::ReadRadio],
        }),
        s.phase is Ready && s.radio is None ==> stepped(
            s,
            host,
            Event::Text { now, message: Ok(ClientMessage::GetState { request_id }) },
        ) == (StepView {
            session: awake(s, now),
            radios: host.radios,
            actions: seq![
                ActionView::Send(
                    ServerMessageView::State(
                        RadioState { frequency_hz: None, mode: None, ptt: None },
                    ),
                ),
            ],
        }),
        s.phase is Reading || s.phase is Announcing ==> stepped(s, host, Event::RadioRead(state))
            == (StepView {
            session: waiting(s, PhaseView::Ready),
            radios: host.radios,
            actions: seq![ActionView::Send(ServerMessageView::State(state))],
        }),
{
}

/// A client without a radio that selects one has it reserved and opened at the
/// first place of that name, with the request as it was made. If it cannot be
/// reserved the client is told why, and nothing changes.
#[verifier::spinoff_prover]
pub proof fn law_selecting_a_radio(
    s: SessionView,
    host: HostView,
    now: u64,
    request_id: Option<String>,
    device_id: String,
    request: RadioRequest,
)
    requires
        s.phase is Ready,
        s.radio is None,
    ensures
        ({
            let step = stepped(
                s,
                host,
                Event::Text {
                    now,
                    message: Ok(ClientMessage::SelectRadio { request_id, device_id, request }),
                },
            );
            match host.radios.reservation(device_id@) {
                Ok(place) => step == (StepView {
                    session: waiting(
                        awake(s, now),
                        PhaseView::Opening {
                            request_id: opt_text(request_id),
                            device_id: device_id@,
                        },
                    ),
                    radios: host.radios.acquired(device_id@),
                    actions: seq![
                        ActionView::OpenRadio { place, device_id: device_id@, request },
                    ],
                }),
                Err(error) => step == (StepView {
                    session: awake(s, now),
                    radios: host.radios,
                    actions: seq![refused(opt_text(request_id), error.text())],
                }),
            }
        }),
{
}

/// A client with a radio that selects one has the old one told to stop
/// transmitting, with nothing given back yet.
#[verifier::spinoff_prover]
pub proof fn law_selecting_another_radio(
    s: SessionView,
    host: HostView,
    now: u64,
    request_id: Option<String>,
    device_id: String,
    request: RadioRequest,
)
    requires
        s.phase is Ready,
        s.radio is Some,
    ensures
        stepped(
            s,
            host,
            Event::Text {
                now,
                message: Ok(ClientMessage::SelectRadio { request_id, device_id, request }),
            },
        ) == (StepView {
            session: waiting(
                awake(s, now),
                PhaseView::Switching {
                    request_id: opt_text(request_id),
                    device_id: device_id@,
                    request,
                },
            ),
            radios: host.radios,
            actions: seq![ActionView::ForcePttOff],
        }),
{
}

/// Once the old radio was told to stop transmitting it is let go and given
/// back, and the new one is reserved and opened, or refused.
#[verifier::spinoff_prover]
pub proof fn law_switching(
    s: SessionView,
    host: HostView,
    old: Seq<char>,
    request_id: Option<Seq<char>>,
    device_id: Seq<char>,
    request: RadioRequest,
)
    requires
        s.phase == (PhaseView::Switching { request_id, device_id, request }),
        s.radio == Some(old),
    ensures
        ({
            let free = host.radios.released(old);
            let bare = SessionView { radio: None, abilities: None, ..s };
            let step = stepped(s, host, Event::PttForcedOff);
            match free.reservation(device_id) {
                Ok(place) => step == (StepView {
                    session: waiting(bare, PhaseView::Opening { request_id, device_id }),
                    radios: free.acquired(device_id),
                    actions: seq![
                        ActionView::DropRadio,
                        ActionView::OpenRadio { place, device_id, request },
                    ],
                }),
                Err(error) => step == (StepView {
                    session: waiting(bare, PhaseView::Ready),
                    radios: free,
                    actions: seq![ActionView::DropRadio, refused(request_id, error.text())],
                }),
            }
        }),
{
}

/// A radio that opened is selected and its client told so; one that did not is
/// given back and its client told why.
#[verifier::spinoff_prover]
pub proof fn law_opening(
    s: SessionView,
    host: HostView,
    request_id: Option<Seq<char>>,
    device_id: Seq<char>,
    reason: String,
)
    requires
        s.phase == (PhaseView::Opening { request_id, device_id }),
    ensures
        stepped(s, host, Event::RadioOpened(Ok(()))) == (StepView {
            session: SessionView { radio: Some(device_id), phase: PhaseView::Describing, ..s },
            radios: host.radios,
            actions: seq![acknowledged(request_id), ActionView::DescribeRadio],
        }),
        stepped(s, host, Event::RadioOpened(Err(reason))) == (StepView {
            session: waiting(s, PhaseView::Ready),
            radios: host.radios.released(device_id),
            actions: seq![refused(request_id, reason@)],
        }),
{
}

/// What a radio was found to be capable of is sent as it is and kept, and the
/// state of the radio is read next.
#[verifier::spinoff_prover]
pub proof fn law_describing(s: SessionView, host: HostView, capabilities: RadioCapabilities)
    requires
        s.phase is Describing,
    ensures
        stepped(s, host, Event::RadioDescribed(capabilities)) == (StepView {
            session: SessionView {
                abilities: Some(capabilities@),
                phase: PhaseView::Announcing,
                ..s
            },
            radios: host.radios,
            actions: seq![
                ActionView::Send(ServerMessageView::RadioCapabilities(capabilities@)),
                ActionView::ReadRadio,
            ],
        }),
{
}

/// A meter that the radio was announced to have is read; another is refused.
#[verifier::spinoff_prover]
pub proof fn law_asking_for_a_meter(
    s: SessionView,
    host: HostView,
    now: u64,
    request_id: Option<String>,
    meter_id: String,
)
    requires
        s.phase is Ready,
        s.radio is Some,
    ensures
        ({
            let listed = s.abilities matches Some(abilities) && abilities.has_meter(meter_id@);
            let step = stepped(
                s,
                host,
                Event::Text { now, message: Ok(ClientMessage::GetMeter { request_id, meter_id }) },
            );
            if listed {
                step == (StepView {
                    session: waiting(
                        awake(s, now),
                        PhaseView::Metering {
                            request_id: opt_text(request_id),
                            meter_id: meter_id@,
                        },
                    ),
                    radios: host.radios,
                    actions: seq![ActionView::ReadMeter(meter_id@)],
                })
            } else {
                step == (StepView {
                    session: awake(s, now),
                    radios: host.radios,
                    actions: seq![
                        refused(
                            opt_text(request_id),
                            "meter is unavailable on the selected radio"@,
                        ),
                    ],
                })
            }
        }),
{
}

/// A control that the radio was announced to let read is read; another is
/// refused.
#[verifier::spinoff_prover]
pub proof fn law_asking_for_a_control(
    s: SessionView,
    host: HostView,
    now: u64,
    request_id: Option<String>,
    control_id: String,
)
    requires
        s.phase is Ready,
        s.radio is Some,
    ensures
        ({
            let listed = s.abilities matches Some(abilities) && abilities.reads(control_id@);
            let step = stepped(
                s,
                host,
                Event::Text {
                    now,
                    message: Ok(ClientMessage::GetControl { request_id, control_id }),
                },
            );
            if listed {
                step == (StepView {
                    session: waiting(
                        awake(s, now),
                        PhaseView::Inspecting {
                            request_id: opt_text(request_id),
                            control_id: control_id@,
                        },
                    ),
                    radios: host.radios,
                    actions: seq![ActionView::ReadControl(control_id@)],
                })
            } else {
                step == (StepView {
                    session: awake(s, now),
                    radios: host.radios,
                    actions: seq![
                        refused(
                            opt_text(request_id),
                            "control is not readable on the selected radio"@,
                        ),
                    ],
                })
            }
        }),
{
}

/// A control that the radio was announced to let set is set to the value that
/// was given; another is refused.
#[verifier::spinoff_prover]
pub proof fn law_setting_a_control(
    s: SessionView,
    host: HostView,
    now: u64,
    request_id: Option<String>,
    control_id: String,
    value: ControlValue,
)
    requires
        s.phase is Ready,
        s.radio is Some,
    ensures
        ({
            let listed = s.abilities matches Some(abilities) && abilities.writes(control_id@);
            let step = stepped(
                s,
                host,
                Event::Text {
                    now,
                    message: Ok(ClientMessage::SetControl { request_id, control_id, value }),
                },
            );
            if listed {
                step == (StepView {
                    session: waiting(
                        awake(s, now),
                        PhaseView::Commanding { request_id: opt_text(request_id) },
                    ),
                    radios: host.radios,
                    actions: seq![
                        ActionView::WriteControl { control_id: control_id@, value: value@ },
                    ],
                })
            } else {
                step == (StepView {
                    session: awake(s, now),
                    radios: host.radios,
                    actions: seq![
                        refused(
                            opt_text(request_id),
                            "control is not writable on the selected radio"@,
                        ),
                    ],
                })
            }
        }),
{
}

/// A tuner that the radio was announced to have is asked or started; otherwise
/// the request is refused.
#[verifier::spinoff_prover]
pub proof fn law_using_the_tuner(
    s: SessionView,
    host: HostView,
    now: u64,
    request_id: Option<String>,
)
    requires
        s.phase is Ready,
        s.radio is Some,
    ensures
        ({
            let id = opt_text(request_id);
            let listed = s.abilities matches Some(abilities) && abilities.tuner;
            let ask = stepped(
                s,
                host,
                Event::Text { now, message: Ok(ClientMessage::GetTunerStatus { request_id }) },
            );
            let start = stepped(
                s,
                host,
                Event::Text { now, message: Ok(ClientMessage::StartTuner { request_id }) },
            );
            let refusal = StepView {
                session: awake(s, now),
                radios: host.radios,
                actions: seq![refused(id, "antenna tuner is unavailable on the selected radio"@)],
            };
            if listed {
                &&& ask == (StepView {
                    session: waiting(awake(s, now), PhaseView::CheckingTuner { request_id: id }),
                    radios: host.radios,
                    actions: seq![ActionView::ReadTuner],
                })
                &&& start == (StepView {
                    session: waiting(awake(s, now), PhaseView::Commanding { request_id: id }),
                    radios: host.radios,
                    actions: seq![ActionView::StartTuner],
                })
            } else {
                ask == refusal && start == refusal
            }
        }),
{
}

/// What was read of a meter, a control or the tuner is sent as it is, under
/// the names of the request and of what was read; a failed reading is refused
/// with its reason.
#[verifier::spinoff_prover]
pub proof fn law_readings_are_sent_as_they_are(
    s: SessionView,
    host: HostView,
    request_id: Option<Seq<char>>,
    name: Seq<char>,
    level: Option<u8>,
    value: Option<ControlValue>,
    status: Option<TunerStatus>,
    reason: String,
)
    ensures
        ({
            let answered = |message: ServerMessageView|
                StepView {
                    session: waiting(s, PhaseView::Ready),
                    radios: host.radios,
                    actions: seq![ActionView::Send(message)],
                };
            let failed = StepView {
                session: waiting(s, PhaseView::Ready),
                radios: host.radios,
                actions: seq![refused(request_id, reason@)],
            };
            &&& s.phase == (PhaseView::Metering { request_id, meter_id: name }) ==> {
                &&& stepped(s, host, Event::MeterRead(Ok(level))) == answered(
                    ServerMessageView::MeterValue { request_id, meter_id: name, level },
                )
                &&& stepped(s, host, Event::MeterRead(Err(reason))) == failed
            }
            &&& s.phase == (PhaseView::Inspecting { request_id, control_id: name }) ==> {
                &&& stepped(s, host, Event::ControlRead(Ok(value))) == answered(
                    ServerMessageView::ControlValue {
                        request_id,
                        control_id: name,
                        value: opt_value(value),
                    },
                )
                &&& stepped(s, host, Event::ControlRead(Err(reason))) == failed
            }
            &&& s.phase == (PhaseView::CheckingTuner { request_id }) ==> {
                &&& stepped(s, host, Event::TunerRead(Ok(status))) == answered(
                    ServerMessageView::TunerStatus { request_id, status },
                )
                &&& stepped(s, host, Event::TunerRead(Err(reason))) == failed
            }
        }),
{
}

/// Why a capture is refused: no capture at all, then no source of that name,
/// then no such format of the first source of that name; else it is not.
pub proof fn law_capture_refusals(
    host: HostView,
    source_id: Seq<char>,
    format: AudioFormat,
    place: int,
)
    requires
        host.audio matches Some(sources) ==> 0 <= place <= sources.len() && (forall|j: int|
            0 <= j < place ==> (#[trigger] sources[j]).id != source_id) && (place < sources.len()
            ==> sources[place].id == source_id),
    ensures
        match host.audio {
            None => capture_refusal(host, source_id, format) == Some(
                "audio capture is unavailable"@,
            ),
            Some(sources) => if place == sources.len() {
                capture_refusal(host, source_id, format) == Some("audio source is unavailable"@)
            } else if !sources[place].formats.contains(format) {
                capture_refusal(host, source_id, format) == Some(
                    "requested format is unavailable for audio source"@,
                )
            } else {
                capture_refusal(host, source_id, format) is None
            },
        },
{
    if let Some(sources) = host.audio {
        let ids = source_ids(sources);
        assert forall|j: int| 0 <= j < place implies ids[j] != source_id by {
            assert(ids[j] == sources[j].id);
        }
        lemma_place_of(ids, source_id, place);
    }
}

/// Why an output is refused: no playback at all, then no output of that name,
/// then no such format of the first output of that name; else it is not.
pub proof fn law_output_refusals(
    host: HostView,
    output_id: Seq<char>,
    format: AudioFormat,
    place: int,
)
    requires
        host.audio_outputs matches Some(outputs) ==> 0 <= place <= outputs.len() && (forall|j: int|
            0 <= j < place ==> (#[trigger] outputs[j]).id != output_id) && (place < outputs.len()
            ==> outputs[place].id == output_id),
    ensures
        match host.audio_outputs {
            None => output_refusal(host, output_id, format) == Some(
                "audio playback is unavailable"@,
            ),
            Some(outputs) => if place == outputs.len() {
                output_refusal(host, output_id, format) == Some("audio output is unavailable"@)
            } else if !outputs[place].formats.contains(format) {
                output_refusal(host, output_id, format) == Some(
                    "requested format is unavailable for audio output"@,
                )
            } else {
                output_refusal(host, output_id, format) is None
            },
        },
{
    if let Some(outputs) = host.audio_outputs {
        let ids = output_ids(outputs);
        assert forall|j: int| 0 <= j < place implies ids[j] != output_id by {
            assert(ids[j] == outputs[j].id);
        }
        lemma_place_of(ids, output_id, place);
    }
}

/// A client that switches capture off has it stopped and is told so. One that
/// switches it on has it started from the source and in the format that it
/// asked for, unless something speaks against it.
#[verifier::spinoff_prover]
pub proof fn law_selecting_capture(
    s: SessionView,
    host: HostView,
    now: u64,
    request_id: Option<String>,
    enabled: bool,
    source_id: String,
    format: AudioFormat,
)
    requires
        s.phase is Ready,
    ensures
        ({
            let id = opt_text(request_id);
            let step = stepped(
                s,
                host,
                Event::Text {
                    now,
                    message: Ok(
                        ClientMessage::SelectAudio { request_id, enabled, source_id, format },
                    ),
                },
            );
            if !enabled {
                step == (StepView {
                    session: SessionView { capture: false, ..awake(s, now) },
                    radios: host.radios,
                    actions: seq![ActionView::StopCapture, acknowledged(id)],
                })
            } else {
                match capture_refusal(host, source_id@, format) {
                    Some(reason) => step == (StepView {
                        session: awake(s, now),
                        radios: host.radios,
                        actions: seq![refused(id, reason)],
                    }),
                    None => step == (StepView {
                        session: waiting(
                            awake(s, now),
                            PhaseView::StartingCapture { request_id: id },
                        ),
                        radios: host.radios,
                        actions: seq![
                            ActionView::StartCapture { source_id: source_id@, format },
                        ],
                    }),
                }
            }
        }),
{
}

/// A client that switches playback off has its output let go and is told so.
/// One that switches it on has the output opened in the format that it asked
/// for, unless something speaks against it.
#[verifier::spinoff_prover]
pub proof fn law_selecting_playback(
    s: SessionView,
    host: HostView,
    now: u64,
    request_id: Option<String>,
    enabled: bool,
    output_id: String,
    format: AudioFormat,
)
    requires
        s.phase is Ready,
    ensures
        ({
            let id = opt_text(request_id);
            let step = stepped(
                s,
                host,
                Event::Text {
                    now,
                    message: Ok(
                        ClientMessage::SelectAudioOutput { request_id, enabled, output_id, format },
                    ),
                },
            );
            if !enabled {
                step == (StepView {
                    session: SessionView { playback: false, ..awake(s, now) },
                    radios: host.radios,
                    actions: seq![ActionView::CloseOutput, acknowledged(id)],
                })
            } else {
                match output_refusal(host, output_id@, format) {
                    Some(reason) => step == (StepView {
                        session: awake(s, now),
                        radios: host.radios,
                        actions: seq![refused(id, reason)],
                    }),
                    None => step == (StepView {
                        session: waiting(
                            awake(s, now),
                            PhaseView::OpeningOutput { request_id: id },
                        ),
                        radios: host.radios,
                        actions: seq![ActionView::OpenOutput { output_id: output_id@, format }],
                    }),
                }
            }
        }),
{
}

/// A capture or an output that was started counts from then on and is
/// acknowledged; one that was not leaves what there was, and the reason is
/// given.
#[verifier::spinoff_prover]
pub proof fn law_audio_requests_are_settled(
    s: SessionView,
    host: HostView,
    request_id: Option<Seq<char>>,
    reason: String,
)
    ensures
        s.phase == (PhaseView::StartingCapture { request_id }) ==> stepped(
            s,
            host,
            Event::CaptureStarted(Ok(())),
        ) == (StepView {
            session: SessionView { capture: true, phase: PhaseView::Ready, ..s },
            radios: host.radios,
            actions: seq![acknowledged(request_id)],
        }) && stepped(s, host, Event::CaptureStarted(Err(reason))) == (StepView {
            session: waiting(s, PhaseView::Ready),
            radios: host.radios,
            actions: seq![refused(request_id, reason@)],
        }),
        s.phase == (PhaseView::OpeningOutput { request_id }) ==> stepped(
            s,
            host,
            Event::OutputOpened(Ok(())),
        ) == (StepView {
            session: SessionView { playback: true, phase: PhaseView::Ready, ..s },
            radios: host.radios,
            actions: seq![acknowledged(request_id)],
        }) && stepped(s, host, Event::OutputOpened(Err(reason))) == (StepView {
            session: waiting(s, PhaseView::Ready),
            radios: host.radios,
            actions: seq![refused(request_id, reason@)],
        }),
{
}

/// A binary message is judged as `received` says: a good frame goes to the
/// output as it is, a fault is told in its words.
#[verifier::spinoff_prover]
pub proof fn law_client_audio_goes_to_the_output(
    s: SessionView,
    host: HostView,
    now: u64,
    bytes: Vec<u8>,
)
    requires
        s.phase is Ready,
    ensures
        match received(bytes@, s.playback) {
            Ok(frame) => stepped(s, host, Event::Binary { now, bytes }) == (StepView {
                session: waiting(awake(s, now), PhaseView::Submitting),
                radios: host.radios,
                actions: seq![ActionView::Submit(frame)],
            }),
            Err(error) => stepped(s, host, Event::Binary { now, bytes }) == (StepView {
                session: awake(s, now),
                radios: host.radios,
                actions: seq![
                    ActionView::Send(
                        ServerMessageView::Error {
                            code: "media_failed"@,
                            message: error.text(),
                            request_id: None,
                        },
                    ),
                ],
            }),
        },
{
}

/// A frame that the output took needs no word; one that it did not take is
/// reported with the reason.
#[verifier::spinoff_prover]
pub proof fn law_submitted_frames(s: SessionView, host: HostView, reason: String)
    requires
        s.phase is Submitting,
    ensures
        stepped(s, host, Event::FrameSubmitted(Ok(()))) == (StepView {
            session: waiting(s, PhaseView::Ready),
            radios: host.radios,
            actions: seq![],
        }),
        stepped(s, host, Event::FrameSubmitted(Err(reason))) == (StepView {
            session: waiting(s, PhaseView::Ready),
            radios: host.radios,
            actions: seq![
                ActionView::Send(
                    ServerMessageView::Error {
                        code: "media_failed"@,
                        message: reason@,
                        request_id: None,
                    },
                ),
            ],
        }),
{
}

/// While a capture runs, each frame goes out as `packaged` says, a frame over
/// the limit is reported, and so is the number of frames that were lost. Else
/// captured frames go nowhere. A capture that ended runs no more.
#[verifier::spinoff_prover]
pub proof fn law_captured_audio_goes_to_the_client(
    s: SessionView,
    host: HostView,
    frame: AudioFrame,
    count: u64,
)
    requires
        s.phase is Ready,
    ensures
        ({
            let said = |code: Seq<char>, words: Seq<char>|
                StepView {
                    session: s,
                    radios: host.radios,
                    actions: seq![
                        ActionView::Send(
                            ServerMessageView::Error { code, message: words, request_id: None },
                        ),
                    ],
                };
            let silent = StepView { session: s, radios: host.radios, actions: seq![] };
            &&& s.capture ==> stepped(s, host, Event::CaptureFrame(frame)) == match packaged(
                frame@,
            ) {
                Some(bytes) => StepView {
                    session: s,
                    radios: host.radios,
                    actions: seq![ActionView::SendMedia(bytes)],
                },
                None => said(
                    "media_frame_too_large"@,
                    "audio frame exceeds the HostBridge limit"@,
                ),
            }
            &&& s.capture ==> stepped(s, host, Event::CaptureLagged(count)) == said(
                "media_frames_dropped"@,
                "audio consumer fell behind; dropped "@ + decimal(count as nat) + " frames"@,
            )
            &&& !s.capture ==> stepped(s, host, Event::CaptureFrame(frame)) == silent
            &&& !s.capture ==> stepped(s, host, Event::CaptureLagged(count)) == silent
            &&& stepped(s, host, Event::CaptureClosed) == (StepView {
                session: SessionView { capture: false, ..s },
                radios: host.radios,
                actions: seq![],
            })
        }),
{
}

/// A sign of life that a client asks for comes back under the client's number,
/// a sign of life from the client needs no answer, and a second greeting is
/// refused.
#[verifier::spinoff_prover]
pub proof fn law_signs_of_life(
    s: SessionView,
    host: HostView,
    now: u64,
    nonce: u64,
    hello: ClientHello,
)
    requires
        s.phase is Ready,
    ensures
        stepped(s, host, Event::Text { now, message: Ok(ClientMessage::Ping { nonce }) }) == (
        StepView {
            session: awake(s, now),
            radios: host.radios,
            actions: seq![ActionView::Send(ServerMessageView::Pong { nonce })],
        }),
        stepped(s, host, Event::Text { now, message: Ok(ClientMessage::Pong { nonce }) }) == (
        StepView { session: awake(s, now), radios: host.radios, actions: seq![] }),
        stepped(s, host, Event::Text { now, message: Ok(ClientMessage::Hello(hello)) }) == (
        StepView {
            session: awake(s, now),
            radios: host.radios,
            actions: seq![
                ActionView::Send(
                    ServerMessageView::Error {
                        code: "already_authenticated"@,
                        message: "hello is only valid as the first message"@,
                        request_id: None,
                    },
                ),
            ],
        }),
{
}

/// When it is time, a client that was heard of within 45 seconds is asked for
/// a sign of life under the next number; one that was not is dropped.
#[verifier::spinoff_prover]
pub proof fn law_heartbeat(s: SessionView, host: HostView, now: u64)
    requires
        s.phase is Ready,
    ensures
        now - s.last_activity <= 45_000_000_000 ==> ({
            let next = if s.nonce == u64::MAX {
                0u64
            } else {
                (s.nonce + 1) as u64
            };
            stepped(s, host, Event::Tick { now }) == (StepView {
                session: SessionView { nonce: next, ..s },
                radios: host.radios,
                actions: seq![ActionView::Send(ServerMessageView::Ping { nonce: next })],
            })
        }),
        now - s.last_activity > 45_000_000_000 ==> {
            let end = SessionEndView::Failed("client heartbeat timed out"@);
            if s.radio is Some {
                stepped(s, host, Event::Tick { now }) == (StepView {
                    session: waiting(s, PhaseView::Closing { end }),
                    radios: host.radios,
                    actions: seq![ActionView::ForcePttOff],
                })
            } else {
                stepped(s, host, Event::Tick { now }) == (StepView {
                    session: waiting(s, PhaseView::Closed),
                    radios: host.radios,
                    actions: seq![ActionView::Close(end)],
                })
            }
        },
{
}

/// How a session ends that is not ending yet: by whom or what, and for which
/// reason. A selected radio is told to stop transmitting first; a radio that
/// was only reserved is given back.
#[verifier::spinoff_prover]
pub proof fn law_reasons_for_the_end(s: SessionView, host: HostView, event: Event)
    requires
        !(s.phase is Closing),
        !(s.phase is Closed),
        event is PeerClosed || event is TransportFailed || event is SendFailed || event is Shutdown,
    ensures
        ({
            let end = match event {
                Event::SendFailed(reason) => SessionEndView::Failed(reason@),
                Event::Shutdown => SessionEndView::Finished,
                _ => if s.phase is AwaitHello {
                    SessionEndView::Failed("client closed before hello"@)
                } else {
                    match event {
                        Event::TransportFailed(reason) => SessionEndView::Failed(reason@),
                        _ => SessionEndView::Finished,
                    }
                },
            };
            if s.radio is Some {
                stepped(s, host, event) == (StepView {
                    session: waiting(s, PhaseView::Closing { end }),
                    radios: host.radios,
                    actions: seq![ActionView::ForcePttOff],
                })
            } else {
                stepped(s, host, event) == (StepView {
                    session: waiting(s, PhaseView::Closed),
                    radios: match s.phase {
                        PhaseView::Opening { device_id, .. } => host.radios.released(device_id),
                        _ => host.radios,
                    },
                    actions: seq![ActionView::Close(end)],
                })
            }
        }),
{
}

/// What the first message of a client leads to: a greeting in the right
/// version asks for a decision on its key and password, and anything else ends
/// the session for its reason.
#[verifier::spinoff_prover]
pub proof fn law_first_message(
    s: SessionView,
    host: HostView,
    now: u64,
    message: Result<ClientMessage, String>,
    bytes: Vec<u8>,
)
    requires
        s.phase is AwaitHello,
        s.radio is None,
    ensures
        ({
            let ended = |reason: Seq<char>|
                StepView {
                    session: waiting(s, PhaseView::Closed),
                    radios: host.radios,
                    actions: seq![ActionView::Close(SessionEndView::Failed(reason))],
                };
            let step = stepped(s, host, Event::Text { now, message });
            &&& match message {
                Err(reason) => step == ended(reason@),
                Ok(ClientMessage::Hello(hello)) => if hello.protocol_version == 6 {
                    step == (StepView {
                        session: waiting(
                            s,
                            PhaseView::Authorizing {
                                key: hello.access_key@,
                                password: hello.password@,
                            },
                        ),
                        radios: host.radios,
                        actions: seq![
                            ActionView::Authorize {
                                key: hello.access_key@,
                                password: hello.password@,
                            },
                        ],
                    })
                } else {
                    step == ended("unauthorized HostBridge client"@)
                },
                Ok(_) => step == ended("first message must be hello"@),
            }
            &&& stepped(s, host, Event::Binary { now, bytes }) == ended(
                "client closed before hello"@,
            )
            &&& stepped(s, host, Event::OtherFrame) == ended("client closed before hello"@)
        }),
{
}

/// What the decision on a client leads to: an admitted client is greeted, has
/// playback if the host has a fixed sink, and counts as heard of; another is
/// dropped.
#[verifier::spinoff_prover]
pub proof fn law_decision(
    s: SessionView,
    host: HostView,
    now: u64,
    session_id: u128,
)
    requires
        s.phase is Authorizing,
        s.radio is None,
    ensures
        stepped(s, host, Event::Authorized { now, granted: true, session_id }) == (StepView {
            session: SessionView {
                last_activity: now,
                playback: host.audio_sink,
                phase: PhaseView::Ready,
                ..s
            },
            radios: host.radios,
            actions: seq![ActionView::Send(ServerMessageView::Hello(host.hello(session_id)))],
        }),
        stepped(s, host, Event::Authorized { now, granted: false, session_id }) == (StepView {
            session: waiting(s, PhaseView::Closed),
            radios: host.radios,
            actions: seq![
                ActionView::Close(SessionEndView::Failed("unauthorized HostBridge client"@)),
            ],
        }),
{
}

/// Once the radio of an ending session was told to stop transmitting, it is
/// let go and given back, and the session is over as it was going to be.
#[verifier::spinoff_prover]
pub proof fn law_ending(s: SessionView, host: HostView, old: Seq<char>, end: SessionEndView)
    requires
        s.phase == (PhaseView::Closing { end }),
        s.radio == Some(old),
    ensures
        stepped(s, host, Event::PttForcedOff) == (StepView {
            session: SessionView {
                radio: None,
                abilities: None,
                phase: PhaseView::Closed,
                ..s
            },
            radios: host.radios.released(old),
            actions: seq![ActionView::DropRadio, ActionView::Close(end)],
        }),
{
}

/// A report that nobody waits for, and a frame that carries no message, change
/// nothing and lead to nothing.
#[verifier::spinoff_prover]
pub proof fn law_unexpected_reports_are_ignored(s: SessionView, host: HostView, event: Event)
    requires
        match event {
            Event::OtherFrame => !(s.phase is AwaitHello),
            Event::Text { .. } => !(s.phase is AwaitHello) && !(s.phase is Ready),
            Event::Binary { .. } => !(s.phase is AwaitHello) && !(s.phase is Ready),
            Event::Tick { .. } => !(s.phase is Ready),
            Event::Authorized { .. } => !(s.phase is Authorizing),
            Event::PttForcedOff => !(s.phase is Switching) && !(s.phase is Closing),
            Event::RadioOpened(_) => !(s.phase is Opening),
            Event::RadioDescribed(_) => !(s.phase is Describing),
            Event::RadioDone(_) => !(s.phase is Commanding),
            Event::RadioRead(_) => !(s.phase is Reading) && !(s.phase is Announcing),
            Event::MeterRead(_) => !(s.phase is Metering),
            Event::ControlRead(_) => !(s.phase is Inspecting),
            Event::TunerRead(_) => !(s.phase is CheckingTuner),
            Event::CaptureStarted(_) => !(s.phase is StartingCapture),
            Event::CaptureFrame(_) => !(s.phase is Ready),
            Event::CaptureLagged(_) => !(s.phase is Ready),
            Event::CaptureClosed => !(s.phase is Ready),
            Event::OutputOpened(_) => !(s.phase is OpeningOutput),
            Event::FrameSubmitted(_) => !(s.phase is Submitting),
            _ => s.phase is Closing || s.phase is Closed,
        },
    ensures
        stepped(s, host, event) == (StepView {
            session: s,
            radios: host.radios,
            actions: seq![],
        }),
{
}

/// What the decision of a gatekeeper on a greeting leads to. If it grants the
/// key and the password of the greeting, the client is greeted under a random
/// session number and counts as heard of at the time of the decision. If it
/// does not, the client is dropped. Either way nothing else changes.
#[verifier::spinoff_prover]
pub proof fn law_gatekeeper_decides<U: Authorizer>(
    s: SessionView,
    host: HostView,
    gatekeeper: U,
    now: u64,
    step: StepView,
    key: Seq<char>,
    password: Seq<char>,
)
    requires
        decided(s, host, gatekeeper, now, step),
        s.phase == (PhaseView::Authorizing { key, password }),
        s.radio is None,
    ensures
        step.radios == host.radios,
        exists|k: &str, p: &str, granted: bool|
            k@ == key && p@ == password && #[trigger] call_ensures(
                U::authorize,
                (&gatekeeper, k, p),
                granted,
            ) && if granted {
                &&& step.session == (SessionView {
                    last_activity: now,
                    playback: host.audio_sink,
                    phase: PhaseView::Ready,
                    ..s
                })
                &&& exists|session_id: u128| #[trigger]
                    random_session_id(session_id) && step.actions == seq![
                        ActionView::Send(ServerMessageView::Hello(host.hello(session_id))),
                    ]
            } else {
                &&& step.session == waiting(s, PhaseView::Closed)
                &&& step.actions == seq![
                    ActionView::Close(SessionEndView::Failed("unauthorized HostBridge client"@)),
                ]
            },
{
    let (k, p, granted, session_id) = choose|k: &str, p: &str, granted: bool, session_id: u128|
        k@ == key && p@ == password && #[trigger] random_session_id(session_id)
            && #[trigger] call_ensures(U::authorize, (&gatekeeper, k, p), granted) && step
            == stepped(s, host, Event::Authorized { now, granted, session_id });
    law_decision(s, host, now, session_id);
    assert(call_ensures(U::authorize, (&gatekeeper, k, p), granted));
    if granted {
        assert(random_session_id(session_id));
    }
}

/// A decision that nobody waits for changes nothing, and one that a first
/// message asks for is made on that message.
#[verifier::spinoff_prover]
pub proof fn law_decisions_follow_greetings<U: Authorizer>(
    s: SessionView,
    host: HostView,
    gatekeeper: U,
    first: Event,
    now: u64,
    step: StepView,
)
    ensures
        decided(s, host, gatekeeper, now, step) && !(s.phase is Authorizing) ==> step == (StepView {
            session: s,
            radios: host.radios,
            actions: seq![],
        }),
        began(host, gatekeeper, first, now, step) ==> match first {
            Event::Text { message: Ok(ClientMessage::Hello(hello)), .. } => if hello.protocol_version
                == 6 {
                decided(
                    waiting(
                        fresh(),
                        PhaseView::Authorizing {
                            key: hello.access_key@,
                            password: hello.password@,
                        },
                    ),
                    host,
                    gatekeeper,
                    now,
                    step,
                )
            } else {
                step == stepped(fresh(), host, first)
            },
            _ => step == stepped(fresh(), host, first),
        },
{
}

/// The vocabulary for a first message: what counts as an arrival, as a
/// greeting in the right version and as sending.
pub proof fn law_first_message_vocabulary(event: Event, step: StepView)
    ensures
        arrives(event) <==> event is Text || event is Binary || event is OtherFrame
            || event is PeerClosed || event is TransportFailed,
        greets(event) <==> (event matches Event::Text {
            message: Ok(ClientMessage::Hello(hello)),
            ..
        } && hello.protocol_version == 6),
        sends(step) <==> exists|i: int|
            0 <= i < step.actions.len() && (#[trigger] step.actions[i]) is Send,
{
}

} // verus!
