//! What holds of every session, whatever its client, its radio and its
//! connection do.

use crate::audio::{AudioOutputProvider, AudioSink, AudioSource};
use crate::bridge::{
    law_static_authorizer_admits_by_key_and_password, Authorizer, HostBridge, HostView,
    StaticAuthorizer,
};
use crate::media::{
    law_frames_are_bounded, packaged, received, AudioFrameView, MediaError, MAX_MEDIA_FRAME_BYTES,
    MAX_MEDIA_PAYLOAD_BYTES,
};
use crate::protocol::{
    ClientMessage, RadioCapabilities, RadioState, ServerMessageView, PROTOCOL_VERSION,
};
use crate::radio::{first_named, lemma_first_named_holds, ConfiguredRadioProvider, RadioProvider};
use crate::session::{
    arrives, began, capture_refusal, decided, dispatched, fresh, greets, meter_objection,
    output_refusal, random_session_id, read_objection, sends, stepped, tuner_objection,
    write_objection, ActionView, Event, PhaseView, SessionEndView, SessionView, StepView, SILENCE_LIMIT_NANOS,
};
use vstd::prelude::*;

verus! {

/// The radio that a session has reserved.
pub open spec fn held(s: SessionView) -> Option<Seq<char>> {
    match s.radio {
        Some(id) => Some(id),
        None => match s.phase {
            PhaseView::Opening { device_id, .. } => Some(device_id),
            _ => None,
        },
    }
}

/// The states that a session can be in.
pub open spec fn valid(s: SessionView) -> bool {
    &&& s.abilities is Some ==> s.radio is Some
    &&& s.radio is Some && !(s.phase is Describing) && !(s.phase is Closing)
        ==> s.abilities is Some
    &&& match s.phase {
        PhaseView::AwaitHello | PhaseView::Authorizing { .. } => s.radio is None && !s.capture
            && !s.playback,
        PhaseView::Opening { .. } | PhaseView::Closed => s.radio is None,
        PhaseView::Switching { .. } | PhaseView::Describing | PhaseView::Announcing
        | PhaseView::Reading | PhaseView::Commanding { .. } | PhaseView::Metering { .. }
        | PhaseView::Inspecting { .. } | PhaseView::CheckingTuner { .. }
        | PhaseView::Closing { .. } => s.radio is Some,
        PhaseView::Ready | PhaseView::StartingCapture { .. } | PhaseView::OpeningOutput { .. }
        | PhaseView::Submitting => true,
    }
}

/// What a session has reserved is marked as reserved.
pub open spec fn covered(s: SessionView, leased: Set<Seq<char>>) -> bool {
    held(s) matches Some(id) ==> leased.contains(id)
}

/// Names without one of them.
pub open spec fn without(leased: Set<Seq<char>>, id: Option<Seq<char>>) -> Set<Seq<char>> {
    match id {
        Some(id) => leased.remove(id),
        None => leased,
    }
}

/// Names with one more.
pub open spec fn with(leased: Set<Seq<char>>, id: Option<Seq<char>>) -> Set<Seq<char>> {
    match id {
        Some(id) => leased.insert(id),
        None => leased,
    }
}

/// An action that works the selected radio.
pub open spec fn works_radio(action: ActionView) -> bool {
    match action {
        ActionView::SetFrequency(_) | ActionView::SetMode(_) | ActionView::SetPtt(_)
        | ActionView::DescribeRadio | ActionView::ReadRadio | ActionView::ReadMeter(_)
        | ActionView::ReadControl(_) | ActionView::WriteControl { .. } | ActionView::ReadTuner
        | ActionView::StartTuner | ActionView::ForcePttOff => true,
        _ => false,
    }
}

/// A new connection is a new session: it has selected nothing, reserved
/// nothing and waits for a greeting.
pub proof fn law_new_session_holds_nothing()
    ensures
        valid(fresh()),
        held(fresh()) is None,
        !fresh().capture,
        !fresh().playback,
        fresh().phase is AwaitHello,
{
}

/// No event leads out of the valid states.
#[verifier::spinoff_prover]
#[verifier::rlimit(60)]
pub proof fn law_session_stays_valid(s: SessionView, host: HostView, event: Event)
    requires
        valid(s),
    ensures
        valid(stepped(s, host, event).session),
{
}

/// A session changes the reservations by what it holds itself, and by nothing
/// else: it gives back what it no longer holds and reserves what it now holds.
#[verifier::spinoff_prover]
#[verifier::rlimit(60)]
pub proof fn law_reservations_follow_the_session(s: SessionView, host: HostView, event: Event)
    requires
        valid(s),
        covered(s, host.radios.leased),
        !host.radios.poisoned,
    ensures
        stepped(s, host, event).radios.leased == with(
            without(host.radios.leased, held(s)),
            held(stepped(s, host, event).session),
        ),
        covered(stepped(s, host, event).session, stepped(s, host, event).radios.leased),
        held(stepped(s, host, event).session) matches Some(id) ==> held(s) == Some(id)
            || !host.radios.leased.contains(id),
        stepped(s, host, event).radios.devices == host.radios.devices,
        !stepped(s, host, event).radios.poisoned,
{
    let step = stepped(s, host, event);
    assert(step.radios.leased =~= with(
        without(host.radios.leased, held(s)),
        held(step.session),
    ));
}

/// Once the reservations are no longer trusted, none changes and no session
/// gets another radio.
#[verifier::spinoff_prover]
#[verifier::rlimit(60)]
pub proof fn law_distrusted_reservations_are_frozen(s: SessionView, host: HostView, event: Event)
    requires
        valid(s),
        host.radios.poisoned,
    ensures
        stepped(s, host, event).radios == host.radios,
        held(stepped(s, host, event).session) is Some ==> held(stepped(s, host, event).session)
            == held(s),
{
    if s.phase is Ready {
        match event {
            Event::Text { message: Ok(message), .. } => match message {
                ClientMessage::SelectRadio { .. } => {},
                ClientMessage::SelectAudio { .. } => {},
                ClientMessage::SelectAudioOutput { .. } => {},
                _ => {},
            },
            Event::Text { message: Err(_), .. } => {},
            Event::Binary { .. } => {},
            Event::CaptureFrame(_) => {},
            _ => {},
        }
    } else {
        match event {
            Event::Text { .. } => {},
            Event::PttForcedOff => {},
            Event::RadioOpened(_) => {},
            _ => {},
        }
    }
}

/// Two sessions never hold the same radio, and neither can take or give away
/// what the other holds.
#[verifier::spinoff_prover]
#[verifier::rlimit(60)]
pub proof fn law_radios_are_held_exclusively(
    s: SessionView,
    other: SessionView,
    host: HostView,
    event: Event,
)
    requires
        valid(s),
        covered(s, host.radios.leased),
        covered(other, host.radios.leased),
        held(other) is Some ==> held(s) != held(other),
    ensures
        held(other) is Some ==> held(stepped(s, host, event).session) != held(other),
        covered(other, stepped(s, host, event).radios.leased),
        covered(stepped(s, host, event).session, stepped(s, host, event).radios.leased),
{
    if host.radios.poisoned {
        law_distrusted_reservations_are_frozen(s, host, event);
    } else {
        law_reservations_follow_the_session(s, host, event);
    }
}

/// A radio is given back only after it was told to stop transmitting: the
/// selection changes only on that report, and a session begins to wait for
/// that report only by giving that order.
#[verifier::spinoff_prover]
#[verifier::rlimit(60)]
pub proof fn law_radio_is_silenced_before_it_is_given_back(
    s: SessionView,
    host: HostView,
    event: Event,
)
    requires
        valid(s),
        s.radio is Some,
    ensures
        ({
            let step = stepped(s, host, event);
            &&& step.session.radio != s.radio ==> event is PttForcedOff && (s.phase is Switching
                || s.phase is Closing)
            &&& step.radios != host.radios ==> event is PttForcedOff && (s.phase is Switching
                || s.phase is Closing)
            &&& step.session.phase != s.phase && (step.session.phase is Switching
                || step.session.phase is Closing) ==> step.actions == seq![ActionView::ForcePttOff]
        }),
{
}

/// Whatever ends a session - the client, the connection in either direction,
/// silence, or the host - a selected radio is told to stop transmitting, and
/// without one the session is over at once.
#[verifier::spinoff_prover]
#[verifier::rlimit(60)]
pub proof fn law_lost_session_is_made_safe(s: SessionView, host: HostView, event: Event)
    requires
        valid(s),
        !(s.phase is Closing) && !(s.phase is Closed),
        event is PeerClosed || event is TransportFailed || event is SendFailed || event is Shutdown
            || (s.phase is Ready && (event matches Event::Tick { now } && now - s.last_activity
            > SILENCE_LIMIT_NANOS)),
    ensures
        ({
            let step = stepped(s, host, event);
            if s.radio is Some {
                &&& step.session.phase is Closing
                &&& step.session.radio == s.radio
                &&& step.actions == seq![ActionView::ForcePttOff]
            } else {
                &&& step.session.phase is Closed
                &&& held(step.session) is None
                &&& step.actions.len() == 1
                &&& step.actions[0] is Close
            }
        }),
{
}

/// A session that is ending waits for one thing: the report that its radio was
/// told to stop transmitting. Then the radio is let go and given back, and the
/// session ends as it was going to, whatever happened meanwhile.
#[verifier::spinoff_prover]
#[verifier::rlimit(60)]
pub proof fn law_ending_completes(s: SessionView, host: HostView, event: Event)
    requires
        valid(s),
        s.phase is Closing,
    ensures
        !(event is PttForcedOff) ==> stepped(s, host, event).session == s && stepped(
            s,
            host,
            event,
        ).radios == host.radios && stepped(s, host, event).actions.len() == 0,
        event is PttForcedOff ==> s.radio is Some && stepped(s, host, event).session
            == (SessionView { radio: None, abilities: None, phase: PhaseView::Closed, ..s }) && stepped(
            s,
            host,
            event,
        ).radios == host.radios.released(s.radio->0) && stepped(s, host, event).actions == seq![
            ActionView::DropRadio,
            ActionView::Close(s.phase->Closing_end),
        ],
{
}

/// A session that is over holds no radio, and leaves none reserved that it
/// held.
#[verifier::spinoff_prover]
#[verifier::rlimit(60)]
pub proof fn law_ended_session_holds_nothing(s: SessionView, host: HostView, event: Event)
    requires
        valid(s),
        covered(s, host.radios.leased),
        !host.radios.poisoned,
        stepped(s, host, event).session.phase is Closed,
    ensures
        held(stepped(s, host, event).session) is None,
        held(s) matches Some(id) ==> !stepped(s, host, event).radios.leased.contains(id),
{
}

/// The order to end a session comes with its end.
#[verifier::spinoff_prover]
#[verifier::rlimit(60)]
proof fn lemma_close_is_the_end(s: SessionView, host: HostView, event: Event, i: int)
    requires
        0 <= i < stepped(s, host, event).actions.len(),
        stepped(s, host, event).actions[i] is Close,
    ensures
        stepped(s, host, event).session.phase is Closed,
{
    if s.phase is Ready {
        match event {
            Event::Text { message: Ok(message), .. } => match message {
                ClientMessage::SelectRadio { .. } => {},
                ClientMessage::SelectAudio { .. } => {},
                ClientMessage::SelectAudioOutput { .. } => {},
                _ => {},
            },
            Event::Text { message: Err(_), .. } => {},
            Event::Binary { .. } => {},
            Event::CaptureFrame(_) => {},
            _ => {},
        }
    } else {
        match event {
            Event::Text { .. } => {},
            Event::PttForcedOff => {},
            Event::RadioOpened(_) => {},
            _ => {},
        }
    }
}

/// The end of a session comes with the order to end it.
#[verifier::spinoff_prover]
#[verifier::rlimit(60)]
proof fn lemma_end_is_ordered(s: SessionView, host: HostView, event: Event)
    requires
        !(s.phase is Closed),
        stepped(s, host, event).session.phase is Closed,
    ensures
        stepped(s, host, event).actions.len() > 0,
        stepped(s, host, event).actions.last() is Close,
{
}

/// A session ends exactly once: the order to end it comes with the end, and
/// after the end nothing happens any more.
#[verifier::spinoff_prover]
#[verifier::rlimit(60)]
pub proof fn law_session_ends_once(s: SessionView, host: HostView, event: Event)
    ensures
        s.phase is Closed ==> stepped(s, host, event).session == s && stepped(
            s,
            host,
            event,
        ).actions.len() == 0 && stepped(s, host, event).radios == host.radios,
        !(s.phase is Closed) ==> (stepped(s, host, event).session.phase is Closed <==> exists|i: int|
            0 <= i < stepped(s, host, event).actions.len() && (#[trigger] stepped(
                s,
                host,
                event,
            ).actions[i]) is Close),
{
    let step = stepped(s, host, event);
    if !(s.phase is Closed) {
        if step.session.phase is Closed {
            lemma_end_is_ordered(s, host, event);
            assert(step.actions[step.actions.len() - 1] is Close);
        }
        if exists|i: int| 0 <= i < step.actions.len() && (#[trigger] step.actions[i]) is Close {
            let i = choose|i: int|
                0 <= i < step.actions.len() && (#[trigger] step.actions[i]) is Close;
            lemma_close_is_the_end(s, host, event, i);
        }
    }
}

/// A selected radio is held.
proof fn lemma_held_is_covered(step: StepView)
    requires
        covered(step.session, step.radios.leased),
        step.session.radio is Some,
    ensures
        step.session.radio matches Some(id) && step.radios.leased.contains(id),
{
}

/// A radio is worked only by a session that has selected one.
#[verifier::spinoff_prover]
#[verifier::rlimit(60)]
proof fn lemma_command_needs_a_radio(s: SessionView, host: HostView, event: Event, i: int)
    requires
        valid(s),
        0 <= i < stepped(s, host, event).actions.len(),
        works_radio(stepped(s, host, event).actions[i]),
    ensures
        stepped(s, host, event).session.radio is Some,
{
    match event {
        Event::Text { message: Ok(message), .. } => match message {
            ClientMessage::SelectRadio { .. } => {},
            ClientMessage::SelectAudio { .. } => {},
            ClientMessage::SelectAudioOutput { .. } => {},
            _ => {},
        },
        Event::Text { message: Err(_), .. } => {},
        Event::Binary { .. } | Event::CaptureFrame(_) => {},
        Event::PttForcedOff => {},
        Event::RadioOpened(_) => {},
        _ => {},
    }
}

/// No radio is worked unless the session has selected it and holds its
/// reservation.
#[verifier::spinoff_prover]
#[verifier::rlimit(60)]
pub proof fn law_no_command_without_reservation(
    s: SessionView,
    host: HostView,
    event: Event,
    i: int,
)
    requires
        valid(s),
        covered(s, host.radios.leased),
        0 <= i < stepped(s, host, event).actions.len(),
        works_radio(stepped(s, host, event).actions[i]),
    ensures
        stepped(s, host, event).session.radio matches Some(id) && stepped(
            s,
            host,
            event,
        ).radios.leased.contains(id),
{
    lemma_command_needs_a_radio(s, host, event, i);
    lemma_session_step(s, host, event);
    lemma_held_is_covered(stepped(s, host, event));
}

/// A radio is keyed or unkeyed as a command only because its client asked for
/// exactly that.
#[verifier::spinoff_prover]
#[verifier::rlimit(60)]
pub proof fn law_ptt_is_explicit(
    s: SessionView,
    host: HostView,
    event: Event,
    i: int,
    enabled: bool,
)
    requires
        0 <= i < stepped(s, host, event).actions.len(),
        stepped(s, host, event).actions[i] == ActionView::SetPtt(enabled),
    ensures
        s.phase is Ready,
        s.radio is Some,
        event matches Event::Text { message, .. } && message matches Ok(
            ClientMessage::SetPtt { enabled: asked, .. },
        ) && asked == enabled,
{
}

/// A radio is opened only for a client that asked for it, with the settings
/// that the client asked for, and at the place of the reserved device.
#[verifier::spinoff_prover]
#[verifier::rlimit(60)]
pub proof fn law_radio_is_opened_as_requested(s: SessionView, host: HostView, event: Event, i: int)
    requires
        valid(s),
        0 <= i < stepped(s, host, event).actions.len(),
        stepped(s, host, event).actions[i] is OpenRadio,
    ensures
        stepped(s, host, event).actions[i] matches ActionView::OpenRadio {
            place,
            device_id,
            request,
        } && {
            &&& match s.phase {
                PhaseView::Switching { device_id: id, request: asked, .. } => id == device_id
                    && asked == request,
                _ => s.phase is Ready && s.radio is None && (event matches Event::Text {
                    message: Ok(
                        ClientMessage::SelectRadio { device_id: id, request: asked, .. },
                    ),
                    ..
                } && id@ == device_id && asked == request),
            }
            &&& place == first_named(host.radios.devices, device_id)
            &&& place < host.radios.devices.len()
            &&& stepped(s, host, event).radios.leased.contains(device_id)
            &&& held(stepped(s, host, event).session) == Some(device_id)
        },
{
}

/// On a host with configured radios, the place at which a radio is opened is
/// that of the entry with the name that the client asked for.
#[verifier::spinoff_prover]
#[verifier::rlimit(60)]
pub proof fn law_opened_entry_is_the_requested_one<F, A, S, O, U>(
    s: SessionView,
    host: HostBridge<ConfiguredRadioProvider<F>, A, S, O, U>,
    event: Event,
    i: int,
) where A: AudioSource, S: AudioSink, O: AudioOutputProvider, U: Authorizer
    requires
        valid(s),
        0 <= i < stepped(s, host@, event).actions.len(),
        stepped(s, host@, event).actions[i] is OpenRadio,
    ensures
        stepped(s, host@, event).actions[i] matches ActionView::OpenRadio { place, device_id, .. }
            && place < host.radio_provider().entries().len()
            && host.radio_provider().entries()[place as int].info@.id == device_id,
{
    law_radio_is_opened_as_requested(s, host@, event, i);
    host.lemma_view_shows_radios();
    host.radio_provider().lemma_catalog_lists_entries();
    lemma_first_named_holds(
        host@.radios.devices,
        stepped(s, host@, event).actions[i]->OpenRadio_device_id,
    );
}

/// What the radio was announced to be capable of is what is asked of it: a
/// meter is read, a control is read or set, and the tuner is used only if the
/// announcement lists it in that direction.
#[verifier::spinoff_prover]
#[verifier::rlimit(60)]
pub proof fn law_only_announced_operations_reach_the_radio(
    s: SessionView,
    host: HostView,
    event: Event,
    i: int,
)
    requires
        0 <= i < stepped(s, host, event).actions.len(),
    ensures
        ({
            let action = stepped(s, host, event).actions[i];
            &&& action matches ActionView::ReadMeter(id) ==> (s.abilities matches Some(abilities)
                && abilities.has_meter(id))
            &&& action matches ActionView::ReadControl(id) ==> (s.abilities matches Some(abilities)
                && abilities.reads(id))
            &&& action matches ActionView::WriteControl { control_id, .. } ==> (
            s.abilities matches Some(abilities) && abilities.writes(control_id))
            &&& action is ReadTuner || action is StartTuner ==> (
            s.abilities matches Some(abilities) && abilities.tuner)
        }),
{
    if is_operation(stepped(s, host, event).actions[i]) {
        lemma_operations_are_requested(s, host, event, i);
        match event {
            Event::Text { now, message: Ok(message) } => {
                let awake = SessionView { last_activity: now, ..s };
                assert(stepped(s, host, event) == dispatched(awake, host, message));
                lemma_operations_are_allowed(awake, host, message, i);
            },
            _ => {},
        }
    }
}

/// Whether an action uses a meter, a control or the tuner.
spec fn is_operation(action: ActionView) -> bool {
    action is ReadMeter || action is ReadControl || action is WriteControl || action is ReadTuner
        || action is StartTuner
}

/// Whether nothing speaks against an action that uses a meter, a control or
/// the tuner.
spec fn is_allowed(s: SessionView, action: ActionView) -> bool {
    match action {
        ActionView::ReadMeter(id) => meter_objection(s, id) is None,
        ActionView::ReadControl(id) => read_objection(s, id) is None,
        ActionView::WriteControl { control_id, .. } => write_objection(s, control_id) is None,
        ActionView::ReadTuner | ActionView::StartTuner => tuner_objection(s) is None,
        _ => true,
    }
}

/// Meters, controls and the tuner are used only where nothing speaks against
/// it.
#[verifier::spinoff_prover]
#[verifier::rlimit(60)]
proof fn lemma_operations_are_allowed(
    s: SessionView,
    host: HostView,
    message: ClientMessage,
    i: int,
)
    requires
        0 <= i < dispatched(s, host, message).actions.len(),
    ensures
        is_allowed(s, dispatched(s, host, message).actions[i]),
{
    match message {
        ClientMessage::SelectRadio { .. } => {},
        ClientMessage::SelectAudio { .. } => {},
        ClientMessage::SelectAudioOutput { .. } => {},
        _ => {},
    }
}

/// Meters, controls and the tuner are used only on request.
#[verifier::spinoff_prover]
#[verifier::rlimit(60)]
proof fn lemma_operations_are_requested(s: SessionView, host: HostView, event: Event, i: int)
    requires
        0 <= i < stepped(s, host, event).actions.len(),
        is_operation(stepped(s, host, event).actions[i]),
    ensures
        s.phase is Ready,
        event matches Event::Text { message: Ok(_), .. },
{
    if s.phase is Ready {
        match event {
            Event::Text { .. } => {},
            Event::Binary { .. } => {},
            Event::CaptureFrame(_) => {},
            Event::Tick { .. } => {},
            _ => {},
        }
    } else {
        match event {
            Event::Text { .. } => {},
            Event::PttForcedOff => {},
            Event::RadioOpened(_) => {},
            _ => {},
        }
    }
}

/// The announcement that requests are held against is the one that the client
/// was sent, and it goes with the radio.
#[verifier::spinoff_prover]
#[verifier::rlimit(60)]
pub proof fn law_announcement_is_what_was_sent(s: SessionView, host: HostView, event: Event)
    requires
        valid(s),
    ensures
        ({
            let step = stepped(s, host, event);
            &&& step.session.abilities matches Some(abilities) ==> s.abilities == Some(abilities)
                || (step.actions.len() == 2 && step.actions[0] == ActionView::Send(
                ServerMessageView::RadioCapabilities(abilities),
            ))
            &&& step.session.abilities is Some && s.radio is Some ==> step.session.radio == s.radio
            &&& step.session.radio is None ==> step.session.abilities is None
        }),
{
}

/// No audio flows before the client has selected it: a capture runs only
/// because one was started, and one is started only on request, for a source
/// and a format that are offered. The same holds of outputs, but for a host
/// that plays to one fixed sink.
#[verifier::spinoff_prover]
#[verifier::rlimit(60)]
pub proof fn law_audio_is_selected_explicitly(s: SessionView, host: HostView, event: Event, i: int)
    ensures
        ({
            let step = stepped(s, host, event);
            &&& step.session.capture && !s.capture ==> s.phase is StartingCapture && (
            event matches Event::CaptureStarted(outcome) && outcome is Ok)
            &&& step.session.playback && !s.playback ==> (s.phase is OpeningOutput && (
            event matches Event::OutputOpened(outcome) && outcome is Ok)) || (
            s.phase is Authorizing && event is Authorized && host.audio_sink)
            &&& 0 <= i < step.actions.len() ==> (step.actions[i] matches ActionView::StartCapture {
                source_id,
                format,
            } ==> s.phase is Ready && (event matches Event::Text {
                message: Ok(
                    ClientMessage::SelectAudio { enabled, source_id: id, format: asked, .. },
                ),
                ..
            } && enabled && id@ == source_id && asked == format && capture_refusal(
                host,
                source_id,
                format,
            ) is None))
            &&& 0 <= i < step.actions.len() ==> (step.actions[i] matches ActionView::OpenOutput {
                output_id,
                format,
            } ==> s.phase is Ready && (event matches Event::Text {
                message: Ok(
                    ClientMessage::SelectAudioOutput { enabled, output_id: id, format: asked, .. },
                ),
                ..
            } && enabled && id@ == output_id && asked == format && output_refusal(
                host,
                output_id,
                format,
            ) is None))
        }),
{
}

/// Whether an event concerns audio only.
pub open spec fn concerns_audio(event: Event) -> bool {
    match event {
        Event::Text { message: Ok(ClientMessage::SelectAudio { .. }), .. } => true,
        Event::Text { message: Ok(ClientMessage::SelectAudioOutput { .. }), .. } => true,
        Event::Binary { .. } | Event::CaptureStarted(_) | Event::CaptureFrame(_)
        | Event::CaptureLagged(_) | Event::CaptureClosed | Event::OutputOpened(_)
        | Event::FrameSubmitted(_) => true,
        _ => false,
    }
}

/// Audio neither selects, releases nor works a radio.
#[verifier::spinoff_prover]
#[verifier::rlimit(60)]
pub proof fn law_audio_leaves_radios_alone(s: SessionView, host: HostView, event: Event)
    requires
        valid(s),
        concerns_audio(event),
    ensures
        stepped(s, host, event).session.radio == s.radio,
        stepped(s, host, event).radios == host.radios,
        forall|i: int|
            0 <= i < stepped(s, host, event).actions.len() ==> !works_radio(
                #[trigger] stepped(s, host, event).actions[i],
            ),
{
}

/// Before a client is admitted it is sent nothing, and it is admitted only by
/// a decision on the key and password of a greeting in the right version.
#[verifier::spinoff_prover]
#[verifier::rlimit(60)]
pub proof fn law_catalog_needs_admission(s: SessionView, host: HostView, event: Event, i: int)
    requires
        s.phase is AwaitHello || s.phase is Authorizing,
        0 <= i < stepped(s, host, event).actions.len(),
    ensures
        ({
            let action = stepped(s, host, event).actions[i];
            &&& action is Send ==> s.phase is Authorizing && (event matches Event::Authorized {
                granted,
                session_id,
                ..
            } && granted && action == ActionView::Send(
                ServerMessageView::Hello(host.hello(session_id)),
            ))
            &&& action is Authorize ==> s.phase is AwaitHello && (event matches Event::Text {
                message: Ok(ClientMessage::Hello(hello)),
                ..
            } && hello.protocol_version == PROTOCOL_VERSION && action == (ActionView::Authorize {
                key: hello.access_key@,
                password: hello.password@,
            }))
            &&& action is Send || action is Authorize || action is Close || action is ForcePttOff
        }),
{
}

/// The decision that a session awaits is on the key and the password of the
/// greeting: no event puts others in their place.
#[verifier::spinoff_prover]
#[verifier::rlimit(60)]
pub proof fn law_decision_is_on_the_greeting(s: SessionView, host: HostView, event: Event)
    requires
        stepped(s, host, event).session.phase is Authorizing,
    ensures
        s.phase is Authorizing ==> stepped(s, host, event).session.phase == s.phase,
        !(s.phase is Authorizing) ==> s.phase is AwaitHello && (event matches Event::Text {
            message: Ok(ClientMessage::Hello(hello)),
            ..
        } && stepped(s, host, event).session.phase == (PhaseView::Authorizing {
            key: hello.access_key@,
            password: hello.password@,
        })),
{
}

/// Before a client is admitted nothing is reserved, selected or started for
/// it.
#[verifier::spinoff_prover]
#[verifier::rlimit(60)]
pub proof fn law_nothing_is_acquired_before_admission(s: SessionView, host: HostView, event: Event)
    requires
        valid(s),
        s.phase is AwaitHello || s.phase is Authorizing,
    ensures
        stepped(s, host, event).radios == host.radios,
        held(stepped(s, host, event).session) is None,
        !stepped(s, host, event).session.capture,
        forall|i: int|
            0 <= i < stepped(s, host, event).actions.len() ==> {
                let action = #[trigger] stepped(s, host, event).actions[i];
                !(action is OpenRadio) && !(action is StartCapture) && !(action is OpenOutput)
            },
{
}

/// A client whose first message is anything but a greeting in the right
/// version is sent nothing, and its session has failed.
#[verifier::spinoff_prover]
#[verifier::rlimit(60)]
pub proof fn law_wrong_first_message_ends_the_session(s: SessionView, host: HostView, event: Event)
    requires
        valid(s),
        s.phase is AwaitHello,
        arrives(event),
        !greets(event),
    ensures
        stepped(s, host, event).session.phase is Closed,
        stepped(s, host, event).radios == host.radios,
        stepped(s, host, event).actions.len() == 1,
        stepped(s, host, event).actions[0] matches ActionView::Close(end) && end is Failed,
{
}

/// Who admits a client: after a first message, a decision leads to anything
/// being sent only if that message was a greeting in the right version and the
/// gatekeeper of the host grants the key and the password of that greeting.
/// Whatever the decision, nothing is reserved.
#[verifier::spinoff_prover]
#[verifier::rlimit(60)]
pub proof fn law_only_the_gatekeeper_admits<U: Authorizer>(
    s: SessionView,
    host: HostView,
    gatekeeper: U,
    first: Event,
    now: u64,
    decision: StepView,
)
    requires
        valid(s),
        s.phase is AwaitHello,
        decided(
            stepped(s, host, first).session,
            host.with_radios(stepped(s, host, first).radios),
            gatekeeper,
            now,
            decision,
        ),
    ensures
        !sends(stepped(s, host, first)),
        sends(decision) ==> greets(first) && (first matches Event::Text {
            message: Ok(ClientMessage::Hello(hello)),
            ..
        } && exists|k: &str, p: &str|
            k@ == hello.access_key@ && p@ == hello.password@ && #[trigger] call_ensures(
                U::authorize,
                (&gatekeeper, k, p),
                true,
            )),
        decision.radios == host.radios,
{
    let greeted = stepped(s, host, first);
    let next = host.with_radios(greeted.radios);
    law_nothing_is_acquired_before_admission(s, host, first);
    assert(next == host);
    match greeted.session.phase {
        PhaseView::Authorizing { key, password } => {
            law_decision_is_on_the_greeting(s, host, first);
            let (k, p, granted, session_id) = choose|
                k: &str,
                p: &str,
                granted: bool,
                session_id: u128,
            |
                k@ == key && p@ == password && #[trigger] random_session_id(session_id)
                    && #[trigger] call_ensures(U::authorize, (&gatekeeper, k, p), granted)
                    && decision == stepped(
                    greeted.session,
                    next,
                    Event::Authorized { now, granted, session_id },
                );
            law_nothing_is_acquired_before_admission(
                greeted.session,
                next,
                Event::Authorized { now, granted, session_id },
            );
            if sends(decision) {
                assert(granted);
            }
        },
        _ => {},
    }
}

/// What the first message of a client can lead to: something is sent only if
/// the message was a greeting in the right version and the gatekeeper of the
/// host grants its key and its password. Otherwise the session has failed.
/// Either way nothing is reserved, selected or started.
#[verifier::spinoff_prover]
#[verifier::rlimit(60)]
pub proof fn law_first_message_decides<U: Authorizer>(
    host: HostView,
    gatekeeper: U,
    first: Event,
    now: u64,
    step: StepView,
)
    requires
        began(host, gatekeeper, first, now, step),
    ensures
        sends(step) ==> (first matches Event::Text {
            message: Ok(ClientMessage::Hello(hello)),
            ..
        } && hello.protocol_version == PROTOCOL_VERSION && exists|k: &str, p: &str|
            k@ == hello.access_key@ && p@ == hello.password@ && #[trigger] call_ensures(
                U::authorize,
                (&gatekeeper, k, p),
                true,
            )),
        arrives(first) && !sends(step) ==> step.session.phase is Closed && step.actions.len() == 1
            && (step.actions[0] matches ActionView::Close(end) && end is Failed),
        step.radios == host.radios,
        held(step.session) is None,
        !step.session.capture,
{
    let greeted = stepped(fresh(), host, first);
    law_new_session_holds_nothing();
    law_session_stays_valid(fresh(), host, first);
    law_nothing_is_acquired_before_admission(fresh(), host, first);
    match greeted.session.phase {
        PhaseView::Authorizing { key, password } => {
            assert(host.with_radios(greeted.radios) == host);
            law_only_the_gatekeeper_admits(fresh(), host, gatekeeper, first, now, step);
            let (k, p, granted, session_id) = choose|
                k: &str,
                p: &str,
                granted: bool,
                session_id: u128,
            |
                k@ == key && p@ == password && #[trigger] random_session_id(session_id)
                    && #[trigger] call_ensures(U::authorize, (&gatekeeper, k, p), granted) && step
                    == stepped(
                    greeted.session,
                    host,
                    Event::Authorized { now, granted, session_id },
                );
            law_nothing_is_acquired_before_admission(
                greeted.session,
                host,
                Event::Authorized { now, granted, session_id },
            );
            if granted {
                assert(step.actions[0] is Send);
            } else {
                law_refused_client_is_dropped(greeted.session, host, now, session_id);
            }
        },
        _ => {
            law_only_the_gatekeeper_admits(fresh(), host, gatekeeper, first, now, greeted.session.idle(host.radios));
            if arrives(first) {
                if greets(first) {
                    assert(greeted.session.phase is Authorizing);
                }
                law_wrong_first_message_ends_the_session(fresh(), host, first);
            }
        },
    }
}

/// A host with one key and one password greets exactly the clients that know
/// both and speak the right version; every other client is dropped.
#[verifier::spinoff_prover]
#[verifier::rlimit(60)]
pub proof fn law_host_greets_exactly_who_knows_the_secret(
    s: SessionView,
    host: HostView,
    gatekeeper: StaticAuthorizer,
    first: Event,
    now: u64,
    decision: StepView,
)
    requires
        valid(s),
        s.phase is AwaitHello,
        decided(
            stepped(s, host, first).session,
            host.with_radios(stepped(s, host, first).radios),
            gatekeeper,
            now,
            decision,
        ),
    ensures
        sends(decision) <==> greets(first) && (first matches Event::Text {
            message: Ok(ClientMessage::Hello(hello)),
            ..
        } && gatekeeper.admits(hello.access_key@, hello.password@)),
        arrives(first) && !sends(decision) ==> decision.session.phase is Closed,
{
    let greeted = stepped(s, host, first);
    let next = host.with_radios(greeted.radios);
    law_nothing_is_acquired_before_admission(s, host, first);
    if greets(first) {
        assert(greeted.session.phase is Authorizing);
        let (key, password) = (
            greeted.session.phase->Authorizing_key,
            greeted.session.phase->Authorizing_password,
        );
        let (k, p, granted, session_id) = choose|
            k: &str,
            p: &str,
            granted: bool,
            session_id: u128,
        |
            k@ == key && p@ == password && #[trigger] random_session_id(session_id)
                && #[trigger] call_ensures(
                <StaticAuthorizer as Authorizer>::authorize,
                (&gatekeeper, k, p),
                granted,
            ) && decision == stepped(
                greeted.session,
                next,
                Event::Authorized { now, granted, session_id },
            );
        law_static_authorizer_admits_by_key_and_password(gatekeeper, k, p, granted);
        if granted {
            assert(decision.actions[0] is Send);
        }
    } else if arrives(first) {
        law_wrong_first_message_ends_the_session(s, host, first);
    }
}

/// A client that is not admitted is told nothing and its session is over.
#[verifier::spinoff_prover]
#[verifier::rlimit(60)]
pub proof fn law_refused_client_is_dropped(
    s: SessionView,
    host: HostView,
    now: u64,
    session_id: u128,
)
    requires
        valid(s),
        s.phase is Authorizing,
    ensures
        ({
            let step = stepped(s, host, Event::Authorized { now, granted: false, session_id });
            &&& step.session.phase is Closed
            &&& step.actions == seq![
                ActionView::Close(SessionEndView::Failed("unauthorized HostBridge client"@)),
            ]
        }),
{
}

/// Whether a message answers a request.
pub open spec fn is_reply(message: ServerMessageView) -> bool {
    match message {
        ServerMessageView::Ack { .. } | ServerMessageView::Error { .. }
        | ServerMessageView::State(_) | ServerMessageView::MeterValue { .. }
        | ServerMessageView::ControlValue { .. } | ServerMessageView::TunerStatus { .. }
        | ServerMessageView::Pong { .. } => true,
        _ => false,
    }
}

/// The answers among the things to do.
pub open spec fn replies(actions: Seq<ActionView>) -> Seq<ServerMessageView>
    decreases actions.len(),
{
    if actions.len() == 0 {
        seq![]
    } else {
        let rest = replies(actions.drop_last());
        match actions.last() {
            ActionView::Send(message) => if is_reply(message) {
                rest.push(message)
            } else {
                rest
            },
            _ => rest,
        }
    }
}

/// Whether an answer carries the name of the request that it answers. A state
/// and a sign of life carry none, and neither does the refusal of a second
/// greeting.
pub open spec fn answers(message: ServerMessageView, request_id: Option<Seq<char>>) -> bool {
    match message {
        ServerMessageView::Ack { request_id: id } => id == request_id,
        ServerMessageView::Error { request_id: id, .. } => id == request_id,
        ServerMessageView::MeterValue { request_id: id, .. } => id == request_id,
        ServerMessageView::ControlValue { request_id: id, .. } => id == request_id,
        ServerMessageView::TunerStatus { request_id: id, .. } => id == request_id,
        _ => true,
    }
}

/// Whether a session owes its client an answer that it cannot give yet.
pub open spec fn owes(phase: PhaseView) -> bool {
    match phase {
        PhaseView::Switching { .. } | PhaseView::Opening { .. } | PhaseView::Reading
        | PhaseView::Commanding { .. } | PhaseView::Metering { .. } | PhaseView::Inspecting { .. }
        | PhaseView::CheckingTuner { .. } | PhaseView::StartingCapture { .. }
        | PhaseView::OpeningOutput { .. } => true,
        _ => false,
    }
}

/// The name of the request whose answer is owed, where the answer carries one.
pub open spec fn owed(phase: PhaseView) -> Option<Seq<char>> {
    match phase {
        PhaseView::Switching { request_id, .. } => request_id,
        PhaseView::Opening { request_id, .. } => request_id,
        PhaseView::Commanding { request_id } => request_id,
        PhaseView::Metering { request_id, .. } => request_id,
        PhaseView::Inspecting { request_id, .. } => request_id,
        PhaseView::CheckingTuner { request_id } => request_id,
        PhaseView::StartingCapture { request_id } => request_id,
        PhaseView::OpeningOutput { request_id } => request_id,
        _ => None,
    }
}

/// Whether an event reports what a session waits for.
pub open spec fn resolves(phase: PhaseView, event: Event) -> bool {
    match phase {
        PhaseView::Switching { .. } => event is PttForcedOff,
        PhaseView::Opening { .. } => event is RadioOpened,
        PhaseView::Reading => event is RadioRead,
        PhaseView::Commanding { .. } => event is RadioDone,
        PhaseView::Metering { .. } => event is MeterRead,
        PhaseView::Inspecting { .. } => event is ControlRead,
        PhaseView::CheckingTuner { .. } => event is TunerRead,
        PhaseView::StartingCapture { .. } => event is CaptureStarted,
        PhaseView::OpeningOutput { .. } => event is OutputOpened,
        _ => false,
    }
}

/// The answers among one thing to do.
proof fn lemma_one_reply(action: ActionView)
    ensures
        replies(seq![action]) == match action {
            ActionView::Send(message) => if is_reply(message) {
                seq![message]
            } else {
                seq![]
            },
            _ => seq![],
        },
{
    reveal_with_fuel(replies, 2);
    assert(seq![action].drop_last() =~= seq![]);
    assert(replies(seq![action]) =~= match action {
        ActionView::Send(message) => if is_reply(message) {
            seq![message]
        } else {
            seq![]
        },
        _ => seq![],
    });
}

/// The answers among two things to do.
proof fn lemma_two_replies(first: ActionView, second: ActionView)
    ensures
        replies(seq![first, second]) == replies(seq![first]) + replies(seq![second]),
{
    reveal_with_fuel(replies, 2);
    lemma_one_reply(first);
    lemma_one_reply(second);
    assert(seq![first, second].drop_last() =~= seq![first]);
    assert(replies(seq![first, second]) =~= replies(seq![first]) + replies(seq![second]));
}

/// The answers among the things to do, where these are few.
proof fn lemma_few_replies(actions: Seq<ActionView>)
    ensures
        actions.len() == 0 ==> replies(actions).len() == 0,
        actions.len() == 1 ==> replies(actions) == replies(seq![actions[0]]),
        actions.len() == 2 ==> replies(actions) == replies(seq![actions[0]]) + replies(
            seq![actions[1]],
        ),
{
    if actions.len() == 1 {
        assert(actions =~= seq![actions[0]]);
    }
    if actions.len() == 2 {
        assert(actions =~= seq![actions[0], actions[1]]);
        lemma_two_replies(actions[0], actions[1]);
    }
    if actions.len() >= 1 {
        lemma_one_reply(actions[0]);
    }
    if actions.len() >= 2 {
        lemma_one_reply(actions[1]);
    }
}

/// An admitted client that asks for something gets exactly one answer, at once
/// or when the work is done, and the answer carries the name of the request. A
/// reply to a sign of life asks for nothing.
#[verifier::spinoff_prover]
#[verifier::rlimit(60)]
pub proof fn law_every_request_is_answered(
    s: SessionView,
    host: HostView,
    now: u64,
    message: ClientMessage,
)
    requires
        valid(s),
        s.phase is Ready,
        !(message is Pong),
    ensures
        ({
            let step = stepped(s, host, Event::Text { now, message: Ok(message) });
            ||| (replies(step.actions).len() == 1 && answers(
                replies(step.actions)[0],
                message.id(),
            ) && !owes(step.session.phase))
            ||| (replies(step.actions).len() == 0 && owes(step.session.phase) && (
            step.session.phase is Reading || owed(step.session.phase) == message.id()))
        }),
{
    lemma_few_replies(stepped(s, host, Event::Text { now, message: Ok(message) }).actions);
    let step = stepped(s, host, Event::Text { now, message: Ok(message) });
    lemma_one_reply(step.actions[0]);
    if step.actions.len() == 2 {
        lemma_one_reply(step.actions[1]);
    }
}

/// When the work for a request is done, the answer that is owed is given, or
/// the work goes on and the same answer is still owed.
#[verifier::spinoff_prover]
#[verifier::rlimit(60)]
pub proof fn law_owed_answer_is_given(s: SessionView, host: HostView, event: Event)
    requires
        valid(s),
        owes(s.phase),
        resolves(s.phase, event),
    ensures
        ({
            let step = stepped(s, host, event);
            ||| (replies(step.actions).len() == 1 && answers(
                replies(step.actions)[0],
                owed(s.phase),
            ) && !owes(step.session.phase))
            ||| (replies(step.actions).len() == 0 && s.phase is Switching
                && step.session.phase is Opening && owed(step.session.phase) == owed(s.phase))
        }),
{
    let step = stepped(s, host, event);
    lemma_few_replies(step.actions);
    lemma_one_reply(step.actions[0]);
    if step.actions.len() == 2 {
        lemma_one_reply(step.actions[1]);
    }
}

/// A message that cannot be read is refused, names no request and changes
/// nothing but the time of the last message.
#[verifier::spinoff_prover]
#[verifier::rlimit(60)]
pub proof fn law_unreadable_message_is_harmless(
    s: SessionView,
    host: HostView,
    now: u64,
    reason: String,
)
    requires
        s.phase is Ready,
    ensures
        ({
            let step = stepped(s, host, Event::Text { now, message: Err(reason) });
            &&& step.session == SessionView { last_activity: now, ..s }
            &&& step.radios == host.radios
            &&& step.actions == seq![
                ActionView::Send(
                    ServerMessageView::Error {
                        code: "request_failed"@,
                        message: reason@,
                        request_id: None,
                    },
                ),
            ]
        }),
{
}

/// A request that is refused changes no selection and no reservation.
#[verifier::spinoff_prover]
#[verifier::rlimit(60)]
pub proof fn law_refused_request_changes_nothing(
    s: SessionView,
    host: HostView,
    now: u64,
    message: ClientMessage,
)
    requires
        s.phase is Ready,
        ({
            let actions = stepped(s, host, Event::Text { now, message: Ok(message) }).actions;
            actions.len() == 1 && (actions[0] matches ActionView::Send(reply) && reply is Error)
        }),
    ensures
        stepped(s, host, Event::Text { now, message: Ok(message) }).session == (SessionView {
            last_activity: now,
            ..s
        }),
        stepped(s, host, Event::Text { now, message: Ok(message) }).radios == host.radios,
{
}

/// A radio that cannot be opened is not left reserved, and its client is told
/// why.
#[verifier::spinoff_prover]
#[verifier::rlimit(60)]
pub proof fn law_failed_opening_gives_the_radio_back(s: SessionView, host: HostView, reason: String)
    requires
        valid(s),
        s.phase is Opening,
        !host.radios.poisoned,
    ensures
        ({
            let step = stepped(s, host, Event::RadioOpened(Err(reason)));
            &&& held(step.session) is None
            &&& held(s) matches Some(id) && !step.radios.leased.contains(id)
            &&& step.actions == seq![
                ActionView::Send(
                    ServerMessageView::Error {
                        code: "request_failed"@,
                        message: reason@,
                        request_id: owed(s.phase),
                    },
                ),
            ]
        }),
{
}

/// A client that has selected a radio is told so, is told what the radio can
/// do, and is told the state of the radio, in this order.
#[verifier::spinoff_prover]
#[verifier::rlimit(60)]
pub proof fn law_selection_is_followed_by_capabilities_and_state(
    s: SessionView,
    host: HostView,
    capabilities: RadioCapabilities,
    state: RadioState,
)
    requires
        valid(s),
        s.phase is Opening,
    ensures
        ({
            let opened = stepped(s, host, Event::RadioOpened(Ok(())));
            let described = stepped(opened.session, host, Event::RadioDescribed(capabilities));
            let read = stepped(described.session, host, Event::RadioRead(state));
            &&& opened.session.radio == held(s)
            &&& opened.actions == seq![
                ActionView::Send(ServerMessageView::Ack { request_id: owed(s.phase) }),
                ActionView::DescribeRadio,
            ]
            &&& described.session.radio == held(s)
            &&& described.actions == seq![
                ActionView::Send(ServerMessageView::RadioCapabilities(capabilities@)),
                ActionView::ReadRadio,
            ]
            &&& read.session.radio == held(s)
            &&& read.session.phase is Ready
            &&& read.actions == seq![ActionView::Send(ServerMessageView::State(state))]
        }),
{
}

/// Who selects another radio gives back the old one first: the new one is
/// reserved, or refused, as if the old one had never been held.
#[verifier::spinoff_prover]
#[verifier::rlimit(60)]
pub proof fn law_switching_gives_back_first(s: SessionView, host: HostView)
    requires
        valid(s),
        s.phase is Switching,
    ensures
        ({
            let step = stepped(s, host, Event::PttForcedOff);
            &&& step.actions.len() == 2
            &&& step.actions[0] == ActionView::DropRadio
            &&& s.radio matches Some(old) && s.phase matches PhaseView::Switching {
                request_id,
                device_id,
                request,
            } && step.radios == host.radios.released(old).acquired(device_id) && step.actions[1]
                == match host.radios.released(old).reservation(device_id) {
                Ok(place) => ActionView::OpenRadio { place, device_id, request },
                Err(error) => ActionView::Send(
                    ServerMessageView::Error {
                        code: "request_failed"@,
                        message: error.text(),
                        request_id,
                    },
                ),
            }
        }),
{
}

/// A client that stays silent for longer than the limit is dropped; one that
/// does not is asked for a sign of life under a new number.
#[verifier::spinoff_prover]
#[verifier::rlimit(60)]
pub proof fn law_silence_ends_the_session(s: SessionView, host: HostView, now: u64)
    requires
        valid(s),
        s.phase is Ready,
    ensures
        ({
            let step = stepped(s, host, Event::Tick { now });
            if now - s.last_activity > SILENCE_LIMIT_NANOS {
                step.session.phase is Closing || step.session.phase is Closed
            } else {
                &&& step.session == SessionView { nonce: step.session.nonce, ..s }
                &&& step.session.nonce != s.nonce
                &&& step.actions == seq![
                    ActionView::Send(ServerMessageView::Ping { nonce: step.session.nonce }),
                ]
            }
        }),
{
}

/// Only what a client sends keeps its session alive, and a sign of life that
/// the client asks for is given under the client's number.
#[verifier::spinoff_prover]
#[verifier::rlimit(60)]
pub proof fn law_only_messages_count_as_life(s: SessionView, host: HostView, event: Event)
    ensures
        stepped(s, host, event).session.last_activity != s.last_activity ==> (event is Text
            || event is Binary || event is Authorized),
        s.phase is Ready ==> (event matches Event::Text { now, .. } ==> stepped(
            s,
            host,
            event,
        ).session.last_activity == now),
        s.phase is Ready ==> (event matches Event::Binary { now, .. } ==> stepped(
            s,
            host,
            event,
        ).session.last_activity == now),
        s.phase is Ready ==> (event matches Event::Text {
            message: Ok(ClientMessage::Ping { nonce }),
            ..
        } ==> stepped(s, host, event).actions == seq![
            ActionView::Send(ServerMessageView::Pong { nonce }),
        ]),
{
}

/// A binary message that is sent carries a captured frame.
#[verifier::spinoff_prover]
#[verifier::rlimit(60)]
proof fn lemma_sent_media(s: SessionView, host: HostView, event: Event, i: int) -> (frame:
    AudioFrameView)
    requires
        0 <= i < stepped(s, host, event).actions.len(),
        stepped(s, host, event).actions[i] is SendMedia,
    ensures
        s.capture,
        packaged(frame) == Some(stepped(s, host, event).actions[i]->SendMedia_0),
{
    match event {
        Event::CaptureFrame(frame) => frame@,
        _ => arbitrary(),
    }
}

/// A frame that is played came in a binary message.
#[verifier::spinoff_prover]
#[verifier::rlimit(60)]
proof fn lemma_played_frame(s: SessionView, host: HostView, event: Event, i: int) -> (bytes: Seq<
    u8,
>)
    requires
        0 <= i < stepped(s, host, event).actions.len(),
        stepped(s, host, event).actions[i] is Submit,
    ensures
        received(bytes, s.playback) == Ok::<AudioFrameView, MediaError>(
            stepped(s, host, event).actions[i]->Submit_0,
        ),
        s.playback,
{
    match event {
        Event::Binary { bytes, .. } => bytes@,
        _ => arbitrary(),
    }
}

/// No binary message that is sent and no frame that is played is longer than
/// the limits, and a frame is played only to an output that the client has
/// selected.
#[verifier::spinoff_prover]
#[verifier::rlimit(60)]
pub proof fn law_media_is_bounded(s: SessionView, host: HostView, event: Event, i: int)
    requires
        0 <= i < stepped(s, host, event).actions.len(),
    ensures
        stepped(s, host, event).actions[i] matches ActionView::SendMedia(bytes) ==> bytes.len()
            <= MAX_MEDIA_FRAME_BYTES && s.capture,
        stepped(s, host, event).actions[i] matches ActionView::Submit(frame) ==> frame.pcm.len()
            <= MAX_MEDIA_PAYLOAD_BYTES && s.playback,
{
    match stepped(s, host, event).actions[i] {
        ActionView::SendMedia(bytes) => {
            let frame = lemma_sent_media(s, host, event, i);
            law_frames_are_bounded(frame, seq![], false);
        },
        ActionView::Submit(frame) => {
            let bytes = lemma_played_frame(s, host, event, i);
            law_frames_are_bounded(frame, bytes, s.playback);
        },
        _ => {},
    }
}

/// A host and all its sessions.
#[verifier::ext_equal]
pub struct World {
    pub sessions: Seq<SessionView>,
    pub host: HostView,
}

impl World {
    /// Something happens to one of the sessions.
    pub open spec fn after(self, k: int, event: Event) -> World {
        let step = stepped(self.sessions[k], self.host, event);
        World {
            sessions: self.sessions.update(k, step.session),
            host: self.host.with_radios(step.radios),
        }
    }

    /// A client connects.
    pub open spec fn joined(self) -> World {
        World { sessions: self.sessions.push(fresh()), ..self }
    }

    /// The reservations are exactly what the sessions hold, and no two
    /// sessions hold the same radio.
    pub open spec fn sound(self) -> bool {
        &&& forall|j: int| 0 <= j < self.sessions.len() ==> valid(#[trigger] self.sessions[j])
        &&& forall|j: int|
            0 <= j < self.sessions.len() ==> covered(
                #[trigger] self.sessions[j],
                self.host.radios.leased,
            )
        &&& forall|i: int, j: int|
            0 <= i < self.sessions.len() && 0 <= j < self.sessions.len() && i != j && held(
                #[trigger] self.sessions[i],
            ) is Some ==> held(self.sessions[i]) != held(#[trigger] self.sessions[j])
        &&& !self.host.radios.poisoned ==> forall|id: Seq<char>| #[trigger]
            self.host.radios.leased.contains(id) ==> self.holds(id)
    }

    /// Whether a session holds a radio.
    pub open spec fn holds(self, id: Seq<char>) -> bool {
        exists|j: int| 0 <= j < self.sessions.len() && held(#[trigger] self.sessions[j]) == Some(id)
    }
}

/// Before the first client connects, a host without reservations is sound.
pub proof fn law_host_starts_sound(host: HostView)
    requires
        host.radios.leased == Set::<Seq<char>>::empty(),
    ensures
        (World { sessions: seq![], host }).sound(),
{
}

/// A client that connects leaves the host sound.
pub proof fn law_connecting_keeps_the_host_sound(world: World)
    requires
        world.sound(),
    ensures
        world.joined().sound(),
{
    let joined = world.joined();
    assert forall|j: int| 0 <= j < joined.sessions.len() implies valid(
        #[trigger] joined.sessions[j],
    ) && covered(joined.sessions[j], joined.host.radios.leased) by {
        if j < world.sessions.len() {
            assert(joined.sessions[j] == world.sessions[j]);
        }
    }
    assert forall|i: int, j: int|
        0 <= i < joined.sessions.len() && 0 <= j < joined.sessions.len() && i != j && held(
            #[trigger] joined.sessions[i],
        ) is Some implies held(joined.sessions[i]) != held(#[trigger] joined.sessions[j]) by {
        if i < world.sessions.len() {
            assert(joined.sessions[i] == world.sessions[i]);
        }
        if j < world.sessions.len() {
            assert(joined.sessions[j] == world.sessions[j]);
        }
    }
    if !joined.host.radios.poisoned {
        assert forall|id: Seq<char>| #[trigger]
            joined.host.radios.leased.contains(id) implies joined.holds(id) by {
            assert(world.holds(id));
            let j = choose|j: int|
                0 <= j < world.sessions.len() && held(#[trigger] world.sessions[j]) == Some(id);
            assert(held(joined.sessions[j]) == Some(id));
        }
    }
}

/// Whatever happens to any of its sessions, a host stays sound: no radio is
/// ever held twice, and no reservation outlives the session that made it.
pub proof fn law_host_stays_sound(world: World, k: int, event: Event)
    requires
        world.sound(),
        0 <= k < world.sessions.len(),
    ensures
        world.after(k, event).sound(),
{
    let s = world.sessions[k];
    let after = world.after(k, event);
    let next = after.sessions[k];
    let leased = world.host.radios.leased;
    lemma_session_step(s, world.host, event);
    assert forall|j: int|
        0 <= j < after.sessions.len() && j != k && held(
            #[trigger] after.sessions[j],
        ) is Some implies held(after.sessions[j]) != held(next) && held(after.sessions[j]) != held(
        s,
    ) by {
        assert(after.sessions[j] == world.sessions[j]);
    }
    assert forall|j: int| 0 <= j < after.sessions.len() implies valid(
        #[trigger] after.sessions[j],
    ) && covered(after.sessions[j], after.host.radios.leased) by {
        if j != k {
            assert(after.sessions[j] == world.sessions[j]);
        }
    }
    if !after.host.radios.poisoned {
        assert forall|id: Seq<char>| #[trigger]
            after.host.radios.leased.contains(id) implies after.holds(id) by {
            if held(next) == Some(id) {
                assert(held(after.sessions[k]) == Some(id));
            } else {
                assert(leased.contains(id) && held(s) != Some(id));
                assert(world.holds(id));
                let j = choose|j: int|
                    0 <= j < world.sessions.len() && held(#[trigger] world.sessions[j]) == Some(id);
                assert(held(after.sessions[j]) == Some(id));
            }
        }
    }
}

/// What one step does to a session and to the reservations.
#[verifier::spinoff_prover]
#[verifier::rlimit(60)]
proof fn lemma_session_step(s: SessionView, host: HostView, event: Event)
    requires
        valid(s),
        covered(s, host.radios.leased),
    ensures
        ({
            let step = stepped(s, host, event);
            &&& valid(step.session)
            &&& covered(step.session, step.radios.leased)
            &&& step.radios.poisoned == host.radios.poisoned
            &&& held(step.session) matches Some(id) ==> held(s) == Some(id)
                || !host.radios.leased.contains(id)
            &&& host.radios.poisoned ==> step.radios == host.radios
            &&& !host.radios.poisoned ==> step.radios.leased == with(
                without(host.radios.leased, held(s)),
                held(step.session),
            )
        }),
{
    law_session_stays_valid(s, host, event);
    if host.radios.poisoned {
        law_distrusted_reservations_are_frozen(s, host, event);
    } else {
        law_reservations_follow_the_session(s, host, event);
    }
}

} // verus!
