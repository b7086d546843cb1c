//! The messages of the control channel and the catalog that they carry.

use crate::media::AudioCodec;
use crate::text::{lemma_place_of, opt_text, place_of, same_text, texts};
use vstd::prelude::*;

verus! {

/// The version of the control protocol that a client has to speak.
pub const PROTOCOL_VERSION: u32 = 6;

#[derive(Debug, Clone, Copy, PartialEq, Eq, Structural)]
pub enum RadioTransportKind {
    UsbSerial,
}

#[derive(Debug, Clone, Copy, PartialEq, Eq, Structural)]
pub enum RadioDriver {
    IcomCiv,
    YaesuCat,
    YaesuLegacyCat,
    KenwoodCat,
    ElecraftCat,
}

#[derive(Debug, Clone, Copy, PartialEq, Eq, Structural)]
pub enum RadioMode {
    Usb,
    Lsb,
    Cw,
    Data,
    Am,
    Fm,
    Wfm,
    Rtty,
    CwReverse,
    RttyReverse,
}

#[derive(Debug, Clone, Copy, PartialEq, Eq, Structural)]
pub enum AudioSourceKind {
    RadioInput,
}

#[derive(Debug, Clone, Copy, PartialEq, Eq, Structural)]
pub struct AudioFormat {
    pub codec: AudioCodec,
    pub channels: u8,
    pub sample_rate_hz: u32,
}

/// A radio as clients see it: a physical resource under an opaque name.
#[derive(Debug, PartialEq, Eq)]
pub struct RadioDeviceInfo {
    pub id: String,
    pub label: String,
    pub transport: RadioTransportKind,
    pub in_use: bool,
}

#[verifier::ext_equal]
pub struct RadioDeviceView {
    pub id: Seq<char>,
    pub label: Seq<char>,
    pub transport: RadioTransportKind,
    pub in_use: bool,
}

impl View for RadioDeviceInfo {
    type V = RadioDeviceView;

    open spec fn view(&self) -> RadioDeviceView {
        RadioDeviceView {
            id: self.id@,
            label: self.label@,
            transport: self.transport,
            in_use: self.in_use,
        }
    }
}

impl RadioDeviceInfo {
    /// The same entry with another reservation mark.
    pub fn marked(&self, in_use: bool) -> (info: RadioDeviceInfo)
        ensures
            info@ == (RadioDeviceView { in_use, ..self@ }),
    {
        RadioDeviceInfo {
            id: self.id.clone(),
            label: self.label.clone(),
            transport: self.transport,
            in_use,
        }
    }
}

/// The driver configuration that a client chooses for a radio.
#[derive(Debug, PartialEq, Eq)]
pub struct RadioRequest {
    pub driver: RadioDriver,
    pub model: Option<String>,
    pub baud_rate: Option<u32>,
    pub radio_address: Option<u8>,
}

/// A capture input of the host.
#[derive(Debug, PartialEq, Eq)]
pub struct AudioSourceInfo {
    pub id: String,
    pub label: String,
    pub kind: AudioSourceKind,
    pub formats: Vec<AudioFormat>,
}

#[verifier::ext_equal]
pub struct AudioSourceView {
    pub id: Seq<char>,
    pub label: Seq<char>,
    pub kind: AudioSourceKind,
    pub formats: Seq<AudioFormat>,
}

impl View for AudioSourceInfo {
    type V = AudioSourceView;

    open spec fn view(&self) -> AudioSourceView {
        AudioSourceView {
            id: self.id@,
            label: self.label@,
            kind: self.kind,
            formats: self.formats@,
        }
    }
}

/// A playback output of the host.
#[derive(Debug, PartialEq, Eq)]
pub struct AudioOutputInfo {
    pub id: String,
    pub label: String,
    pub formats: Vec<AudioFormat>,
}

#[verifier::ext_equal]
pub struct AudioOutputView {
    pub id: Seq<char>,
    pub label: Seq<char>,
    pub formats: Seq<AudioFormat>,
}

impl View for AudioOutputInfo {
    type V = AudioOutputView;

    open spec fn view(&self) -> AudioOutputView {
        AudioOutputView { id: self.id@, label: self.label@, formats: self.formats@ }
    }
}

pub open spec fn device_views(devices: Seq<RadioDeviceInfo>) -> Seq<RadioDeviceView> {
    devices.map_values(|d: RadioDeviceInfo| d@)
}

pub open spec fn source_views(sources: Seq<AudioSourceInfo>) -> Seq<AudioSourceView> {
    sources.map_values(|s: AudioSourceInfo| s@)
}

pub open spec fn output_views(outputs: Seq<AudioOutputInfo>) -> Seq<AudioOutputView> {
    outputs.map_values(|o: AudioOutputInfo| o@)
}

/// A copy of a list of formats.
pub fn copy_formats(formats: &Vec<AudioFormat>) -> (copies: Vec<AudioFormat>)
    ensures
        copies@ == formats@,
{
    vstd::slice::slice_to_vec(formats.as_slice())
}

impl AudioSourceInfo {
    /// A copy of this entry.
    pub fn copied(&self) -> (copy: AudioSourceInfo)
        ensures
            copy@ == self@,
    {
        AudioSourceInfo {
            id: self.id.clone(),
            label: self.label.clone(),
            kind: self.kind,
            formats: copy_formats(&self.formats),
        }
    }
}

impl AudioOutputInfo {
    /// A copy of this entry.
    pub fn copied(&self) -> (copy: AudioOutputInfo)
        ensures
            copy@ == self@,
    {
        AudioOutputInfo {
            id: self.id.clone(),
            label: self.label.clone(),
            formats: copy_formats(&self.formats),
        }
    }
}

/// Whether a format is in a list.
pub fn has_format(formats: &Vec<AudioFormat>, format: &AudioFormat) -> (yes: bool)
    ensures
        yes == formats@.contains(*format),
{
    for i in 0..formats.len()
        invariant
            forall|j: int| 0 <= j < i ==> formats@[j] != *format,
    {
        if formats[i] == *format {
            return true;
        }
    }
    false
}

/// The names of capture inputs.
pub open spec fn source_ids(sources: Seq<AudioSourceView>) -> Seq<Seq<char>> {
    sources.map_values(|s: AudioSourceView| s.id)
}

/// The names of playback outputs.
pub open spec fn output_ids(outputs: Seq<AudioOutputView>) -> Seq<Seq<char>> {
    outputs.map_values(|o: AudioOutputView| o.id)
}

/// The place of the first capture input of a name, if there is one.
pub fn find_source(sources: &Vec<AudioSourceInfo>, id: &str) -> (place: Option<usize>)
    ensures
        match place {
            Some(place) => place < sources@.len() && place == place_of(
                source_ids(source_views(sources@)),
                id@,
            ),
            None => place_of(source_ids(source_views(sources@)), id@) == sources@.len(),
        },
{
    let ghost ids = source_ids(source_views(sources@));
    for i in 0..sources.len()
        invariant
            ids == source_ids(source_views(sources@)),
            forall|j: int| 0 <= j < i ==> ids[j] != id@,
    {
        if same_text(sources[i].id.as_str(), id) {
            proof {
                lemma_place_of(ids, id@, i as int);
            }
            return Some(i);
        }
        assert(ids[i as int] == sources@[i as int].id@);
    }
    proof {
        lemma_place_of(ids, id@, sources@.len() as int);
    }
    None
}

/// The place of the first playback output of a name, if there is one.
pub fn find_output(outputs: &Vec<AudioOutputInfo>, id: &str) -> (place: Option<usize>)
    ensures
        match place {
            Some(place) => place < outputs@.len() && place == place_of(
                output_ids(output_views(outputs@)),
                id@,
            ),
            None => place_of(output_ids(output_views(outputs@)), id@) == outputs@.len(),
        },
{
    let ghost ids = output_ids(output_views(outputs@));
    for i in 0..outputs.len()
        invariant
            ids == output_ids(output_views(outputs@)),
            forall|j: int| 0 <= j < i ==> ids[j] != id@,
    {
        if same_text(outputs[i].id.as_str(), id) {
            proof {
                lemma_place_of(ids, id@, i as int);
            }
            return Some(i);
        }
        assert(ids[i as int] == outputs@[i as int].id@);
    }
    proof {
        lemma_place_of(ids, id@, outputs@.len() as int);
    }
    None
}

/// What an authenticated client may select.
#[derive(Debug, PartialEq, Eq)]
pub struct Capabilities {
    pub radio_control: bool,
    pub radio_devices: Vec<RadioDeviceInfo>,
    pub audio_capture: bool,
    pub audio_playback: bool,
    pub media_codecs: Vec<AudioCodec>,
    pub audio_sources: Vec<AudioSourceInfo>,
    pub audio_outputs: Vec<AudioOutputInfo>,
}

#[verifier::ext_equal]
pub struct CapabilitiesView {
    pub radio_control: bool,
    pub radio_devices: Seq<RadioDeviceView>,
    pub audio_capture: bool,
    pub audio_playback: bool,
    pub media_codecs: Seq<AudioCodec>,
    pub audio_sources: Seq<AudioSourceView>,
    pub audio_outputs: Seq<AudioOutputView>,
}

impl View for Capabilities {
    type V = CapabilitiesView;

    open spec fn view(&self) -> CapabilitiesView {
        CapabilitiesView {
            radio_control: self.radio_control,
            radio_devices: device_views(self.radio_devices@),
            audio_capture: self.audio_capture,
            audio_playback: self.audio_playback,
            media_codecs: self.media_codecs@,
            audio_sources: source_views(self.audio_sources@),
            audio_outputs: output_views(self.audio_outputs@),
        }
    }
}

/// The state of the selected radio, as far as it could be read.
#[derive(Debug, Clone, Copy, PartialEq, Eq, Structural)]
pub struct RadioState {
    pub frequency_hz: Option<u64>,
    pub mode: Option<RadioMode>,
    pub ptt: Option<bool>,
}

impl Default for RadioState {
    fn default() -> (state: RadioState)
        ensures
            state == (RadioState { frequency_hz: None, mode: None, ptt: None }),
    {
        RadioState { frequency_hz: None, mode: None, ptt: None }
    }
}

/// The state of a radio from three readings: a field is filled exactly if its
/// own reading succeeded.
pub fn radio_state(
    frequency: Result<u64, String>,
    mode: Result<RadioMode, String>,
    ptt: Result<bool, String>,
) -> (state: RadioState)
    ensures
        state.frequency_hz == match frequency {
            Ok(hz) => Some(hz),
            Err(_) => None,
        },
        state.mode == match mode {
            Ok(mode) => Some(mode),
            Err(_) => None,
        },
        state.ptt == match ptt {
            Ok(ptt) => Some(ptt),
            Err(_) => None,
        },
{
    RadioState { frequency_hz: frequency.ok(), mode: mode.ok(), ptt: ptt.ok() }
}

/// What can be done with one control of a radio. The name of a control means
/// nothing to clients but itself.
#[derive(Debug, PartialEq, Eq)]
pub struct ControlCapability {
    pub id: String,
    pub readable: bool,
    pub writable: bool,
}

#[verifier::ext_equal]
pub struct ControlCapabilityView {
    pub id: Seq<char>,
    pub readable: bool,
    pub writable: bool,
}

impl View for ControlCapability {
    type V = ControlCapabilityView;

    open spec fn view(&self) -> ControlCapabilityView {
        ControlCapabilityView { id: self.id@, readable: self.readable, writable: self.writable }
    }
}

/// What can be done with the selected radio: frequency, mode and PTT, every
/// control, the meters, and whether there is an antenna tuner.
#[derive(Debug, PartialEq, Eq)]
pub struct RadioCapabilities {
    pub can_get_frequency: bool,
    pub can_set_frequency: bool,
    pub can_get_mode: bool,
    pub can_set_mode: bool,
    pub can_get_ptt: bool,
    pub can_set_ptt: bool,
    pub controls: Vec<ControlCapability>,
    pub meters: Vec<String>,
    pub tuner: bool,
}

#[verifier::ext_equal]
pub struct RadioCapabilitiesView {
    pub can_get_frequency: bool,
    pub can_set_frequency: bool,
    pub can_get_mode: bool,
    pub can_set_mode: bool,
    pub can_get_ptt: bool,
    pub can_set_ptt: bool,
    pub controls: Seq<ControlCapabilityView>,
    pub meters: Seq<Seq<char>>,
    pub tuner: bool,
}

impl View for RadioCapabilities {
    type V = RadioCapabilitiesView;

    open spec fn view(&self) -> RadioCapabilitiesView {
        RadioCapabilitiesView {
            can_get_frequency: self.can_get_frequency,
            can_set_frequency: self.can_set_frequency,
            can_get_mode: self.can_get_mode,
            can_set_mode: self.can_set_mode,
            can_get_ptt: self.can_get_ptt,
            can_set_ptt: self.can_set_ptt,
            controls: self.controls@.map_values(|c: ControlCapability| c@),
            meters: texts(self.meters@),
            tuner: self.tuner,
        }
    }
}

impl RadioCapabilitiesView {
    /// Whether the radio has a meter.
    pub open spec fn has_meter(self, id: Seq<char>) -> bool {
        self.meters.contains(id)
    }

    /// Whether a control of the radio can be read.
    pub open spec fn reads(self, id: Seq<char>) -> bool {
        exists|i: int|
            0 <= i < self.controls.len() && (#[trigger] self.controls[i]).id == id
                && self.controls[i].readable
    }

    /// Whether a control of the radio can be written.
    pub open spec fn writes(self, id: Seq<char>) -> bool {
        exists|i: int|
            0 <= i < self.controls.len() && (#[trigger] self.controls[i]).id == id
                && self.controls[i].writable
    }
}

impl RadioCapabilities {
    /// Whether the radio has a meter.
    pub fn has_meter(&self, id: &str) -> (yes: bool)
        ensures
            yes == self@.has_meter(id@),
    {
        let ghost meters = self@.meters;
        for i in 0..self.meters.len()
            invariant
                meters == texts(self.meters@),
                forall|j: int| 0 <= j < i ==> meters[j] != id@,
        {
            assert(meters[i as int] == self.meters@[i as int]@);
            if same_text(self.meters[i].as_str(), id) {
                return true;
            }
        }
        false
    }

    /// Whether a control of the radio can be read.
    pub fn reads(&self, id: &str) -> (yes: bool)
        ensures
            yes == self@.reads(id@),
    {
        let ghost controls = self@.controls;
        for i in 0..self.controls.len()
            invariant
                controls == self@.controls,
                controls.len() == self.controls@.len(),
                forall|j: int|
                    0 <= j < i ==> !((#[trigger] controls[j]).id == id@ && controls[j].readable),
        {
            let control = &self.controls[i];
            assert(controls[i as int] == control@);
            if control.readable && same_text(control.id.as_str(), id) {
                return true;
            }
        }
        false
    }

    /// Whether a control of the radio can be written.
    pub fn writes(&self, id: &str) -> (yes: bool)
        ensures
            yes == self@.writes(id@),
    {
        let ghost controls = self@.controls;
        for i in 0..self.controls.len()
            invariant
                controls == self@.controls,
                controls.len() == self.controls@.len(),
                forall|j: int|
                    0 <= j < i ==> !((#[trigger] controls[j]).id == id@ && controls[j].writable),
        {
            let control = &self.controls[i];
            assert(controls[i as int] == control@);
            if control.writable && same_text(control.id.as_str(), id) {
                return true;
            }
        }
        false
    }

    /// A copy.
    pub fn copied(&self) -> (copy: RadioCapabilities)
        ensures
            copy@ == self@,
    {
        let mut controls: Vec<ControlCapability> = Vec::new();
        let mut meters: Vec<String> = Vec::new();
        for i in 0..self.controls.len()
            invariant
                controls@.len() == i,
                forall|j: int| 0 <= j < i ==> (#[trigger] controls@[j])@ == self.controls@[j]@,
        {
            let control = &self.controls[i];
            controls.push(
                ControlCapability {
                    id: control.id.clone(),
                    readable: control.readable,
                    writable: control.writable,
                },
            );
        }
        for i in 0..self.meters.len()
            invariant
                meters@.len() == i,
                forall|j: int| 0 <= j < i ==> (#[trigger] meters@[j])@ == self.meters@[j]@,
        {
            meters.push(self.meters[i].clone());
        }
        let copy = RadioCapabilities {
            can_get_frequency: self.can_get_frequency,
            can_set_frequency: self.can_set_frequency,
            can_get_mode: self.can_get_mode,
            can_set_mode: self.can_set_mode,
            can_get_ptt: self.can_get_ptt,
            can_set_ptt: self.can_set_ptt,
            controls,
            meters,
            tuner: self.tuner,
        };
        assert(copy@.controls =~= self@.controls);
        assert(copy@.meters =~= self@.meters);
        copy
    }
}

/// The value of a control.
#[derive(Debug, PartialEq, Eq)]
pub enum ControlValue {
    Bool(bool),
    U8(u8),
    I32(i32),
    U64(u64),
    Mode(RadioMode),
    Vfo(u8),
    Receiver(u8),
    Text(String),
    Raw(Vec<u8>),
}

#[verifier::ext_equal]
pub enum ControlValueView {
    Bool(bool),
    U8(u8),
    I32(i32),
    U64(u64),
    Mode(RadioMode),
    Vfo(u8),
    Receiver(u8),
    Text(Seq<char>),
    Raw(Seq<u8>),
}

impl View for ControlValue {
    type V = ControlValueView;

    open spec fn view(&self) -> ControlValueView {
        match self {
            ControlValue::Bool(on) => ControlValueView::Bool(*on),
            ControlValue::U8(value) => ControlValueView::U8(*value),
            ControlValue::I32(value) => ControlValueView::I32(*value),
            ControlValue::U64(value) => ControlValueView::U64(*value),
            ControlValue::Mode(mode) => ControlValueView::Mode(*mode),
            ControlValue::Vfo(vfo) => ControlValueView::Vfo(*vfo),
            ControlValue::Receiver(receiver) => ControlValueView::Receiver(*receiver),
            ControlValue::Text(text) => ControlValueView::Text(text@),
            ControlValue::Raw(bytes) => ControlValueView::Raw(bytes@),
        }
    }
}

/// The value of a control, where it has one.
pub open spec fn opt_value(value: Option<ControlValue>) -> Option<ControlValueView> {
    match value {
        Some(value) => Some(value@),
        None => None,
    }
}

/// What an antenna tuner does.
#[derive(Debug, Clone, Copy, PartialEq, Eq, Structural)]
pub struct TunerStatus {
    pub enabled: bool,
    pub tuning: bool,
}

/// The greeting of a client.
#[derive(Debug, PartialEq, Eq)]
pub struct ClientHello {
    pub protocol_version: u32,
    pub client_name: String,
    pub access_key: String,
    pub password: String,
}

/// The greeting of the host.
#[derive(Debug, PartialEq, Eq)]
pub struct HostHello {
    pub protocol_version: u32,
    pub session_id: u128,
    pub host_name: String,
    pub capabilities: Capabilities,
}

#[verifier::ext_equal]
pub struct HostHelloView {
    pub protocol_version: u32,
    pub session_id: u128,
    pub host_name: Seq<char>,
    pub capabilities: CapabilitiesView,
}

impl View for HostHello {
    type V = HostHelloView;

    open spec fn view(&self) -> HostHelloView {
        HostHelloView {
            protocol_version: self.protocol_version,
            session_id: self.session_id,
            host_name: self.host_name@,
            capabilities: self.capabilities@,
        }
    }
}

/// What a client sends as text.
#[derive(Debug, PartialEq, Eq)]
pub enum ClientMessage {
    Hello(ClientHello),
    SelectRadio { request_id: Option<String>, device_id: String, request: RadioRequest },
    GetState { request_id: Option<String> },
    SetFrequency { request_id: Option<String>, frequency_hz: u64 },
    SetMode { request_id: Option<String>, mode: RadioMode },
    SetPtt { request_id: Option<String>, enabled: bool },
    GetMeter { request_id: Option<String>, meter_id: String },
    GetControl { request_id: Option<String>, control_id: String },
    SetControl { request_id: Option<String>, control_id: String, value: ControlValue },
    GetTunerStatus { request_id: Option<String> },
    StartTuner { request_id: Option<String> },
    SelectAudio {
        request_id: Option<String>,
        enabled: bool,
        source_id: String,
        format: AudioFormat,
    },
    SelectAudioOutput {
        request_id: Option<String>,
        enabled: bool,
        output_id: String,
        format: AudioFormat,
    },
    Ping { nonce: u64 },
    Pong { nonce: u64 },
}

impl ClientMessage {
    /// The identifier under which a client wants to be answered.
    pub open spec fn id(self) -> Option<Seq<char>> {
        match self {
            ClientMessage::SelectRadio { request_id, .. } => opt_text(request_id),
            ClientMessage::GetState { request_id } => opt_text(request_id),
            ClientMessage::SetFrequency { request_id, .. } => opt_text(request_id),
            ClientMessage::SetMode { request_id, .. } => opt_text(request_id),
            ClientMessage::SetPtt { request_id, .. } => opt_text(request_id),
            ClientMessage::GetMeter { request_id, .. } => opt_text(request_id),
            ClientMessage::GetControl { request_id, .. } => opt_text(request_id),
            ClientMessage::SetControl { request_id, .. } => opt_text(request_id),
            ClientMessage::GetTunerStatus { request_id } => opt_text(request_id),
            ClientMessage::StartTuner { request_id } => opt_text(request_id),
            ClientMessage::SelectAudio { request_id, .. } => opt_text(request_id),
            ClientMessage::SelectAudioOutput { request_id, .. } => opt_text(request_id),
            _ => None,
        }
    }
}

/// What the host sends as text.
#[derive(Debug, PartialEq, Eq)]
pub enum ServerMessage {
    Hello(HostHello),
    Ack { request_id: Option<String> },
    RadioCapabilities(RadioCapabilities),
    State(RadioState),
    MeterValue { request_id: Option<String>, meter_id: String, level: Option<u8> },
    ControlValue { request_id: Option<String>, control_id: String, value: Option<ControlValue> },
    TunerStatus { request_id: Option<String>, status: Option<TunerStatus> },
    Error { code: String, message: String, request_id: Option<String> },
    Ping { nonce: u64 },
    Pong { nonce: u64 },
}

#[verifier::ext_equal]
pub enum ServerMessageView {
    Hello(HostHelloView),
    Ack { request_id: Option<Seq<char>> },
    RadioCapabilities(RadioCapabilitiesView),
    State(RadioState),
    MeterValue { request_id: Option<Seq<char>>, meter_id: Seq<char>, level: Option<u8> },
    ControlValue {
        request_id: Option<Seq<char>>,
        control_id: Seq<char>,
        value: Option<ControlValueView>,
    },
    TunerStatus { request_id: Option<Seq<char>>, status: Option<TunerStatus> },
    Error { code: Seq<char>, message: Seq<char>, request_id: Option<Seq<char>> },
    Ping { nonce: u64 },
    Pong { nonce: u64 },
}

impl View for ServerMessage {
    type V = ServerMessageView;

    open spec fn view(&self) -> ServerMessageView {
        match self {
            ServerMessage::Hello(hello) => ServerMessageView::Hello(hello@),
            ServerMessage::Ack { request_id } => ServerMessageView::Ack {
                request_id: opt_text(*request_id),
            },
            ServerMessage::RadioCapabilities(capabilities) => {
                ServerMessageView::RadioCapabilities(capabilities@)
            },
            ServerMessage::State(state) => ServerMessageView::State(*state),
            ServerMessage::MeterValue { request_id, meter_id, level } => {
                ServerMessageView::MeterValue {
                    request_id: opt_text(*request_id),
                    meter_id: meter_id@,
                    level: *level,
                }
            },
            ServerMessage::ControlValue { request_id, control_id, value } => {
                ServerMessageView::ControlValue {
                    request_id: opt_text(*request_id),
                    control_id: control_id@,
                    value: opt_value(*value),
                }
            },
            ServerMessage::TunerStatus { request_id, status } => ServerMessageView::TunerStatus {
                request_id: opt_text(*request_id),
                status: *status,
            },
            ServerMessage::Error { code, message, request_id } => ServerMessageView::Error {
                code: code@,
                message: message@,
                request_id: opt_text(*request_id),
            },
            ServerMessage::Ping { nonce } => ServerMessageView::Ping { nonce: *nonce },
            ServerMessage::Pong { nonce } => ServerMessageView::Pong { nonce: *nonce },
        }
    }
}

/// A catalog entry is seen with its own fields.
pub proof fn law_catalog_entries_are_kept(
    device: RadioDeviceInfo,
    source: AudioSourceInfo,
    output: AudioOutputInfo,
)
    ensures
        device@.id == device.id@,
        device@.label == device.label@,
        device@.transport == device.transport,
        device@.in_use == device.in_use,
        source@.id == source.id@,
        source@.label == source.label@,
        source@.kind == source.kind,
        source@.formats == source.formats@,
        output@.id == output.id@,
        output@.label == output.label@,
        output@.formats == output.formats@,
{
}

/// A list of catalog entries is seen one for one.
pub proof fn law_catalog_lists_are_kept(
    devices: Seq<RadioDeviceInfo>,
    sources: Seq<AudioSourceInfo>,
    outputs: Seq<AudioOutputInfo>,
    i: int,
)
    ensures
        device_views(devices).len() == devices.len(),
        source_views(sources).len() == sources.len(),
        output_views(outputs).len() == outputs.len(),
        source_ids(source_views(sources)).len() == sources.len(),
        output_ids(output_views(outputs)).len() == outputs.len(),
        0 <= i < devices.len() ==> device_views(devices)[i] == devices[i]@,
        0 <= i < sources.len() ==> source_views(sources)[i] == sources[i]@,
        0 <= i < outputs.len() ==> output_views(outputs)[i] == outputs[i]@,
        0 <= i < sources.len() ==> source_ids(source_views(sources))[i] == sources[i].id@,
        0 <= i < outputs.len() ==> output_ids(output_views(outputs))[i] == outputs[i].id@,
{
}

/// What a host offers is seen as it is.
pub proof fn law_offer_is_kept(offer: Capabilities, hello: HostHello)
    ensures
        offer@.radio_control == offer.radio_control,
        offer@.radio_devices == device_views(offer.radio_devices@),
        offer@.audio_capture == offer.audio_capture,
        offer@.audio_playback == offer.audio_playback,
        offer@.media_codecs == offer.media_codecs@,
        offer@.audio_sources == source_views(offer.audio_sources@),
        offer@.audio_outputs == output_views(offer.audio_outputs@),
        hello@.protocol_version == hello.protocol_version,
        hello@.session_id == hello.session_id,
        hello@.host_name == hello.host_name@,
        hello@.capabilities == hello.capabilities@,
        PROTOCOL_VERSION == 6,
{
}

/// What a radio can do is seen as it is, control by control and meter by
/// meter.
pub proof fn law_radio_capabilities_are_kept(radio: RadioCapabilities, i: int)
    ensures
        radio@.can_get_frequency == radio.can_get_frequency,
        radio@.can_set_frequency == radio.can_set_frequency,
        radio@.can_get_mode == radio.can_get_mode,
        radio@.can_set_mode == radio.can_set_mode,
        radio@.can_get_ptt == radio.can_get_ptt,
        radio@.can_set_ptt == radio.can_set_ptt,
        radio@.tuner == radio.tuner,
        radio@.controls.len() == radio.controls@.len(),
        radio@.meters.len() == radio.meters@.len(),
        0 <= i < radio.controls@.len() ==> radio@.controls[i].id == radio.controls@[i].id@
            && radio@.controls[i].readable == radio.controls@[i].readable
            && radio@.controls[i].writable == radio.controls@[i].writable,
        0 <= i < radio.meters@.len() ==> radio@.meters[i] == radio.meters@[i]@,
{
}

/// A control counts as readable or writable, and a meter as there, exactly if
/// the list says so.
pub proof fn law_capabilities_tell_what_works(radio: RadioCapabilitiesView, id: Seq<char>)
    ensures
        radio.reads(id) <==> exists|i: int|
            0 <= i < radio.controls.len() && (#[trigger] radio.controls[i]).id == id
                && radio.controls[i].readable,
        radio.writes(id) <==> exists|i: int|
            0 <= i < radio.controls.len() && (#[trigger] radio.controls[i]).id == id
                && radio.controls[i].writable,
        radio.has_meter(id) <==> exists|i: int|
            0 <= i < radio.meters.len() && #[trigger] radio.meters[i] == id,
{
}

/// The value of a control is seen as it is.
pub proof fn law_control_values_are_kept(value: ControlValue)
    ensures
        match value {
            ControlValue::Bool(on) => value@ == ControlValueView::Bool(on),
            ControlValue::U8(number) => value@ == ControlValueView::U8(number),
            ControlValue::I32(number) => value@ == ControlValueView::I32(number),
            ControlValue::U64(number) => value@ == ControlValueView::U64(number),
            ControlValue::Mode(mode) => value@ == ControlValueView::Mode(mode),
            ControlValue::Vfo(vfo) => value@ == ControlValueView::Vfo(vfo),
            ControlValue::Receiver(receiver) => value@ == ControlValueView::Receiver(receiver),
            ControlValue::Text(text) => value@ == ControlValueView::Text(text@),
            ControlValue::Raw(bytes) => value@ == ControlValueView::Raw(bytes@),
        },
        opt_value(Some(value)) == Some(value@),
        opt_value(None) is None,
{
}

/// What the host sends is seen as it is.
pub proof fn law_server_messages_are_kept(message: ServerMessage)
    ensures
        match message {
            ServerMessage::Hello(hello) => message@ == ServerMessageView::Hello(hello@),
            ServerMessage::Ack { request_id } => message@ == (ServerMessageView::Ack {
                request_id: opt_text(request_id),
            }),
            ServerMessage::RadioCapabilities(radio) => message@
                == ServerMessageView::RadioCapabilities(radio@),
            ServerMessage::State(state) => message@ == ServerMessageView::State(state),
            ServerMessage::MeterValue { request_id, meter_id, level } => message@ == (
            ServerMessageView::MeterValue {
                request_id: opt_text(request_id),
                meter_id: meter_id@,
                level,
            }),
            ServerMessage::ControlValue { request_id, control_id, value } => message@ == (
            ServerMessageView::ControlValue {
                request_id: opt_text(request_id),
                control_id: control_id@,
                value: opt_value(value),
            }),
            ServerMessage::TunerStatus { request_id, status } => message@ == (
            ServerMessageView::TunerStatus { request_id: opt_text(request_id), status }),
            ServerMessage::Error { code, message: words, request_id } => message@ == (
            ServerMessageView::Error {
                code: code@,
                message: words@,
                request_id: opt_text(request_id),
            }),
            ServerMessage::Ping { nonce } => message@ == (ServerMessageView::Ping { nonce }),
            ServerMessage::Pong { nonce } => message@ == (ServerMessageView::Pong { nonce }),
        },
{
}

/// A reading that failed empties its own field of the state and no other.
pub proof fn law_readings_fill_the_state(
    frequency: Result<u64, String>,
    mode: Result<RadioMode, String>,
    ptt: Result<bool, String>,
    state: RadioState,
)
    requires
        call_ensures(radio_state, (frequency, mode, ptt), state),
    ensures
        frequency matches Ok(hz) ==> state.frequency_hz == Some(hz),
        frequency is Err ==> state.frequency_hz is None,
        mode matches Ok(mode) ==> state.mode == Some(mode),
        mode is Err ==> state.mode is None,
        ptt matches Ok(on) ==> state.ptt == Some(on),
        ptt is Err ==> state.ptt is None,
{
}

} // verus!
