//! The host: its identity, its radios, its audio and who may use them.

use crate::audio::{AudioOutputProvider, AudioSink, AudioSource};
use crate::media::AudioCodec;
use crate::protocol::{
    output_views, source_views, AudioOutputInfo, AudioOutputView, AudioSourceInfo, AudioSourceView,
    Capabilities, CapabilitiesView, HostHello, HostHelloView, PROTOCOL_VERSION,
};
use crate::radio::{RadioCatalogView, RadioError, RadioProvider};
use crate::text::same_text;
use vstd::prelude::*;

verus! {

/// Where a host listens and what it calls itself.
#[derive(Debug, PartialEq, Eq)]
pub struct HostConfig {
    pub bind: String,
    pub host_name: String,
}

/// Decides who may use a host.
pub trait Authorizer {
    fn authorize(&self, key: &str, password: &str) -> bool;
}

/// Admits the holder of one key and one password.
#[derive(Debug)]
pub struct StaticAuthorizer {
    key: String,
    password: String,
}

impl StaticAuthorizer {
    /// Whether a key and a password are the right ones.
    pub closed spec fn admits(&self, key: Seq<char>, password: Seq<char>) -> bool {
        key == self.key@ && password == self.password@
    }

    /// Admits exactly this key with exactly this password.
    pub fn new(key: String, password: String) -> (authorizer: StaticAuthorizer)
        ensures
            forall|k: Seq<char>, p: Seq<char>| #[trigger]
                authorizer.admits(k, p) <==> k == key@ && p == password@,
    {
        StaticAuthorizer { key, password }
    }
}

impl Authorizer for StaticAuthorizer {
    fn authorize(&self, key: &str, password: &str) -> (granted: bool)
        ensures
            granted == self.admits(key@, password@),
    {
        same_text(key, self.key.as_str()) && same_text(password, self.password.as_str())
    }
}

/// A host with one key and one password admits exactly who knows both.
pub proof fn law_static_authorizer_admits_by_key_and_password(
    authorizer: StaticAuthorizer,
    key: &str,
    password: &str,
    granted: bool,
)
    requires
        call_ensures(
            <StaticAuthorizer as Authorizer>::authorize,
            (&authorizer, key, password),
            granted,
        ),
    ensures
        granted == authorizer.admits(key@, password@),
{
}

/// What sessions can see of a host.
#[verifier::ext_equal]
pub struct HostView {
    pub host_name: Seq<char>,
    pub radios: RadioCatalogView,
    pub audio: Option<Seq<AudioSourceView>>,
    pub audio_sink: bool,
    pub audio_outputs: Option<Seq<AudioOutputView>>,
}

/// What a host without outputs offers: none.
pub open spec fn offered<T>(list: Option<Seq<T>>) -> Seq<T> {
    match list {
        Some(list) => list,
        None => seq![],
    }
}

impl HostView {
    /// What an authenticated client may select.
    pub open spec fn capabilities(self) -> CapabilitiesView {
        let outputs = offered(self.audio_outputs);
        CapabilitiesView {
            radio_control: self.radios.devices.len() > 0,
            radio_devices: self.radios.advertised(),
            audio_capture: self.audio is Some,
            audio_playback: self.audio_sink || outputs.len() > 0,
            media_codecs: if self.audio is Some || self.audio_sink || outputs.len() > 0 {
                seq![AudioCodec::PcmS16Le]
            } else {
                seq![]
            },
            audio_sources: offered(self.audio),
            audio_outputs: outputs,
        }
    }

    /// The greeting for a session.
    pub open spec fn hello(self, session_id: u128) -> HostHelloView {
        HostHelloView {
            protocol_version: PROTOCOL_VERSION,
            session_id,
            host_name: self.host_name,
            capabilities: self.capabilities(),
        }
    }

    /// The host with other reservations.
    pub open spec fn with_radios(self, radios: RadioCatalogView) -> HostView {
        HostView { radios, ..self }
    }
}

/// What a host would offer with these radios, inputs and outputs. Other than
/// in a greeting, capture counts only if there is an input.
pub open spec fn reported(
    radios: RadioCatalogView,
    sources: Seq<AudioSourceView>,
    outputs: Seq<AudioOutputView>,
) -> CapabilitiesView {
    CapabilitiesView {
        radio_control: radios.devices.len() > 0,
        radio_devices: radios.advertised(),
        audio_capture: sources.len() > 0,
        audio_playback: outputs.len() > 0,
        media_codecs: if sources.len() == 0 && outputs.len() == 0 {
            seq![]
        } else {
            seq![AudioCodec::PcmS16Le]
        },
        audio_sources: sources,
        audio_outputs: outputs,
    }
}

/// Reports the radios, inputs and outputs that were found.
pub fn show_devices<R: RadioProvider, A: AudioSource, O: AudioOutputProvider>(
    radios: &R,
    audio: &A,
    outputs: &O,
) -> (capabilities: Capabilities)
    ensures
        capabilities@ == reported(radios.catalog(), audio.inputs(), outputs.playbacks()),
{
    let radio_devices = radios.devices();
    let audio_sources = audio.sources();
    let audio_outputs = outputs.outputs();
    assert(radios.catalog().advertised().len() == radio_devices@.len());
    assert(audio.inputs().len() == audio_sources@.len());
    assert(outputs.playbacks().len() == audio_outputs@.len());
    let media_codecs = if audio_sources.len() == 0 && audio_outputs.len() == 0 {
        Vec::new()
    } else {
        vec![AudioCodec::PcmS16Le]
    };
    assert(media_codecs@ =~= reported(
        radios.catalog(),
        audio.inputs(),
        outputs.playbacks(),
    ).media_codecs);
    Capabilities {
        radio_control: radio_devices.len() > 0,
        radio_devices,
        audio_capture: audio_sources.len() > 0,
        audio_playback: audio_outputs.len() > 0,
        media_codecs,
        audio_sources,
        audio_outputs,
    }
}

/// A host that serves any number of sessions.
pub struct HostBridge<R, A, S, O, U> {
    config: HostConfig,
    radios: R,
    audio: Option<A>,
    audio_sink: Option<S>,
    audio_outputs: Option<O>,
    authorizer: U,
}

impl<R, A, S, O, U> View for HostBridge<R, A, S, O, U> where
    R: RadioProvider,
    A: AudioSource,
    S: AudioSink,
    O: AudioOutputProvider,
    U: Authorizer,
 {
    type V = HostView;

    closed spec fn view(&self) -> HostView {
        HostView {
            host_name: self.config.host_name@,
            radios: self.radios.catalog(),
            audio: match self.audio {
                Some(audio) => Some(audio.inputs()),
                None => None,
            },
            audio_sink: self.audio_sink is Some,
            audio_outputs: match self.audio_outputs {
                Some(outputs) => Some(outputs.playbacks()),
                None => None,
            },
        }
    }
}

impl<R, A, S, O, U> HostBridge<R, A, S, O, U> where
    R: RadioProvider,
    A: AudioSource,
    S: AudioSink,
    O: AudioOutputProvider,
    U: Authorizer,
 {
    /// The radios of this host.
    pub closed spec fn radio_provider(&self) -> R {
        self.radios
    }

    /// Where this host listens.
    pub closed spec fn address(&self) -> Seq<char> {
        self.config.bind@
    }

    /// Decides who may use this host.
    pub closed spec fn gatekeeper(&self) -> U {
        self.authorizer
    }

    /// The capture inputs of this host.
    pub closed spec fn audio_provider(&self) -> Option<A> {
        self.audio
    }

    /// The playback outputs of this host.
    pub closed spec fn output_provider(&self) -> Option<O> {
        self.audio_outputs
    }

    /// The fixed sink of this host.
    pub closed spec fn fixed_sink(&self) -> Option<S> {
        self.audio_sink
    }

    /// Whether this host is another one but for what is reserved.
    pub open spec fn same_equipment(&self, other: &Self) -> bool {
        &&& self.address() == other.address()
        &&& self.gatekeeper() == other.gatekeeper()
        &&& self.radio_provider().entries() == other.radio_provider().entries()
        &&& self.audio_provider() == other.audio_provider()
        &&& self.output_provider() == other.output_provider()
        &&& self.fixed_sink() == other.fixed_sink()
    }

    /// What sessions see of the radios is the state of their provider.
    pub proof fn lemma_view_shows_radios(&self)
        ensures
            self@.radios == self.radio_provider().catalog(),
    {
    }

    /// A host without playback.
    pub fn new(config: HostConfig, radios: R, audio: Option<A>, authorizer: U) -> (host: Self)
        ensures
            host.radio_provider() == radios,
            host.gatekeeper() == authorizer,
            host.address() == config.bind@,
            host.audio_provider() == audio,
            host.fixed_sink() == None::<S>,
            host.output_provider() == None::<O>,
            host@ == (HostView {
                host_name: config.host_name@,
                radios: radios.catalog(),
                audio: match audio {
                    Some(audio) => Some(audio.inputs()),
                    None => None,
                },
                audio_sink: false,
                audio_outputs: None,
            }),
    {
        Self::new_with_audio_sink(config, radios, audio, None, authorizer)
    }

    /// A host whose client audio goes to one fixed sink.
    pub fn new_with_audio_sink(
        config: HostConfig,
        radios: R,
        audio: Option<A>,
        audio_sink: Option<S>,
        authorizer: U,
    ) -> (host: Self)
        ensures
            host.radio_provider() == radios,
            host.gatekeeper() == authorizer,
            host.address() == config.bind@,
            host.audio_provider() == audio,
            host.fixed_sink() == audio_sink,
            host.output_provider() == None::<O>,
            host@ == (HostView {
                host_name: config.host_name@,
                radios: radios.catalog(),
                audio: match audio {
                    Some(audio) => Some(audio.inputs()),
                    None => None,
                },
                audio_sink: audio_sink is Some,
                audio_outputs: None,
            }),
    {
        HostBridge { config, radios, audio, audio_sink, audio_outputs: None, authorizer }
    }

    /// A host whose clients choose among its outputs.
    pub fn new_with_audio_output(
        config: HostConfig,
        radios: R,
        audio: Option<A>,
        audio_outputs: Option<O>,
        authorizer: U,
    ) -> (host: Self)
        ensures
            host.radio_provider() == radios,
            host.gatekeeper() == authorizer,
            host.address() == config.bind@,
            host.audio_provider() == audio,
            host.fixed_sink() == None::<S>,
            host.output_provider() == audio_outputs,
            host@ == (HostView {
                host_name: config.host_name@,
                radios: radios.catalog(),
                audio: match audio {
                    Some(audio) => Some(audio.inputs()),
                    None => None,
                },
                audio_sink: false,
                audio_outputs: match audio_outputs {
                    Some(outputs) => Some(outputs.playbacks()),
                    None => None,
                },
            }),
    {
        HostBridge { config, radios, audio, audio_sink: None, audio_outputs, authorizer }
    }

    /// The capture inputs, if this host has any capture at all.
    pub fn audio_sources(&self) -> (sources: Option<Vec<AudioSourceInfo>>)
        ensures
            match sources {
                Some(sources) => self@.audio == Some(source_views(sources@)),
                None => self@.audio is None,
            },
    {
        match &self.audio {
            Some(audio) => Some(audio.sources()),
            None => None,
        }
    }

    /// The playback outputs, if this host has any to choose from.
    pub fn playback_outputs(&self) -> (outputs: Option<Vec<AudioOutputInfo>>)
        ensures
            match outputs {
                Some(outputs) => self@.audio_outputs == Some(output_views(outputs@)),
                None => self@.audio_outputs is None,
            },
    {
        match &self.audio_outputs {
            Some(outputs) => Some(outputs.outputs()),
            None => None,
        }
    }

    /// What an authenticated client may select.
    pub fn capabilities(&self) -> (capabilities: Capabilities)
        ensures
            capabilities@ == self@.capabilities(),
    {
        let audio_outputs = match self.playback_outputs() {
            Some(outputs) => outputs,
            None => Vec::new(),
        };
        let audio_sources = match self.audio_sources() {
            Some(sources) => sources,
            None => Vec::new(),
        };
        assert(output_views(audio_outputs@) =~= offered(self@.audio_outputs));
        assert(source_views(audio_sources@) =~= offered(self@.audio));
        let radio_devices = self.radios.devices();
        let has_outputs: bool = audio_outputs.len() > 0;
        let media_codecs = if self.audio.is_some() || self.audio_sink.is_some() || has_outputs {
            vec![AudioCodec::PcmS16Le]
        } else {
            Vec::new()
        };
        assert(media_codecs@ =~= self@.capabilities().media_codecs);
        assert(self@.radios.advertised().len() == radio_devices@.len());
        Capabilities {
            radio_control: radio_devices.len() > 0,
            radio_devices,
            audio_capture: self.audio.is_some(),
            audio_playback: self.audio_sink.is_some() || has_outputs,
            media_codecs,
            audio_sources,
            audio_outputs,
        }
    }

    /// Where this host listens.
    pub fn bind(&self) -> (bind: &str)
        ensures
            bind@ == self.address(),
    {
        self.config.bind.as_str()
    }

    /// The radios of this host.
    pub fn radios(&self) -> (radios: &R)
        ensures
            *radios == self.radio_provider(),
            radios.catalog() == self@.radios,
    {
        &self.radios
    }

    /// The capture inputs of this host.
    pub fn audio(&self) -> (audio: Option<&A>)
        ensures
            match audio {
                Some(audio) => self.audio_provider() == Some(*audio) && self@.audio == Some(
                    audio.inputs(),
                ),
                None => self.audio_provider() is None && self@.audio is None,
            },
    {
        self.audio.as_ref()
    }

    /// The playback outputs of this host.
    pub fn outputs(&self) -> (outputs: Option<&O>)
        ensures
            match outputs {
                Some(outputs) => self.output_provider() == Some(*outputs) && self@.audio_outputs
                    == Some(outputs.playbacks()),
                None => self.output_provider() is None && self@.audio_outputs is None,
            },
    {
        self.audio_outputs.as_ref()
    }

    /// The fixed sink of this host.
    pub fn sink(&mut self) -> (sink: Option<&mut S>)
        ensures
            match sink {
                Some(sink) => old(self)@.audio_sink && old(self).fixed_sink() == Some(*sink)
                    && final(self).fixed_sink() == Some(*final(sink)),
                None => !old(self)@.audio_sink && old(self).fixed_sink() is None
                    && final(self).fixed_sink() is None,
            },
            final(self)@ == old(self)@,
            final(self).address() == old(self).address(),
            final(self).gatekeeper() == old(self).gatekeeper(),
            final(self).radio_provider() == old(self).radio_provider(),
            final(self).audio_provider() == old(self).audio_provider(),
            final(self).output_provider() == old(self).output_provider(),
    {
        self.audio_sink.as_mut()
    }

    /// Whether client audio goes to one fixed sink.
    pub fn has_sink(&self) -> (yes: bool)
        ensures
            yes == self@.audio_sink,
    {
        self.audio_sink.is_some()
    }

    /// Asks whether a client may use this host.
    pub fn authorize(&self, key: &str, password: &str) -> (granted: bool)
        ensures
            call_ensures(U::authorize, (&self.gatekeeper(), key, password), granted),
    {
        self.authorizer.authorize(key, password)
    }

    /// Reserves a radio and tells the place of its entry.
    pub fn acquire_radio(&mut self, device_id: &str) -> (outcome: Result<usize, RadioError>)
        ensures
            final(self)@ == old(self)@.with_radios(old(self)@.radios.acquired(device_id@)),
            final(self).same_equipment(old(self)),
            match outcome {
                Ok(place) => old(self)@.radios.reservation(device_id@) == Ok::<nat, RadioError>(
                    place as nat,
                ),
                Err(error) => old(self)@.radios.reservation(device_id@) == Err::<nat, RadioError>(
                    error,
                ),
            },
    {
        self.radios.acquire(device_id)
    }

    /// Gives a radio back.
    pub fn release_radio(&mut self, device_id: &str)
        ensures
            final(self)@ == old(self)@.with_radios(old(self)@.radios.released(device_id@)),
            final(self).same_equipment(old(self)),
    {
        self.radios.release(device_id)
    }

    /// Records that a holder of the reservations failed while it changed them.
    pub fn poison_radios(&mut self)
        ensures
            final(self)@ == old(self)@.with_radios(old(self)@.radios.distrusted()),
            final(self).same_equipment(old(self)),
    {
        self.radios.poison()
    }

    /// The greeting for a session.
    pub fn hello(&self, session_id: u128) -> (hello: HostHello)
        ensures
            hello@ == self@.hello(session_id),
    {
        HostHello {
            protocol_version: PROTOCOL_VERSION,
            session_id,
            host_name: self.config.host_name.clone(),
            capabilities: self.capabilities(),
        }
    }
}

/// What the greeting tells a client: the version, the session, the name of the
/// host, and everything that can be selected. Radios can be controlled if there
/// are any; capture is there if the host has inputs at all; playback if there
/// is a fixed sink or an output to choose; and there is a codec if there is any
/// audio.
pub proof fn law_greeting_describes_the_host(host: HostView, session_id: u128)
    ensures
        ({
            let hello = host.hello(session_id);
            let offer = hello.capabilities;
            &&& hello.protocol_version == 6
            &&& hello.session_id == session_id
            &&& hello.host_name == host.host_name
            &&& offer.radio_devices == host.radios.advertised()
            &&& offer.radio_control <==> host.radios.devices.len() > 0
            &&& offer.audio_capture <==> host.audio is Some
            &&& host.audio matches Some(sources) ==> offer.audio_sources == sources
            &&& host.audio is None ==> offer.audio_sources.len() == 0
            &&& host.audio_outputs matches Some(outputs) ==> offer.audio_outputs == outputs
            &&& host.audio_outputs is None ==> offer.audio_outputs.len() == 0
            &&& offer.audio_playback <==> host.audio_sink || offer.audio_outputs.len() > 0
            &&& offer.audio_capture || offer.audio_playback ==> offer.media_codecs == seq![
                AudioCodec::PcmS16Le,
            ]
            &&& !offer.audio_capture && !offer.audio_playback ==> offer.media_codecs.len() == 0
        }),
{
}

/// What the report of found devices says: all of them, and what can be done
/// with them.
pub proof fn law_report_lists_what_was_found(
    radios: RadioCatalogView,
    sources: Seq<AudioSourceView>,
    outputs: Seq<AudioOutputView>,
)
    ensures
        ({
            let report = reported(radios, sources, outputs);
            &&& report.radio_devices == radios.advertised()
            &&& report.radio_control <==> radios.devices.len() > 0
            &&& report.audio_sources == sources
            &&& report.audio_outputs == outputs
            &&& report.audio_capture <==> sources.len() > 0
            &&& report.audio_playback <==> outputs.len() > 0
            &&& sources.len() > 0 || outputs.len() > 0 ==> report.media_codecs == seq![
                AudioCodec::PcmS16Le,
            ]
            &&& sources.len() == 0 && outputs.len() == 0 ==> report.media_codecs.len() == 0
        }),
{
}

/// Other reservations change nothing else of what sessions see.
pub proof fn law_only_reservations_change(host: HostView, radios: RadioCatalogView)
    ensures
        host.with_radios(radios).radios == radios,
        host.with_radios(radios).host_name == host.host_name,
        host.with_radios(radios).audio == host.audio,
        host.with_radios(radios).audio_sink == host.audio_sink,
        host.with_radios(radios).audio_outputs == host.audio_outputs,
{
}

/// A host with the same equipment listens at the same address, asks the same
/// gatekeeper, and has the same radios, inputs, outputs and sink behind it.
pub proof fn law_same_equipment<R, A, S, O, U>(
    host: HostBridge<R, A, S, O, U>,
    other: HostBridge<R, A, S, O, U>,
) where R: RadioProvider, A: AudioSource, S: AudioSink, O: AudioOutputProvider, U: Authorizer
    ensures
        host.same_equipment(&other) <==> {
            &&& host.address() == other.address()
            &&& host.gatekeeper() == other.gatekeeper()
            &&& host.radio_provider().entries() == other.radio_provider().entries()
            &&& host.audio_provider() == other.audio_provider()
            &&& host.output_provider() == other.output_provider()
            &&& host.fixed_sink() == other.fixed_sink()
        },
{
}

} // verus!
