//! The ALSA cards of a host.

use qsonaut_hostbridge::alsa::{
    alsa_channels, audio_label, channels_in, listed_cards, probe_arguments, stable_audio_id,
    stable_stream_id, AlsaAudioOutput, AlsaAudioSource, AlsaError, ProbedCard,
};
use qsonaut_hostbridge::audio::{AudioOutputProvider, AudioSource};
use qsonaut_hostbridge::media::AudioCodec;
use qsonaut_hostbridge::protocol::{AudioFormat, AudioSourceKind};
use std::collections::hash_map::DefaultHasher;
use std::hash::{Hash, Hasher};

fn hash(parts: &[&str]) -> u64 {
    let mut hasher = DefaultHasher::new();
    for part in parts {
        part.hash(&mut hasher);
    }
    hasher.finish()
}

fn card(line: &str, channels: Option<u8>) -> ProbedCard {
    ProbedCard { line: line.to_owned(), channels }
}

fn format(channels: u8) -> AudioFormat {
    AudioFormat { codec: AudioCodec::PcmS16Le, channels, sample_rate_hz: 48_000 }
}

#[test]
fn names_come_from_the_hash() {
    let device = "hw:CARD=CODEC,DEV=0";
    assert_eq!(stable_stream_id(device), hash(&[device]) as u32);
    assert_eq!(
        stable_audio_id("capture", device),
        format!("alsa-capture-{:016x}", hash(&["capture", device]))
    );
    assert_eq!(
        stable_audio_id("playback", device),
        format!("alsa-playback-{:016x}", hash(&["playback", device]))
    );
    assert_ne!(stable_stream_id("a"), stable_stream_id("b"));
    assert!(!stable_audio_id("capture", device).contains("CODEC"));
}

#[test]
fn labels_name_the_card() {
    assert_eq!(audio_label("capture", "hw:CARD=CODEC,DEV=0"), "ALSA capture CODEC");
    assert_eq!(audio_label("playback", "hw:CARD=A,B,C"), "ALSA playback A");
    assert_eq!(audio_label("capture", "hw:CARD=CODEC"), "ALSA capture device");
    assert_eq!(audio_label("capture", "default,x"), "ALSA capture device");
    assert_eq!(audio_label("capture", "hw:CARD=,DEV=0"), "ALSA capture ");
}

#[test]
fn only_hardware_cards_are_listed() {
    let printed = "null\n    Discard\nhw:CARD=PCH,DEV=0\r\n    Intel\nplughw:CARD=PCH,DEV=0\n\
                   hw:CARD=CODEC,DEV=0\n hw:CARD=Late,DEV=0";
    assert_eq!(
        listed_cards(printed.as_bytes()),
        vec!["hw:CARD=PCH,DEV=0".to_owned(), "hw:CARD=CODEC,DEV=0".to_owned()]
    );
    assert!(listed_cards(b"").is_empty());
}

#[test]
fn broken_text_is_replaced() {
    assert_eq!(
        listed_cards(b"hw:CARD=\xFFx,DEV=0\n"),
        vec!["hw:CARD=\u{FFFD}x,DEV=0".to_owned()]
    );
}

#[test]
fn mono_is_preferred() {
    assert_eq!(channels_in("ACCESS: MMAP\nCHANNELS: [1 2]\n"), Some(1));
    assert_eq!(channels_in("CHANNELS: 2\n"), Some(2));
    assert_eq!(channels_in("CHANNELS: 6\nCHANNELS: 1\n"), None);
    assert_eq!(channels_in(" CHANNELS: 1\n"), None);
    assert_eq!(channels_in(""), None);
}

#[test]
fn both_outputs_of_a_probe_count() {
    assert_eq!(alsa_channels(b"", b"CHANNELS: 2\n"), Some(2));
    assert_eq!(alsa_channels(b"CHANNELS: 1\n", b"CHANNELS: 2\n"), Some(1));
    assert_eq!(alsa_channels(b"CHAN", b"NELS: 2\n"), Some(2));
    assert_eq!(alsa_channels(b"", b""), None);
}

#[test]
fn probes_use_the_right_file() {
    let record = probe_arguments("arecord", "hw:CARD=X,DEV=0");
    assert_eq!(
        record,
        [
            "--dump-hw-params", "-D", "hw:CARD=X,DEV=0", "-f", "S16_LE", "-r", "48000", "-c", "1",
            "-d", "1", "/dev/null"
        ]
    );
    assert_eq!(probe_arguments("aplay", "d").last().unwrap(), "/dev/zero");
}

#[test]
fn cards_are_offered_even_if_their_probe_failed() {
    let cards = vec![card("hw:CARD=A,DEV=0 ", Some(1)), card("hw:CARD=B,DEV=0", None)];
    let sources = AlsaAudioSource::new(&cards).sources();
    assert_eq!(sources.len(), 2);
    assert_eq!(sources[0].id, stable_audio_id("capture", "hw:CARD=A,DEV=0"));
    assert_eq!(sources[0].label, "ALSA capture A");
    assert_eq!(sources[0].kind, AudioSourceKind::RadioInput);
    assert_eq!(sources[0].formats, vec![format(1)]);
    assert_eq!(sources[1].formats, vec![format(2)]);
    let outputs = AlsaAudioOutput::new(&cards).outputs();
    assert_eq!(outputs.len(), 2);
    assert_eq!(outputs[1].id, stable_audio_id("playback", "hw:CARD=B,DEV=0"));
    assert_eq!(outputs[1].label, "ALSA playback B");
    assert_eq!(outputs[1].formats, vec![format(2)]);
}

#[test]
fn capture_is_planned_for_an_offered_source() {
    let source = AlsaAudioSource::new(&vec![card("hw:CARD=A,DEV=0", Some(1))]);
    let id = stable_audio_id("capture", "hw:CARD=A,DEV=0");
    let plan = source.subscribe(&id, &format(1)).unwrap();
    assert_eq!(plan.device, "hw:CARD=A,DEV=0");
    assert_eq!(
        plan.arguments,
        ["-D", "hw:CARD=A,DEV=0", "-t", "raw", "-f", "S16_LE", "-r", "48000", "-c", "1"]
    );
    assert_eq!(plan.stream.stream_id, stable_stream_id("hw:CARD=A,DEV=0"));
    assert_eq!(plan.stream.sequence, 0);
    let refused = source.subscribe(&id, &format(2)).err().unwrap();
    assert_eq!(refused, AlsaError::SourceOrFormat);
    assert_eq!(refused.message(), "ALSA audio source or format is unavailable");
    assert!(source.subscribe("alsa-capture-0", &format(1)).is_err());
}

#[test]
fn playback_is_planned_for_an_offered_output() {
    let output = AlsaAudioOutput::new(&vec![card("hw:CARD=A,DEV=0", Some(2))]);
    let id = stable_audio_id("playback", "hw:CARD=A,DEV=0");
    let plan = output.open(&id, &format(2)).unwrap();
    assert_eq!(plan.device, "hw:CARD=A,DEV=0");
    assert_eq!(plan.arguments.last().unwrap(), "2");
    let unknown = output.open("nothing", &format(2)).err().unwrap();
    assert_eq!(unknown, AlsaError::Output);
    assert_eq!(unknown.message(), "ALSA audio output is unavailable");
    let wrong = output.open(&id, &format(1)).err().unwrap();
    assert_eq!(wrong, AlsaError::OutputFormat);
    assert_eq!(wrong.message(), "requested format is unavailable for ALSA audio output");
    assert_eq!(AlsaError::Source.message(), "ALSA audio source is unavailable");
}
