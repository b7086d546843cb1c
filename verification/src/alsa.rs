//! The ALSA cards of a host: how they are found, named and opened.

use crate::audio::{AudioOutputProvider, AudioSource};
use crate::media::{
    law_cut_numbers_frames, law_stream_numbering, AudioCodec, CaptureStream, MediaDirection,
    SAMPLE_RATE_HZ,
};
use crate::protocol::{
    find_output, has_format, output_ids, output_views, source_views, AudioFormat, AudioOutputInfo,
    AudioOutputView, AudioSourceInfo, AudioSourceKind, AudioSourceView,
};
use crate::text::{
    contains_char, decimal, decimal_text, digit, find_char, first_at, hex, hex_text,
    law_decimal_shows_the_number, law_first_position, law_hex_shows_the_number,
    law_lines_end_at_line_feeds, lines, place_of, same_text, shown, sixteens, split_lines,
    starts_with, string_of, strip_prefix, texts, to_chars, trim, trimmed,
};
use std::collections::hash_map::DefaultHasher;
use std::hash::{Hash, Hasher};
use vstd::hash_map::StringHashMap;
use vstd::prelude::*;
use vstd::std_specs::hash::DefaultHasherAdditionalSpecFns;

verus! {

/// What `<str as Hash>::hash` writes to a hasher for a text.
pub uninterp spec fn hash_writes(text: Seq<char>) -> Seq<Seq<u8>>;

/// `<str as Hash>::hash` adds the writes for the text to those that the hasher
/// has seen; they depend on the text alone. Which bytes they are is not said.
#[verifier::external_body]
fn hash_text(text: &str, hasher: &mut DefaultHasher)
    ensures
        final(hasher)@ == old(hasher)@ + hash_writes(text@),
{
    text.hash(hasher)
}

/// What `String::from_utf8_lossy` makes of bytes.
pub uninterp spec fn utf8_lossy(bytes: Seq<u8>) -> Seq<char>;

/// `String::from_utf8_lossy` decodes valid UTF-8 as it stands. Other bytes
/// become replacement characters; how many of them is not said.
#[verifier::external_body]
fn lossy_text(bytes: &[u8]) -> (text: String)
    ensures
        text@ == utf8_lossy(bytes@),
        vstd::utf8::valid_utf8(bytes@) ==> text@ == vstd::utf8::decode_utf8(bytes@),
{
    String::from_utf8_lossy(bytes).into_owned()
}

/// The stream number that stands for a hash.
pub fn stream_id_of(hash: u64) -> (id: u32)
    ensures
        id == hash as u32,
{
    #[verifier::truncate]
    (hash as u32)
}

/// The stream number of a device, the same in every run.
pub fn stable_stream_id(value: &str) -> (id: u32)
    ensures
        id == DefaultHasher::spec_finish(hash_writes(value@)) as u32,
{
    let mut hasher = DefaultHasher::new();
    hash_text(value, &mut hasher);
    assert(hasher@ =~= hash_writes(value@));
    stream_id_of(hasher.finish())
}

/// The public name of a device: its direction and 16 hexadecimal digits.
pub open spec fn audio_id(direction: Seq<char>, hash: u64) -> Seq<char> {
    "alsa-"@ + direction + "-"@ + hex(hash as nat, 16)
}

/// The hash behind the public name of a device.
pub open spec fn device_hash(direction: Seq<char>, device: Seq<char>) -> u64 {
    DefaultHasher::spec_finish(hash_writes(direction) + hash_writes(device))
}

/// The public name that stands for a hash.
pub fn audio_id_text(direction: &str, hash: u64) -> (id: String)
    ensures
        id@ == audio_id(direction@, hash),
{
    let mut id = "alsa-".to_owned();
    id.append(direction);
    id.append("-");
    let digits = hex_text(hash, 16);
    id.append(digits.as_str());
    id
}

/// The public name of a device, the same in every run. It tells nothing of the
/// name that ALSA uses.
pub fn stable_audio_id(direction: &str, device: &str) -> (id: String)
    ensures
        id@ == audio_id(direction@, device_hash(direction@, device@)),
{
    let mut hasher = DefaultHasher::new();
    hash_text(direction, &mut hasher);
    hash_text(device, &mut hasher);
    assert(hasher@ =~= hash_writes(direction@) + hash_writes(device@));
    audio_id_text(direction, hasher.finish())
}

/// The card that a line of a device list names, or a stand-in.
pub open spec fn card_name(descriptor: Seq<char>) -> Seq<char> {
    let rest = descriptor.skip("hw:CARD="@.len() as int);
    if "hw:CARD="@.is_prefix_of(descriptor) && rest.contains(',') {
        rest.take(first_at(rest, ','))
    } else {
        "device"@
    }
}

/// The label of a device.
pub open spec fn label_of(direction: Seq<char>, descriptor: Seq<char>) -> Seq<char> {
    "ALSA "@ + direction + " "@ + card_name(descriptor)
}

/// The label of a device: its direction and its card.
pub fn audio_label(direction: &str, descriptor: &str) -> (label: String)
    ensures
        label@ == label_of(direction@, descriptor@),
{
    let mut label = "ALSA ".to_owned();
    label.append(direction);
    label.append(" ");
    match strip_prefix(descriptor, "hw:CARD=") {
        Some(rest) => {
            let chars = to_chars(rest.as_str());
            let comma: usize = find_char(&chars, 0, ',');
            assert(chars@.skip(0) =~= chars@);
            proof {
                lemma_first_at_finds(chars@, ',');
            }
            if comma < chars.len() {
                let card = string_of(&chars, 0, comma);
                assert(card@ =~= rest@.take(comma as int));
                label.append(card.as_str());
            } else {
                label.append("device");
            }
        },
        None => {
            label.append("device");
        },
    }
    label
}

/// A character occurs exactly if it has a first position.
proof fn lemma_first_at_finds(s: Seq<char>, c: char)
    ensures
        0 <= first_at(s, c) <= s.len(),
        s.contains(c) <==> first_at(s, c) < s.len(),
    decreases s.len(),
{
    if s.len() > 0 && s[0] != c {
        let rest = s.drop_first();
        lemma_first_at_finds(rest, c);
        if s.contains(c) {
            let j = choose|j: int| 0 <= j < s.len() && s[j] == c;
            assert(rest[j - 1] == c);
        }
        if rest.contains(c) {
            let j = choose|j: int| 0 <= j < rest.len() && rest[j] == c;
            assert(s[j + 1] == c);
        }
    }
}

/// The lines of a device list that name a card.
pub open spec fn card_lines(list: Seq<char>) -> Seq<Seq<char>> {
    lines(list).filter(|line: Seq<char>| "hw:CARD="@.is_prefix_of(line))
}

/// The lines of a device list that name a card, in their order.
pub fn cards_in(list: &str) -> (cards: Vec<String>)
    ensures
        texts(cards@) == card_lines(list@),
{
    let all = split_lines(list);
    let mut cards: Vec<String> = Vec::new();
    let ghost names_card = |line: Seq<char>| "hw:CARD="@.is_prefix_of(line);
    reveal(Seq::filter);
    assert(texts(all@).take(0).filter(names_card) =~= seq![]);
    for i in 0..all.len()
        invariant
            names_card == (|line: Seq<char>| "hw:CARD="@.is_prefix_of(line)),
            texts(cards@) == texts(all@).take(i as int).filter(names_card),
    {
        reveal(Seq::filter);
        let line = &all[i];
        let ghost before = cards@;
        let ghost part = texts(all@).take(i + 1);
        assert(part.drop_last() =~= texts(all@).take(i as int));
        assert(part.last() == line@);
        if starts_with(line.as_str(), "hw:CARD=") {
            let card = line.clone();
            cards.push(card);
            assert(texts(cards@) =~= texts(before).push(line@));
        }
    }
    assert(texts(all@).take(all@.len() as int) =~= texts(all@));
    cards
}

/// The cards that `arecord -L` or `aplay -L` printed.
pub fn listed_cards(printed: &[u8]) -> (cards: Vec<String>)
    ensures
        texts(cards@) == card_lines(utf8_lossy(printed@)),
        vstd::utf8::valid_utf8(printed@) ==> texts(cards@) == card_lines(
            vstd::utf8::decode_utf8(printed@),
        ),
{
    let list = lossy_text(printed);
    cards_in(list.as_str())
}

/// The device that a line of a device list names.
pub fn device_of(line: &str) -> (device: String)
    ensures
        device@ == trimmed(line@),
{
    trim(line)
}

/// The arguments that make `arecord` or `aplay` print what a device can do.
pub open spec fn probe_command(command: Seq<char>, device: Seq<char>) -> Seq<Seq<char>> {
    seq![
        "--dump-hw-params"@,
        "-D"@,
        device,
        "-f"@,
        "S16_LE"@,
        "-r"@,
        "48000"@,
        "-c"@,
        "1"@,
        "-d"@,
        "1"@,
        if command == "aplay"@ {
            "/dev/zero"@
        } else {
            "/dev/null"@
        },
    ]
}

/// The arguments that make `arecord` or `aplay` print what a device can do.
pub fn probe_arguments(command: &str, device: &str) -> (arguments: Vec<String>)
    ensures
        texts(arguments@) == probe_command(command@, device@),
{
    let input = if same_text(command, "aplay") {
        "/dev/zero"
    } else {
        "/dev/null"
    };
    let arguments = vec![
        "--dump-hw-params".to_owned(),
        "-D".to_owned(),
        device.to_owned(),
        "-f".to_owned(),
        "S16_LE".to_owned(),
        "-r".to_owned(),
        "48000".to_owned(),
        "-c".to_owned(),
        "1".to_owned(),
        "-d".to_owned(),
        "1".to_owned(),
        input.to_owned(),
    ];
    assert(texts(arguments@) =~= probe_command(command@, device@));
    arguments
}

/// What follows the first `CHANNELS:` at the start of a line.
pub open spec fn channel_text(found: Seq<Seq<char>>) -> Option<Seq<char>>
    decreases found.len(),
{
    if found.len() == 0 {
        None
    } else if "CHANNELS:"@.is_prefix_of(found[0]) {
        Some(found[0].skip("CHANNELS:"@.len() as int))
    } else {
        channel_text(found.drop_first())
    }
}

/// How many channels the output of a probe grants: one where it can, else two.
pub open spec fn channels_of(text: Seq<char>) -> Option<u8> {
    match channel_text(lines(text)) {
        None => None,
        Some(channels) => if channels.contains('1') {
            Some(1)
        } else if channels.contains('2') {
            Some(2)
        } else {
            None
        },
    }
}

/// How many channels the output of a probe grants.
pub fn channels_in(text: &str) -> (channels: Option<u8>)
    ensures
        channels == channels_of(text@),
{
    let all = split_lines(text);
    let mut at: usize = 0;
    assert(texts(all@).skip(0) =~= texts(all@));
    while at < all.len()
        invariant
            at <= all@.len(),
            texts(all@) == lines(text@),
            channel_text(texts(all@).skip(at as int)) == channel_text(lines(text@)),
        decreases all@.len() - at,
    {
        assert(texts(all@).skip(at as int)[0] == all@[at as int]@);
        if let Some(channels) = strip_prefix(all[at].as_str(), "CHANNELS:") {
            return if contains_char(channels.as_str(), '1') {
                Some(1)
            } else if contains_char(channels.as_str(), '2') {
                Some(2)
            } else {
                None
            };
        }
        assert(texts(all@).skip(at as int).drop_first() =~= texts(all@).skip(at + 1));
        at = at + 1;
    }
    None
}

/// How many channels a probe grants that printed to both of its outputs.
pub fn alsa_channels(stdout: &[u8], stderr: &[u8]) -> (channels: Option<u8>)
    ensures
        channels == channels_of(utf8_lossy(stdout@) + utf8_lossy(stderr@)),
        vstd::utf8::valid_utf8(stdout@) && vstd::utf8::valid_utf8(stderr@) ==> channels
            == channels_of(vstd::utf8::decode_utf8(stdout@) + vstd::utf8::decode_utf8(stderr@)),
{
    let mut text = lossy_text(stdout);
    let rest = lossy_text(stderr);
    text.append(rest.as_str());
    channels_in(text.as_str())
}

/// A card with what its probe granted.
#[derive(Debug, PartialEq, Eq)]
pub struct ProbedCard {
    pub line: String,
    pub channels: Option<u8>,
}

/// The public name of a card.
pub open spec fn card_id(direction: Seq<char>, card: ProbedCard) -> Seq<char> {
    audio_id(direction, device_hash(direction, trimmed(card.line@)))
}

/// The one format that a card is offered with. A card whose probe failed is
/// offered in stereo: opening it settles whether it can be used.
pub open spec fn card_format(card: ProbedCard) -> AudioFormat {
    AudioFormat {
        codec: AudioCodec::PcmS16Le,
        channels: match card.channels {
            Some(channels) => channels,
            None => 2,
        },
        sample_rate_hz: SAMPLE_RATE_HZ,
    }
}

/// A card as a capture input.
pub open spec fn card_source(card: ProbedCard) -> AudioSourceView {
    AudioSourceView {
        id: card_id("capture"@, card),
        label: label_of("capture"@, card.line@),
        kind: AudioSourceKind::RadioInput,
        formats: seq![card_format(card)],
    }
}

/// A card as a playback output.
pub open spec fn card_output(card: ProbedCard) -> AudioOutputView {
    AudioOutputView {
        id: card_id("playback"@, card),
        label: label_of("playback"@, card.line@),
        formats: seq![card_format(card)],
    }
}

/// Which device stands behind each public name. Of cards that share a name the
/// last one counts.
pub open spec fn device_table(direction: Seq<char>, cards: Seq<ProbedCard>) -> Map<
    Seq<char>,
    Seq<char>,
>
    decreases cards.len(),
{
    if cards.len() == 0 {
        Map::empty()
    } else {
        device_table(direction, cards.drop_last()).insert(
            card_id(direction, cards.last()),
            trimmed(cards.last().line@),
        )
    }
}

/// The texts that a table holds.
pub open spec fn table_texts(table: Map<Seq<char>, String>) -> Map<Seq<char>, Seq<char>> {
    table.map_values(|device: String| device@)
}

/// The format of a card.
fn format_of(card: &ProbedCard) -> (format: AudioFormat)
    ensures
        format == card_format(*card),
{
    let channels: u8 = match card.channels {
        Some(channels) => channels,
        None => 2,
    };
    AudioFormat { codec: AudioCodec::PcmS16Le, channels, sample_rate_hz: SAMPLE_RATE_HZ }
}

/// The arguments for a raw stream to or from a device.
pub open spec fn stream_command(device: Seq<char>, channels: u8) -> Seq<Seq<char>> {
    seq![
        "-D"@,
        device,
        "-t"@,
        "raw"@,
        "-f"@,
        "S16_LE"@,
        "-r"@,
        "48000"@,
        "-c"@,
        decimal(channels as nat),
    ]
}

/// The arguments for a raw stream to or from a device.
pub fn stream_arguments(device: &str, channels: u8) -> (arguments: Vec<String>)
    ensures
        texts(arguments@) == stream_command(device@, channels),
{
    let count = decimal_text(channels as u64);
    let arguments = vec![
        "-D".to_owned(),
        device.to_owned(),
        "-t".to_owned(),
        "raw".to_owned(),
        "-f".to_owned(),
        "S16_LE".to_owned(),
        "-r".to_owned(),
        "48000".to_owned(),
        "-c".to_owned(),
        count,
    ];
    assert(texts(arguments@) =~= stream_command(device@, channels));
    arguments
}

/// The numbering with which the capture from a device begins.
pub open spec fn capture_stream(device: Seq<char>, channels: u8) -> CaptureStream {
    CaptureStream {
        stream_id: DefaultHasher::spec_finish(hash_writes(device)) as u32,
        channels,
        sequence: 0,
        timestamp_samples: 0,
    }
}

/// Everything that starting a capture takes.
#[derive(Debug)]
pub struct CapturePlan {
    pub device: String,
    pub arguments: Vec<String>,
    pub stream: CaptureStream,
}

/// Everything that starting a playback takes.
#[derive(Debug)]
pub struct PlaybackPlan {
    pub device: String,
    pub arguments: Vec<String>,
}

/// Why a device cannot be used.
#[derive(Debug, Clone, Copy, PartialEq, Eq, Structural)]
pub enum AlsaError {
    SourceOrFormat,
    Source,
    Output,
    OutputFormat,
}

impl AlsaError {
    /// The refusal in words.
    pub open spec fn text(self) -> Seq<char> {
        match self {
            AlsaError::SourceOrFormat => "ALSA audio source or format is unavailable"@,
            AlsaError::Source => "ALSA audio source is unavailable"@,
            AlsaError::Output => "ALSA audio output is unavailable"@,
            AlsaError::OutputFormat => "requested format is unavailable for ALSA audio output"@,
        }
    }

    /// The refusal in words.
    pub fn message(&self) -> (message: String)
        ensures
            message@ == self.text(),
    {
        match self {
            AlsaError::SourceOrFormat => "ALSA audio source or format is unavailable".to_owned(),
            AlsaError::Source => "ALSA audio source is unavailable".to_owned(),
            AlsaError::Output => "ALSA audio output is unavailable".to_owned(),
            AlsaError::OutputFormat =>
                "requested format is unavailable for ALSA audio output".to_owned(),
        }
    }
}

/// The device that a capture request leads to, or the reason for the refusal.
pub open spec fn capture_device(
    sources: Seq<AudioSourceView>,
    devices: Map<Seq<char>, Seq<char>>,
    source_id: Seq<char>,
    format: AudioFormat,
) -> Result<Seq<char>, AlsaError> {
    if !(exists|i: int|
        0 <= i < sources.len() && (#[trigger] sources[i]).id == source_id
            && sources[i].formats.contains(format)) {
        Err(AlsaError::SourceOrFormat)
    } else if !devices.contains_key(source_id) {
        Err(AlsaError::Source)
    } else {
        Ok(devices[source_id])
    }
}

/// The device that a playback request leads to, or the reason for the refusal.
pub open spec fn playback_device(
    outputs: Seq<AudioOutputView>,
    devices: Map<Seq<char>, Seq<char>>,
    output_id: Seq<char>,
    format: AudioFormat,
) -> Result<Seq<char>, AlsaError> {
    let place = place_of(output_ids(outputs), output_id);
    if place >= outputs.len() {
        Err(AlsaError::Output)
    } else if !outputs[place as int].formats.contains(format) {
        Err(AlsaError::OutputFormat)
    } else if !devices.contains_key(output_id) {
        Err(AlsaError::Output)
    } else {
        Ok(devices[output_id])
    }
}

/// The cards that can capture.
pub struct AlsaAudioSource {
    sources: Vec<AudioSourceInfo>,
    devices: StringHashMap<String>,
}

impl AudioSource for AlsaAudioSource {
    closed spec fn inputs(&self) -> Seq<AudioSourceView> {
        source_views(self.sources@)
    }

    fn sources(&self) -> (sources: Vec<AudioSourceInfo>) {
        let mut sources: Vec<AudioSourceInfo> = Vec::new();
        for i in 0..self.sources.len()
            invariant
                source_views(sources@) == source_views(self.sources@).take(i as int),
        {
            let ghost before = sources@;
            let copy = self.sources[i].copied();
            sources.push(copy);
            assert(source_views(sources@) =~= source_views(before).push(copy@));
        }
        assert(source_views(self.sources@).take(self.sources@.len() as int) =~= source_views(
            self.sources@,
        ));
        sources
    }
}

impl AlsaAudioSource {
    /// The device behind each public name.
    pub closed spec fn device_map(&self) -> Map<Seq<char>, Seq<char>> {
        table_texts(self.devices@)
    }

    /// Offers cards for capture.
    pub fn new(cards: &Vec<ProbedCard>) -> (source: AlsaAudioSource)
        ensures
            source.inputs() == cards@.map_values(|card: ProbedCard| card_source(card)),
            source.device_map() == device_table("capture"@, cards@),
    {
        let mut sources: Vec<AudioSourceInfo> = Vec::new();
        let mut devices: StringHashMap<String> = StringHashMap::new();
        assert(table_texts(devices@) =~= device_table("capture"@, cards@.take(0)));
        for i in 0..cards.len()
            invariant
                source_views(sources@) == cards@.take(i as int).map_values(
                    |card: ProbedCard| card_source(card),
                ),
                table_texts(devices@) == device_table("capture"@, cards@.take(i as int)),
        {
            let card = &cards[i];
            let device = device_of(card.line.as_str());
            let id = stable_audio_id("capture", device.as_str());
            let ghost before = sources@;
            let ghost table = devices@;
            let info = AudioSourceInfo {
                id: id.clone(),
                label: audio_label("capture", card.line.as_str()),
                kind: AudioSourceKind::RadioInput,
                formats: vec![format_of(card)],
            };
            devices.insert(id, device);
            sources.push(info);
            proof {
                let part = cards@.take(i + 1);
                assert(part.drop_last() =~= cards@.take(i as int));
                assert(info@ =~= card_source(*card));
                assert(source_views(sources@) =~= source_views(before).push(info@));
                assert(table_texts(devices@) =~= table_texts(table).insert(id@, device@));
            }
        }
        assert(cards@.take(cards@.len() as int) =~= cards@);
        AlsaAudioSource { sources, devices }
    }

    /// Settles how a capture is started.
    pub fn subscribe(&self, source_id: &str, format: &AudioFormat) -> (plan: Result<
        CapturePlan,
        AlsaError,
    >)
        ensures
            match plan {
                Ok(plan) => {
                    &&& capture_device(self.inputs(), self.device_map(), source_id@, *format)
                        == Ok::<Seq<char>, AlsaError>(plan.device@)
                    &&& texts(plan.arguments@) == stream_command(plan.device@, format.channels)
                    &&& plan.stream == capture_stream(plan.device@, format.channels)
                },
                Err(error) => capture_device(
                    self.inputs(),
                    self.device_map(),
                    source_id@,
                    *format,
                ) == Err::<Seq<char>, AlsaError>(error),
            },
    {
        let ghost inputs = self.inputs();
        let mut found = false;
        for i in 0..self.sources.len()
            invariant
                inputs == source_views(self.sources@),
                found <==> exists|j: int|
                    0 <= j < i && (#[trigger] inputs[j]).id == source_id@
                        && inputs[j].formats.contains(*format),
        {
            let source = &self.sources[i];
            assert(inputs[i as int] == source@);
            if same_text(source.id.as_str(), source_id) && has_format(&source.formats, format) {
                found = true;
            }
        }
        if !found {
            return Err(AlsaError::SourceOrFormat);
        }
        let device = match self.devices.get(source_id) {
            Some(device) => device.clone(),
            None => {
                return Err(AlsaError::Source);
            },
        };
        let arguments = stream_arguments(device.as_str(), format.channels);
        let stream = CaptureStream::new(stable_stream_id(device.as_str()), format.channels);
        Ok(CapturePlan { device, arguments, stream })
    }
}

/// The cards that can play back.
pub struct AlsaAudioOutput {
    outputs: Vec<AudioOutputInfo>,
    devices: StringHashMap<String>,
}

impl AudioOutputProvider for AlsaAudioOutput {
    closed spec fn playbacks(&self) -> Seq<AudioOutputView> {
        output_views(self.outputs@)
    }

    fn outputs(&self) -> (outputs: Vec<AudioOutputInfo>) {
        let mut outputs: Vec<AudioOutputInfo> = Vec::new();
        for i in 0..self.outputs.len()
            invariant
                output_views(outputs@) == output_views(self.outputs@).take(i as int),
        {
            let ghost before = outputs@;
            let copy = self.outputs[i].copied();
            outputs.push(copy);
            assert(output_views(outputs@) =~= output_views(before).push(copy@));
        }
        assert(output_views(self.outputs@).take(self.outputs@.len() as int) =~= output_views(
            self.outputs@,
        ));
        outputs
    }
}

impl AlsaAudioOutput {
    /// The device behind each public name.
    pub closed spec fn device_map(&self) -> Map<Seq<char>, Seq<char>> {
        table_texts(self.devices@)
    }

    /// Offers cards for playback.
    pub fn new(cards: &Vec<ProbedCard>) -> (output: AlsaAudioOutput)
        ensures
            output.playbacks() == cards@.map_values(|card: ProbedCard| card_output(card)),
            output.device_map() == device_table("playback"@, cards@),
    {
        let mut outputs: Vec<AudioOutputInfo> = Vec::new();
        let mut devices: StringHashMap<String> = StringHashMap::new();
        assert(table_texts(devices@) =~= device_table("playback"@, cards@.take(0)));
        for i in 0..cards.len()
            invariant
                output_views(outputs@) == cards@.take(i as int).map_values(
                    |card: ProbedCard| card_output(card),
                ),
                table_texts(devices@) == device_table("playback"@, cards@.take(i as int)),
        {
            let card = &cards[i];
            let device = device_of(card.line.as_str());
            let id = stable_audio_id("playback", device.as_str());
            let ghost before = outputs@;
            let ghost table = devices@;
            let info = AudioOutputInfo {
                id: id.clone(),
                label: audio_label("playback", card.line.as_str()),
                formats: vec![format_of(card)],
            };
            devices.insert(id, device);
            outputs.push(info);
            proof {
                let part = cards@.take(i + 1);
                assert(part.drop_last() =~= cards@.take(i as int));
                assert(info@ =~= card_output(*card));
                assert(output_views(outputs@) =~= output_views(before).push(info@));
                assert(table_texts(devices@) =~= table_texts(table).insert(id@, device@));
            }
        }
        assert(cards@.take(cards@.len() as int) =~= cards@);
        AlsaAudioOutput { outputs, devices }
    }

    /// Settles how a playback is started.
    pub fn open(&self, output_id: &str, format: &AudioFormat) -> (plan: Result<
        PlaybackPlan,
        AlsaError,
    >)
        ensures
            match plan {
                Ok(plan) => {
                    &&& playback_device(self.playbacks(), self.device_map(), output_id@, *format)
                        == Ok::<Seq<char>, AlsaError>(plan.device@)
                    &&& texts(plan.arguments@) == stream_command(plan.device@, format.channels)
                },
                Err(error) => playback_device(
                    self.playbacks(),
                    self.device_map(),
                    output_id@,
                    *format,
                ) == Err::<Seq<char>, AlsaError>(error),
            },
    {
        let place: usize = match find_output(&self.outputs, output_id) {
            Some(place) => place,
            None => {
                return Err(AlsaError::Output);
            },
        };
        if !has_format(&self.outputs[place].formats, format) {
            return Err(AlsaError::OutputFormat);
        }
        let device = match self.devices.get(output_id) {
            Some(device) => device.clone(),
            None => {
                return Err(AlsaError::Output);
            },
        };
        let arguments = stream_arguments(device.as_str(), format.channels);
        Ok(PlaybackPlan { device, arguments })
    }
}

/// Every card has a device behind its public name.
proof fn lemma_table_covers_cards(direction: Seq<char>, cards: Seq<ProbedCard>, place: int)
    requires
        0 <= place < cards.len(),
    ensures
        device_table(direction, cards).contains_key(card_id(direction, cards[place])),
    decreases cards.len(),
{
    if place < cards.len() - 1 {
        lemma_table_covers_cards(direction, cards.drop_last(), place);
    }
}

/// Whatever a table holds under a name is the device of a card of that name.
proof fn lemma_table_holds_cards(direction: Seq<char>, cards: Seq<ProbedCard>, id: Seq<char>)
    requires
        device_table(direction, cards).contains_key(id),
    ensures
        exists|i: int|
            0 <= i < cards.len() && card_id(direction, #[trigger] cards[i]) == id && device_table(
                direction,
                cards,
            )[id] == trimmed(cards[i].line@),
    decreases cards.len(),
{
    if cards.len() > 0 {
        let last = cards.len() - 1;
        if card_id(direction, cards[last]) != id {
            let rest = cards.drop_last();
            lemma_table_holds_cards(direction, rest, id);
            let i = choose|i: int|
                0 <= i < rest.len() && card_id(direction, #[trigger] rest[i]) == id && device_table(
                    direction,
                    rest,
                )[id] == trimmed(rest[i].line@);
            assert(cards[i] == rest[i]);
        }
    }
}

/// Every card is offered in both directions, whether or not its probe
/// succeeded.
pub proof fn law_cards_are_retained(cards: Seq<ProbedCard>)
    ensures
        cards.map_values(|card: ProbedCard| card_source(card)).len() == cards.len(),
        cards.map_values(|card: ProbedCard| card_output(card)).len() == cards.len(),
{
}

/// A client that selects a capture input by the name and format that it is
/// offered with is led to a card of that name.
pub proof fn law_offered_source_leads_to_its_card(cards: Seq<ProbedCard>, place: int)
    requires
        0 <= place < cards.len(),
    ensures
        capture_device(
            cards.map_values(|card: ProbedCard| card_source(card)),
            device_table("capture"@, cards),
            card_source(cards[place]).id,
            card_format(cards[place]),
        ) matches Ok(device) && exists|i: int|
            0 <= i < cards.len() && card_id("capture"@, #[trigger] cards[i]) == card_source(
                cards[place],
            ).id && device == trimmed(cards[i].line@),
{
    let sources = cards.map_values(|card: ProbedCard| card_source(card));
    lemma_table_covers_cards("capture"@, cards, place);
    lemma_table_holds_cards("capture"@, cards, card_id("capture"@, cards[place]));
    assert(sources[place] == card_source(cards[place]));
    assert(sources[place].formats[0] == card_format(cards[place]));
}

/// A client that selects a playback output by the name and format that the
/// first output of that name is offered with is led to a card of that name.
pub proof fn law_offered_output_leads_to_its_card(cards: Seq<ProbedCard>, place: int)
    requires
        0 <= place < cards.len(),
        forall|i: int|
            0 <= i < place ==> card_id("playback"@, #[trigger] cards[i]) != card_id(
                "playback"@,
                cards[place],
            ),
    ensures
        playback_device(
            cards.map_values(|card: ProbedCard| card_output(card)),
            device_table("playback"@, cards),
            card_output(cards[place]).id,
            card_format(cards[place]),
        ) matches Ok(device) && exists|i: int|
            0 <= i < cards.len() && card_id("playback"@, #[trigger] cards[i]) == card_output(
                cards[place],
            ).id && device == trimmed(cards[i].line@),
{
    let outputs = cards.map_values(|card: ProbedCard| card_output(card));
    let id = card_id("playback"@, cards[place]);
    lemma_table_covers_cards("playback"@, cards, place);
    lemma_table_holds_cards("playback"@, cards, id);
    assert(outputs[place] == card_output(cards[place]));
    assert(outputs[place].formats[0] == card_format(cards[place]));
    assert forall|j: int| 0 <= j < place implies output_ids(outputs)[j] != id by {
        assert(output_ids(outputs)[j] == card_id("playback"@, cards[j]));
    }
    crate::text::lemma_place_of(output_ids(outputs), id, place);
}

/// What a capture sends: the n-th frame carries the number n and the sample
/// position 960 n, names the device, and holds one whole block of what the
/// device recorded. The counters are those of 64 bits.
pub proof fn law_captured_frames(device: Seq<char>, channels: u8, recorded: Seq<u8>, n: int)
    requires
        ({
            let stream = capture_stream(device, channels);
            0 <= n < stream.cut(recorded).len()
        }),
    ensures
        ({
            let frame = capture_stream(device, channels).cut(recorded)[n];
            &&& frame.header.sequence == n % 0x1_0000_0000_0000_0000
            &&& frame.header.timestamp_samples == (960 * n) % 0x1_0000_0000_0000_0000
            &&& frame.header.stream_id == DefaultHasher::spec_finish(hash_writes(device)) as u32
            &&& frame.header.direction == MediaDirection::HostToClient
            &&& frame.header.codec == AudioCodec::PcmS16Le
            &&& frame.header.sample_rate_hz == 48_000
            &&& frame.header.channels == channels
            &&& frame.header.payload_bytes == 1920 * channels
            &&& frame.pcm.len() == 1920 * channels
        }),
{
    let stream = capture_stream(device, channels);
    law_cut_numbers_frames(stream, recorded, n);
    law_stream_numbering(stream, n as nat);
}

/// A capture input and a playback output never share a public name.
pub proof fn law_directions_never_share_a_name(hash: u64, other: u64)
    ensures
        audio_id("capture"@, hash) != audio_id("playback"@, other),
{
    reveal_strlit("alsa-");
    reveal_strlit("capture");
    reveal_strlit("playback");
    reveal_strlit("-");
    assert(audio_id("capture"@, hash)[5] == 'c');
    assert(audio_id("playback"@, other)[5] == 'p');
}

/// One more than the greatest number that `width` hexadecimal digits can show.
spec fn hex_bound(width: nat) -> nat
    decreases width,
{
    if width == 0 {
        1
    } else {
        16 * hex_bound((width - 1) as nat)
    }
}

/// Fixed-width hexadecimal digits tell numbers apart.
proof fn lemma_hex_tells_apart(a: nat, b: nat, width: nat)
    requires
        a < hex_bound(width),
        b < hex_bound(width),
        hex(a, width) == hex(b, width),
    ensures
        a == b,
    decreases width,
{
    if width > 0 {
        let high_a = hex(a / 16, (width - 1) as nat);
        let high_b = hex(b / 16, (width - 1) as nat);
        assert(hex(a, width).last() == digit((a % 16) as int));
        assert(hex(b, width).last() == digit((b % 16) as int));
        assert(hex(a, width).drop_last() =~= high_a);
        assert(hex(b, width).drop_last() =~= high_b);
        lemma_hex_tells_apart(a / 16, b / 16, (width - 1) as nat);
    }
}

/// Within one direction, different hashes give different public names.
pub proof fn law_names_tell_hashes_apart(direction: Seq<char>, hash: u64, other: u64)
    requires
        hash != other,
    ensures
        audio_id(direction, hash) != audio_id(direction, other),
{
    let head = "alsa-"@ + direction + "-"@;
    assert(audio_id(direction, hash).skip(head.len() as int) =~= hex(hash as nat, 16));
    assert(audio_id(direction, other).skip(head.len() as int) =~= hex(other as nat, 16));
    reveal_with_fuel(hex_bound, 17);
    if audio_id(direction, hash) == audio_id(direction, other) {
        lemma_hex_tells_apart(hash as nat, other as nat, 16);
    }
}

/// How the public name of a device is made: its direction and its hash in 16
/// hexadecimal digits. The hash is that of the direction and then the device,
/// and the number of its stream is the lower half of the hash of the device.
pub proof fn law_public_names(direction: Seq<char>, device: Seq<char>, hash: u64)
    ensures
        audio_id(direction, hash).len() == 5 + direction.len() + 1 + 16,
        audio_id(direction, hash).take(5) == "alsa-"@,
        audio_id(direction, hash).subrange(5, 5 + direction.len() as int) == direction,
        audio_id(direction, hash)[5 + direction.len() as int] == '-',
        shown(audio_id(direction, hash).skip(6 + direction.len() as int), 16) == hash,
        device_hash(direction, device) == DefaultHasher::spec_finish(
            hash_writes(direction) + hash_writes(device),
        ),
        capture_stream(device, 1).stream_id == DefaultHasher::spec_finish(
            hash_writes(device),
        ) as u32,
{
    reveal_strlit("alsa-");
    reveal_strlit("-");
    law_hex_shows_the_number(hash as nat, 16);
    reveal_with_fuel(sixteens, 17);
    let id = audio_id(direction, hash);
    assert(id.take(5) =~= "alsa-"@);
    assert(id.subrange(5, 5 + direction.len() as int) =~= direction);
    assert(id.skip(6 + direction.len() as int) =~= hex(hash as nat, 16));
}

/// What a device is called: by what stands between the prefix and the first
/// comma, whatever follows. A line without the prefix, or without a comma
/// behind it, names no card.
pub proof fn law_labels_name_the_card(
    direction: Seq<char>,
    card: Seq<char>,
    rest: Seq<char>,
    line: Seq<char>,
)
    requires
        !card.contains(','),
    ensures
        label_of(direction, "hw:CARD="@ + card + seq![','] + rest) == "ALSA "@ + direction + " "@
            + card,
        label_of(direction, "hw:CARD="@ + card) == "ALSA "@ + direction + " "@ + "device"@,
        !"hw:CARD="@.is_prefix_of(line) ==> label_of(direction, line) == "ALSA "@ + direction
            + " "@ + "device"@,
{
    let prefix = "hw:CARD="@;
    let full = prefix + card + seq![','] + rest;
    let tail = full.skip(prefix.len() as int);
    assert(prefix.is_prefix_of(full)) by {
        assert(full.take(prefix.len() as int) =~= prefix);
    }
    assert(tail =~= card + seq![','] + rest);
    assert(tail[card.len() as int] == ',');
    lemma_first_at_finds(tail, ',');
    law_first_position(tail, ',');
    assert forall|j: int| 0 <= j < card.len() implies tail[j] != ',' by {
        assert(tail[j] == card[j]);
        assert(card.contains(card[j]));
    }
    assert(first_at(tail, ',') == card.len());
    assert(tail.take(card.len() as int) =~= card);
    let bare = prefix + card;
    assert(bare.skip(prefix.len() as int) =~= card);
}

/// Which cards a list names: line by line, exactly the lines that begin with
/// the prefix, as they are, in their order.
pub proof fn law_listed_cards(line: Seq<char>, rest: Seq<char>)
    requires
        !line.contains('\n'),
    ensures
        ({
            let plain = if line.len() > 0 && line.last() == '\r' {
                line.drop_last()
            } else {
                line
            };
            card_lines(line.push('\n') + rest) == if "hw:CARD="@.is_prefix_of(plain) {
                seq![plain] + card_lines(rest)
            } else {
                card_lines(rest)
            }
        }),
        card_lines(line) == if "hw:CARD="@.is_prefix_of(line) {
            seq![line]
        } else {
            seq![]
        },
{
    reveal(Seq::filter);
    law_lines_end_at_line_feeds(line, rest);
    let names_card = |line: Seq<char>| "hw:CARD="@.is_prefix_of(line);
    let plain = if line.len() > 0 && line.last() == '\r' {
        line.drop_last()
    } else {
        line
    };
    let one = seq![plain];
    assert(one.drop_last() =~= seq![]);
    assert(one.drop_last().filter(names_card) =~= seq![]);
    assert(one.filter(names_card) =~= if names_card(plain) {
        one
    } else {
        seq![]
    });
    let last = seq![line];
    assert(last.drop_last() =~= seq![]);
    assert(last.drop_last().filter(names_card) =~= seq![]);
    assert(last.filter(names_card) =~= if names_card(line) {
        last
    } else {
        seq![]
    });
    reveal_strlit("hw:CARD=");
    assert(Seq::<Seq<char>>::empty().filter(names_card) =~= seq![]);
    Seq::filter_distributes_over_add(one, lines(rest), names_card);
    assert(seq![] + card_lines(rest) =~= card_lines(rest));
}

/// How many channels a probe grants, told by its first line that begins with
/// the heading: one if that line speaks of a 1 at all, else two if it speaks
/// of a 2, else none. Earlier lines do not matter, and neither do later ones.
pub proof fn law_probed_channels(line: Seq<char>, rest: Seq<char>)
    requires
        !line.contains('\n'),
    ensures
        ({
            let plain = if line.len() > 0 && line.last() == '\r' {
                line.drop_last()
            } else {
                line
            };
            let told = plain.skip("CHANNELS:"@.len() as int);
            channels_of(line.push('\n') + rest) == if !"CHANNELS:"@.is_prefix_of(plain) {
                channels_of(rest)
            } else if told.contains('1') {
                Some(1u8)
            } else if told.contains('2') {
                Some(2u8)
            } else {
                None
            }
        }),
        channels_of(line) == if !"CHANNELS:"@.is_prefix_of(line) {
            None
        } else if line.skip("CHANNELS:"@.len() as int).contains('1') {
            Some(1u8)
        } else if line.skip("CHANNELS:"@.len() as int).contains('2') {
            Some(2u8)
        } else {
            None
        },
{
    reveal_strlit("CHANNELS:");
    reveal_with_fuel(channel_text, 2);
    law_lines_end_at_line_feeds(line, rest);
    let found = lines(line.push('\n') + rest);
    assert(found.drop_first() =~= lines(rest));
    assert(seq![line].drop_first() =~= seq![]);
}

/// The call that probes a device: what it can do at 48 kHz in S16LE, from the
/// file that suits the command.
pub proof fn law_probe_call(command: Seq<char>, device: Seq<char>)
    ensures
        probe_command(command, device).take(11) == seq![
            "--dump-hw-params"@,
            "-D"@,
            device,
            "-f"@,
            "S16_LE"@,
            "-r"@,
            "48000"@,
            "-c"@,
            "1"@,
            "-d"@,
            "1"@,
        ],
        probe_command(command, device).len() == 12,
        command == "aplay"@ ==> probe_command(command, device)[11] == "/dev/zero"@,
        command != "aplay"@ ==> probe_command(command, device)[11] == "/dev/null"@,
{
}

/// The call that streams to or from a device: raw S16LE at 48 kHz with the
/// channels that were asked for.
pub proof fn law_stream_call(device: Seq<char>, channels: u8)
    ensures
        stream_command(device, channels).take(9) == seq![
            "-D"@,
            device,
            "-t"@,
            "raw"@,
            "-f"@,
            "S16_LE"@,
            "-r"@,
            "48000"@,
            "-c"@,
        ],
        stream_command(device, channels).len() == 10,
        shown(stream_command(device, channels)[9], 10) == channels,
        stream_command(device, channels)[9] == decimal(channels as nat),
        capture_stream(device, channels).channels == channels,
        capture_stream(device, channels).sequence == 0,
        capture_stream(device, channels).timestamp_samples == 0,
{
    law_decimal_shows_the_number(channels as nat);
}

/// How a card is offered: under the public name of its device, with the label
/// of its line, in one format of 48 kHz S16LE with the channels that the probe
/// granted, or in stereo if the probe granted none.
pub proof fn law_cards_are_offered_as_they_are(card: ProbedCard)
    ensures
        card_source(card).id == audio_id(
            "capture"@,
            device_hash("capture"@, trimmed(card.line@)),
        ),
        card_source(card).label == label_of("capture"@, card.line@),
        card_source(card).kind == AudioSourceKind::RadioInput,
        card_output(card).id == audio_id(
            "playback"@,
            device_hash("playback"@, trimmed(card.line@)),
        ),
        card_output(card).label == label_of("playback"@, card.line@),
        card_output(card).formats == card_source(card).formats,
        card_source(card).formats.len() == 1,
        ({
            let format = card_source(card).formats[0];
            &&& format.codec == AudioCodec::PcmS16Le
            &&& format.sample_rate_hz == 48_000
            &&& card.channels matches Some(channels) ==> format.channels == channels
            &&& card.channels is None ==> format.channels == 2
        }),
{
}

/// Which device a name leads to: that of the card that came last with it.
pub proof fn law_last_card_of_a_name_counts(
    direction: Seq<char>,
    cards: Seq<ProbedCard>,
    card: ProbedCard,
    name: Seq<char>,
)
    ensures
        ({
            let table = device_table(direction, cards.push(card));
            let own = audio_id(direction, device_hash(direction, trimmed(card.line@)));
            &&& table.contains_key(own)
            &&& table[own] == trimmed(card.line@)
            &&& name != own ==> (table.contains_key(name) <==> device_table(
                direction,
                cards,
            ).contains_key(name))
            &&& name != own && table.contains_key(name) ==> table[name] == device_table(
                direction,
                cards,
            )[name]
        }),
        device_table(direction, seq![]) == Map::<Seq<char>, Seq<char>>::empty(),
{
    assert(cards.push(card).drop_last() =~= cards);
}

/// What a table of strings holds is what its strings hold.
pub proof fn law_table_is_kept(table: Map<Seq<char>, String>, name: Seq<char>)
    ensures
        table_texts(table).contains_key(name) <==> table.contains_key(name),
        table.contains_key(name) ==> table_texts(table)[name] == table[name]@,
{
}

/// When a capture is granted: exactly if some source of that name offers that
/// format and a device stands behind the name; it leads to that device.
pub proof fn law_capture_is_granted_for_what_is_offered(
    sources: Seq<AudioSourceView>,
    devices: Map<Seq<char>, Seq<char>>,
    source_id: Seq<char>,
    format: AudioFormat,
)
    ensures
        ({
            let offered = exists|i: int|
                0 <= i < sources.len() && (#[trigger] sources[i]).id == source_id
                    && sources[i].formats.contains(format);
            let outcome = capture_device(sources, devices, source_id, format);
            &&& !offered ==> outcome == Err::<Seq<char>, AlsaError>(AlsaError::SourceOrFormat)
            &&& offered && !devices.contains_key(source_id) ==> outcome == Err::<
                Seq<char>,
                AlsaError,
            >(AlsaError::Source)
            &&& offered && devices.contains_key(source_id) ==> outcome == Ok::<
                Seq<char>,
                AlsaError,
            >(devices[source_id])
        }),
{
}

/// When a playback is granted: exactly if the first output of that name offers
/// that format and a device stands behind the name; it leads to that device.
pub proof fn law_playback_is_granted_for_what_is_offered(
    outputs: Seq<AudioOutputView>,
    devices: Map<Seq<char>, Seq<char>>,
    output_id: Seq<char>,
    format: AudioFormat,
    place: int,
)
    requires
        0 <= place <= outputs.len(),
        forall|j: int| 0 <= j < place ==> (#[trigger] outputs[j]).id != output_id,
        place < outputs.len() ==> outputs[place].id == output_id,
    ensures
        ({
            let outcome = playback_device(outputs, devices, output_id, format);
            if place == outputs.len() {
                outcome == Err::<Seq<char>, AlsaError>(AlsaError::Output)
            } else if !outputs[place].formats.contains(format) {
                outcome == Err::<Seq<char>, AlsaError>(AlsaError::OutputFormat)
            } else if !devices.contains_key(output_id) {
                outcome == Err::<Seq<char>, AlsaError>(AlsaError::Output)
            } else {
                outcome == Ok::<Seq<char>, AlsaError>(devices[output_id])
            }
        }),
{
    let ids = output_ids(outputs);
    assert forall|j: int| 0 <= j < place implies ids[j] != output_id by {
        assert(ids[j] == outputs[j].id);
    }
    crate::text::lemma_place_of(ids, output_id, place);
}

/// The words for each refusal.
pub proof fn law_alsa_refusals_in_words()
    ensures
        AlsaError::SourceOrFormat.text() == "ALSA audio source or format is unavailable"@,
        AlsaError::Source.text() == "ALSA audio source is unavailable"@,
        AlsaError::Output.text() == "ALSA audio output is unavailable"@,
        AlsaError::OutputFormat.text() == "requested format is unavailable for ALSA audio output"@,
{
}

/// Stream numbers and public names come from the hashes alone.
pub proof fn law_stable_names(
    direction: &str,
    device: &str,
    stream: u32,
    id: String,
)
    requires
        call_ensures(stable_stream_id, (device,), stream),
        call_ensures(stable_audio_id, (direction, device), id),
    ensures
        stream == DefaultHasher::spec_finish(hash_writes(device@)) as u32,
        id@ == audio_id(
            direction@,
            DefaultHasher::spec_finish(hash_writes(direction@) + hash_writes(device@)),
        ),
{
}

} // verus!
