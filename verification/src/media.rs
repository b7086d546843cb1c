//! Binary media frames: a 32-byte little-endian header followed by PCM.

use crate::text::{decimal, decimal_text};
use vstd::prelude::*;

verus! {

/// The header version that both directions use.
pub const MEDIA_HEADER_VERSION: u8 = 1;

/// The most PCM that one frame may carry.
pub const MAX_MEDIA_PAYLOAD_BYTES: usize = 1_048_576;

/// The longest binary message that is accepted.
pub const MAX_MEDIA_FRAME_BYTES: usize = 1_048_608;

#[derive(Debug, Clone, Copy, PartialEq, Eq, Structural)]
pub enum MediaDirection {
    HostToClient,
    ClientToHost,
}

#[derive(Debug, Clone, Copy, PartialEq, Eq, Structural)]
pub enum AudioCodec {
    PcmS16Le,
}

#[derive(Debug, Clone, Copy, PartialEq, Eq, Structural)]
pub struct MediaFrameHeader {
    pub version: u8,
    pub stream_id: u32,
    pub direction: MediaDirection,
    pub codec: AudioCodec,
    pub sequence: u64,
    pub timestamp_samples: u64,
    pub sample_rate_hz: u32,
    pub channels: u8,
    pub payload_bytes: u32,
}

/// One block of PCM with its header.
#[derive(Debug, Clone, PartialEq, Eq)]
pub struct AudioFrame {
    pub header: MediaFrameHeader,
    pub pcm_s16le: Vec<u8>,
}

/// What a frame holds.
#[verifier::ext_equal]
pub struct AudioFrameView {
    pub header: MediaFrameHeader,
    pub pcm: Seq<u8>,
}

impl View for AudioFrame {
    type V = AudioFrameView;

    open spec fn view(&self) -> AudioFrameView {
        AudioFrameView { header: self.header, pcm: self.pcm_s16le@ }
    }
}

/// What frames hold.
pub open spec fn frame_views(frames: Seq<AudioFrame>) -> Seq<AudioFrameView> {
    frames.map_values(|frame: AudioFrame| frame@)
}

/// The lowest `width` bytes of a number, lowest first.
pub open spec fn le_bytes(value: nat, width: nat) -> Seq<u8>
    decreases width,
{
    if width == 0 {
        seq![]
    } else {
        seq![(value % 256) as u8] + le_bytes(value / 256, (width - 1) as nat)
    }
}

/// The number that bytes stand for, lowest byte first.
pub open spec fn le_value(bytes: Seq<u8>) -> nat
    decreases bytes.len(),
{
    if bytes.len() == 0 {
        0
    } else {
        bytes[0] as nat + 256 * le_value(bytes.drop_first())
    }
}

/// One more than the greatest number that `width` bytes can stand for.
pub open spec fn le_bound(width: nat) -> nat
    decreases width,
{
    if width == 0 {
        1
    } else {
        256 * le_bound((width - 1) as nat)
    }
}

pub proof fn lemma_le_bytes(value: nat, width: nat)
    ensures
        le_bytes(value, width).len() == width,
        value < le_bound(width) ==> le_value(le_bytes(value, width)) == value,
    decreases width,
{
    if width > 0 {
        lemma_le_bytes(value / 256, (width - 1) as nat);
        assert(le_bytes(value, width).drop_first() == le_bytes(value / 256, (width - 1) as nat));
    }
}

pub proof fn lemma_le_value(bytes: Seq<u8>)
    ensures
        le_value(bytes) < le_bound(bytes.len()),
        le_bytes(le_value(bytes), bytes.len()) == bytes,
    decreases bytes.len(),
{
    if bytes.len() > 0 {
        let rest = bytes.drop_first();
        lemma_le_value(rest);
        assert(le_value(bytes) / 256 == le_value(rest));
        assert(le_value(bytes) % 256 == bytes[0] as nat);
        assert(le_bytes(le_value(bytes), bytes.len()) =~= seq![bytes[0]] + rest);
        assert(seq![bytes[0]] + rest =~= bytes);
    }
}

pub proof fn lemma_le_bounds()
    ensures
        le_bound(1) == 0x100,
        le_bound(4) == 0x1_0000_0000,
        le_bound(8) == 0x1_0000_0000_0000_0000,
{
    reveal_with_fuel(le_bound, 9);
}

/// Appends the lowest `width` bytes of a number, lowest first.
fn push_le(out: &mut Vec<u8>, value: u64, width: usize)
    ensures
        final(out)@ == old(out)@ + le_bytes(value as nat, width as nat),
{
    let mut rest: u64 = value;
    let mut left: usize = width;
    let ghost start = out@;
    while left > 0
        invariant
            left <= width,
            out@ + le_bytes(rest as nat, left as nat) == start + le_bytes(
                value as nat,
                width as nat,
            ),
        decreases left,
    {
        let low: u8 = (rest % 256) as u8;
        let ghost before = out@;
        out.push(low);
        assert(le_bytes(rest as nat, left as nat) == seq![low] + le_bytes(
            (rest / 256) as nat,
            (left - 1) as nat,
        ));
        assert(before.push(low) + le_bytes((rest / 256) as nat, (left - 1) as nat) =~= before
            + le_bytes(rest as nat, left as nat));
        rest = rest / 256;
        left = left - 1;
    }
    assert(out@ + le_bytes(rest as nat, 0) =~= out@);
}

/// The number that `bytes[at..at + width]` stands for, lowest byte first.
fn read_le(bytes: &[u8], at: usize, width: usize) -> (value: u64)
    requires
        width <= 8,
        at + width <= bytes.len(),
    ensures
        value as nat == le_value(bytes@.subrange(at as int, at + width)),
    decreases width,
{
    if width == 0 {
        0
    } else {
        let high: u64 = read_le(bytes, at + 1, width - 1);
        let low: u64 = bytes[at] as u64;
        proof {
            let part = bytes@.subrange(at as int, at + width);
            lemma_le_value(part.drop_first());
            assert(part.drop_first() == bytes@.subrange(at + 1, at + width));
            lemma_le_narrow((width - 1) as nat);
        }
        low + 256 * high
    }
}

proof fn lemma_le_narrow(width: nat)
    requires
        width <= 7,
    ensures
        le_bound(width) <= 0x100_0000_0000_0000,
{
    reveal_with_fuel(le_bound, 9);
}

/// The byte that stands for a direction.
pub open spec fn direction_byte(direction: MediaDirection) -> u8 {
    match direction {
        MediaDirection::HostToClient => 0,
        MediaDirection::ClientToHost => 1,
    }
}

/// The direction that a byte stands for.
pub open spec fn direction_of(byte: u8) -> Option<MediaDirection> {
    if byte == 0 {
        Some(MediaDirection::HostToClient)
    } else if byte == 1 {
        Some(MediaDirection::ClientToHost)
    } else {
        None
    }
}

/// The byte that stands for a codec.
pub open spec fn codec_byte(codec: AudioCodec) -> u8 {
    match codec {
        AudioCodec::PcmS16Le => 0,
    }
}

/// The codec that a byte stands for.
pub open spec fn codec_of(byte: u8) -> Option<AudioCodec> {
    if byte == 0 {
        Some(AudioCodec::PcmS16Le)
    } else {
        None
    }
}

impl MediaFrameHeader {
    /// The length of an encoded header.
    pub const BYTES: usize = 32;

    /// The encoded header: version, stream, direction, codec, sequence,
    /// timestamp, sample rate, channels and payload length, without padding.
    pub open spec fn encoded(self) -> Seq<u8> {
        seq![self.version] + le_bytes(self.stream_id as nat, 4) + seq![
            direction_byte(self.direction),
            codec_byte(self.codec),
        ] + le_bytes(self.sequence as nat, 8) + le_bytes(self.timestamp_samples as nat, 8)
            + le_bytes(self.sample_rate_hz as nat, 4) + seq![self.channels] + le_bytes(
            self.payload_bytes as nat,
            4,
        )
    }

    /// The header at the start of a message, if there is one.
    pub open spec fn decoded(bytes: Seq<u8>) -> Option<MediaFrameHeader> {
        if bytes.len() < 32 || direction_of(bytes[5]) is None || codec_of(bytes[6]) is None {
            None
        } else {
            Some(
                MediaFrameHeader {
                    version: bytes[0],
                    stream_id: le_value(bytes.subrange(1, 5)) as u32,
                    direction: direction_of(bytes[5])->0,
                    codec: codec_of(bytes[6])->0,
                    sequence: le_value(bytes.subrange(7, 15)) as u64,
                    timestamp_samples: le_value(bytes.subrange(15, 23)) as u64,
                    sample_rate_hz: le_value(bytes.subrange(23, 27)) as u32,
                    channels: bytes[27],
                    payload_bytes: le_value(bytes.subrange(28, 32)) as u32,
                },
            )
        }
    }

    /// Appends the encoded header.
    pub fn encode(&self, out: &mut Vec<u8>)
        ensures
            final(out)@ == old(out)@ + self.encoded(),
    {
        let ghost start = out@;
        out.push(self.version);
        push_le(out, self.stream_id as u64, 4);
        out.push(
            match self.direction {
                MediaDirection::HostToClient => 0,
                MediaDirection::ClientToHost => 1,
            },
        );
        out.push(
            match self.codec {
                AudioCodec::PcmS16Le => 0,
            },
        );
        push_le(out, self.sequence, 8);
        push_le(out, self.timestamp_samples, 8);
        push_le(out, self.sample_rate_hz as u64, 4);
        out.push(self.channels);
        push_le(out, self.payload_bytes as u64, 4);
        assert(out@ =~= start + self.encoded());
    }

    /// Reads the header at the start of a message. There is none if the
    /// message is too short or names an unknown direction or codec.
    pub fn decode(bytes: &[u8]) -> (header: Option<MediaFrameHeader>)
        ensures
            header == Self::decoded(bytes@),
    {
        if bytes.len() < Self::BYTES {
            return None;
        }
        let direction = match bytes[5] {
            0 => MediaDirection::HostToClient,
            1 => MediaDirection::ClientToHost,
            _ => {
                return None;
            },
        };
        let codec = match bytes[6] {
            0 => AudioCodec::PcmS16Le,
            _ => {
                return None;
            },
        };
        Some(
            MediaFrameHeader {
                version: bytes[0],
                stream_id: read_le(bytes, 1, 4) as u32,
                direction,
                codec,
                sequence: read_le(bytes, 7, 8),
                timestamp_samples: read_le(bytes, 15, 8),
                sample_rate_hz: read_le(bytes, 23, 4) as u32,
                channels: bytes[27],
                payload_bytes: read_le(bytes, 28, 4) as u32,
            },
        )
    }
}

/// Every encoded header is 32 bytes long.
pub proof fn law_header_length(header: MediaFrameHeader)
    ensures
        header.encoded().len() == 32,
{
    lemma_le_bytes(header.stream_id as nat, 4);
    lemma_le_bytes(header.sequence as nat, 8);
    lemma_le_bytes(header.timestamp_samples as nat, 8);
    lemma_le_bytes(header.sample_rate_hz as nat, 4);
    lemma_le_bytes(header.payload_bytes as nat, 4);
}

/// Reading back a written header gives the header, whatever payload follows.
pub proof fn law_header_reads_back(header: MediaFrameHeader, payload: Seq<u8>)
    ensures
        MediaFrameHeader::decoded(header.encoded() + payload) == Some(header),
{
    law_header_length(header);
    lemma_le_bytes(header.stream_id as nat, 4);
    lemma_le_bytes(header.sequence as nat, 8);
    lemma_le_bytes(header.timestamp_samples as nat, 8);
    lemma_le_bytes(header.sample_rate_hz as nat, 4);
    lemma_le_bytes(header.payload_bytes as nat, 4);
    lemma_le_bounds();
    let bytes = header.encoded() + payload;
    assert(bytes.subrange(1, 5) =~= le_bytes(header.stream_id as nat, 4));
    assert(bytes.subrange(7, 15) =~= le_bytes(header.sequence as nat, 8));
    assert(bytes.subrange(15, 23) =~= le_bytes(header.timestamp_samples as nat, 8));
    assert(bytes.subrange(23, 27) =~= le_bytes(header.sample_rate_hz as nat, 4));
    assert(bytes.subrange(28, 32) =~= le_bytes(header.payload_bytes as nat, 4));
}

/// Writing a header that was read gives back the bytes it was read from.
pub proof fn law_header_writes_back(bytes: Seq<u8>)
    ensures
        match MediaFrameHeader::decoded(bytes) {
            Some(header) => header.encoded() == bytes.take(32),
            None => true,
        },
{
    if let Some(header) = MediaFrameHeader::decoded(bytes) {
        law_header_length(header);
        lemma_le_value(bytes.subrange(1, 5));
        lemma_le_value(bytes.subrange(7, 15));
        lemma_le_value(bytes.subrange(15, 23));
        lemma_le_value(bytes.subrange(23, 27));
        lemma_le_value(bytes.subrange(28, 32));
        lemma_le_bounds();
        assert(header.encoded() =~= seq![bytes[0]] + bytes.subrange(1, 5) + seq![
            bytes[5],
            bytes[6],
        ] + bytes.subrange(7, 15) + bytes.subrange(15, 23) + bytes.subrange(23, 27) + seq![
            bytes[27],
        ] + bytes.subrange(28, 32));
        assert(header.encoded() =~= bytes.take(32));
    }
}

/// Why a binary message from a client is refused.
#[derive(Debug, Clone, Copy, PartialEq, Eq, Structural)]
pub enum MediaError {
    TooShort,
    InvalidHeader,
    UnsupportedVersion(u8),
    WrongDirection,
    LengthMismatch,
    TooLong,
    NoOutput,
}

impl MediaError {
    /// The refusal in words.
    pub open spec fn text(self) -> Seq<char> {
        match self {
            MediaError::TooShort => "media frame is shorter than its header"@,
            MediaError::InvalidHeader => "invalid media frame header"@,
            MediaError::UnsupportedVersion(version) => "unsupported media header version "@
                + decimal(version as nat),
            MediaError::WrongDirection => "client media frame has the wrong direction"@,
            MediaError::LengthMismatch => "media payload length does not match its frame"@,
            MediaError::TooLong => "media frame exceeds the HostBridge limit"@,
            MediaError::NoOutput => "select an audio output first"@,
        }
    }

    /// The refusal in words.
    pub fn message(&self) -> (message: String)
        ensures
            message@ == self.text(),
    {
        match self {
            MediaError::TooShort => "media frame is shorter than its header".to_owned(),
            MediaError::InvalidHeader => "invalid media frame header".to_owned(),
            MediaError::UnsupportedVersion(version) => {
                let mut message = "unsupported media header version ".to_owned();
                let number = decimal_text(*version as u64);
                message.append(number.as_str());
                message
            },
            MediaError::WrongDirection => "client media frame has the wrong direction".to_owned(),
            MediaError::LengthMismatch => "media payload length does not match its frame".to_owned(),
            MediaError::TooLong => "media frame exceeds the HostBridge limit".to_owned(),
            MediaError::NoOutput => "select an audio output first".to_owned(),
        }
    }
}

/// What becomes of a binary message from a client: the first fault found, or
/// the frame that goes to the selected output.
pub open spec fn received(bytes: Seq<u8>, output_selected: bool) -> Result<
    AudioFrameView,
    MediaError,
> {
    if bytes.len() < MediaFrameHeader::BYTES {
        Err(MediaError::TooShort)
    } else {
        match MediaFrameHeader::decoded(bytes) {
            None => Err(MediaError::InvalidHeader),
            Some(header) => if header.version != MEDIA_HEADER_VERSION {
                Err(MediaError::UnsupportedVersion(header.version))
            } else if header.direction != MediaDirection::ClientToHost {
                Err(MediaError::WrongDirection)
            } else if header.payload_bytes != bytes.len() - MediaFrameHeader::BYTES {
                Err(MediaError::LengthMismatch)
            } else if bytes.len() > MAX_MEDIA_FRAME_BYTES {
                Err(MediaError::TooLong)
            } else if !output_selected {
                Err(MediaError::NoOutput)
            } else {
                Ok(AudioFrameView { header, pcm: bytes.skip(MediaFrameHeader::BYTES as int) })
            },
        }
    }
}

/// Checks a binary message from a client and takes it apart.
pub fn dispatch_binary(bytes: &[u8], output_selected: bool) -> (outcome: Result<
    AudioFrame,
    MediaError,
>)
    ensures
        match outcome {
            Ok(frame) => received(bytes@, output_selected) == Ok::<AudioFrameView, MediaError>(
                frame@,
            ),
            Err(error) => received(bytes@, output_selected) == Err::<AudioFrameView, MediaError>(
                error,
            ),
        },
{
    if bytes.len() < MediaFrameHeader::BYTES {
        return Err(MediaError::TooShort);
    }
    let header = match MediaFrameHeader::decode(bytes) {
        Some(header) => header,
        None => {
            return Err(MediaError::InvalidHeader);
        },
    };
    if header.version != MEDIA_HEADER_VERSION {
        return Err(MediaError::UnsupportedVersion(header.version));
    }
    if header.direction != MediaDirection::ClientToHost {
        return Err(MediaError::WrongDirection);
    }
    if header.payload_bytes as usize != bytes.len() - MediaFrameHeader::BYTES {
        return Err(MediaError::LengthMismatch);
    }
    if bytes.len() > MAX_MEDIA_FRAME_BYTES {
        return Err(MediaError::TooLong);
    }
    if !output_selected {
        return Err(MediaError::NoOutput);
    }
    let pcm = vstd::slice::slice_subrange(bytes, MediaFrameHeader::BYTES, bytes.len());
    assert(pcm@ == bytes@.skip(MediaFrameHeader::BYTES as int));
    Ok(AudioFrame { header, pcm_s16le: vstd::slice::slice_to_vec(pcm) })
}

/// The header that a captured frame is sent under.
pub open spec fn outgoing_header(frame: AudioFrameView) -> MediaFrameHeader {
    MediaFrameHeader {
        version: MEDIA_HEADER_VERSION,
        direction: MediaDirection::HostToClient,
        payload_bytes: frame.pcm.len() as u32,
        ..frame.header
    }
}

/// The binary message for a captured frame, unless the frame is too large.
pub open spec fn packaged(frame: AudioFrameView) -> Option<Seq<u8>> {
    if frame.pcm.len() > MAX_MEDIA_PAYLOAD_BYTES {
        None
    } else {
        Some(outgoing_header(frame).encoded() + frame.pcm)
    }
}

/// Builds the binary message for a captured frame, unless the frame is too
/// large.
pub fn package_frame(frame: &AudioFrame) -> (message: Option<Vec<u8>>)
    ensures
        match message {
            Some(message) => packaged(frame@) == Some(message@),
            None => packaged(frame@) is None,
        },
{
    let length: usize = frame.pcm_s16le.len();
    if length > MAX_MEDIA_PAYLOAD_BYTES {
        return None;
    }
    let mut header = frame.header;
    header.version = MEDIA_HEADER_VERSION;
    header.direction = MediaDirection::HostToClient;
    header.payload_bytes = length as u32;
    let mut message: Vec<u8> = Vec::with_capacity(MediaFrameHeader::BYTES + length);
    header.encode(&mut message);
    let mut pcm = vstd::slice::slice_to_vec(frame.pcm_s16le.as_slice());
    message.append(&mut pcm);
    assert(message@ =~= outgoing_header(frame@).encoded() + frame.pcm_s16le@);
    Some(message)
}

/// The rate at which every ALSA stream runs.
pub const SAMPLE_RATE_HZ: u32 = 48_000;

/// Numbers the blocks of one capture. A block holds 960 samples per channel,
/// which is 20 ms.
#[derive(Debug)]
pub struct CaptureStream {
    pub stream_id: u32,
    pub channels: u8,
    pub sequence: u64,
    pub timestamp_samples: u64,
}

impl CaptureStream {
    /// A capture whose first block carries the number zero.
    pub fn new(stream_id: u32, channels: u8) -> (stream: CaptureStream)
        ensures
            stream.stream_id == stream_id,
            stream.channels == channels,
            stream.sequence == 0,
            stream.timestamp_samples == 0,
    {
        CaptureStream { stream_id, channels, sequence: 0, timestamp_samples: 0 }
    }

    /// The length of one block: 16-bit samples for every channel.
    pub fn block_bytes(&self) -> (length: usize)
        ensures
            length == 1920 * self.channels,
    {
        let bytes_per_frame: usize = self.channels as usize * 2;
        960 * bytes_per_frame
    }

    /// The header of the next block.
    pub open spec fn next_header(self, length: nat) -> MediaFrameHeader {
        MediaFrameHeader {
            version: MEDIA_HEADER_VERSION,
            stream_id: self.stream_id,
            direction: MediaDirection::HostToClient,
            codec: AudioCodec::PcmS16Le,
            sequence: self.sequence,
            timestamp_samples: self.timestamp_samples,
            sample_rate_hz: SAMPLE_RATE_HZ,
            channels: self.channels,
            payload_bytes: length as u32,
        }
    }

    /// The stream once its next block has been numbered.
    pub open spec fn advanced(self) -> CaptureStream {
        CaptureStream {
            stream_id: self.stream_id,
            channels: self.channels,
            sequence: self.sequence.wrapping_add(1),
            timestamp_samples: self.timestamp_samples.wrapping_add(960),
        }
    }

    /// The stream once `n` blocks have been numbered.
    pub open spec fn after(self, n: nat) -> CaptureStream
        decreases n,
    {
        if n == 0 {
            self
        } else {
            self.after((n - 1) as nat).advanced()
        }
    }

    /// The length of one block.
    pub open spec fn block(self) -> nat {
        1920 * self.channels as nat
    }

    /// The frames that recorded bytes make up: one for each whole block, in
    /// order. Without channels there are no blocks.
    pub open spec fn cut(self, recorded: Seq<u8>) -> Seq<AudioFrameView>
        decreases recorded.len(),
    {
        if self.block() == 0 || recorded.len() < self.block() {
            seq![]
        } else {
            let frame = AudioFrameView {
                header: self.next_header(self.block()),
                pcm: recorded.take(self.block() as int),
            };
            seq![frame] + self.advanced().cut(recorded.skip(self.block() as int))
        }
    }

    /// The recorded bytes that do not make up a whole block yet.
    pub open spec fn uncut(self, recorded: Seq<u8>) -> Seq<u8>
        decreases recorded.len(),
    {
        if self.block() == 0 || recorded.len() < self.block() {
            recorded
        } else {
            self.uncut(recorded.skip(self.block() as int))
        }
    }

    /// Takes the whole blocks from the front of what was recorded and numbers
    /// them. What does not make up a block yet stays.
    pub fn take_frames(&mut self, recorded: &mut Vec<u8>) -> (frames: Vec<AudioFrame>)
        ensures
            frame_views(frames@) == old(self).cut(old(recorded)@),
            final(recorded)@ == old(self).uncut(old(recorded)@),
            *final(self) == old(self).after(frames@.len()),
    {
        let ghost (start, all) = (*self, recorded@);
        let block: usize = self.block_bytes();
        let mut frames: Vec<AudioFrame> = Vec::new();
        assert(frame_views(frames@) =~= seq![]);
        if block == 0 {
            return frames;
        }
        let mut at: usize = 0;
        assert(all.skip(0) =~= all);
        assert(frame_views(frames@) + self.cut(all.skip(0)) =~= start.cut(all));
        while recorded.len() - at >= block
            invariant
                recorded@ == all,
                at <= all.len(),
                block > 0,
                block == start.block(),
                self.channels == start.channels,
                *self == start.after(frames@.len()),
                frame_views(frames@) + self.cut(all.skip(at as int)) == start.cut(all),
                start.uncut(all.skip(at as int)) == start.uncut(all),
            decreases all.len() - at,
        {
            let ghost (before, stream) = (frames@, *self);
            let part = vstd::slice::slice_subrange(recorded.as_slice(), at, at + block);
            let frame = self.next_frame(vstd::slice::slice_to_vec(part));
            assert(part@ =~= all.skip(at as int).take(block as int));
            assert(all.skip(at as int).skip(block as int) =~= all.skip(at + block));
            frames.push(frame);
            assert(frame_views(frames@) =~= frame_views(before).push(frame@));
            assert(frame_views(frames@) + self.cut(all.skip(at + block)) =~= frame_views(before)
                + stream.cut(all.skip(at as int)));
            at = at + block;
        }
        assert(frame_views(frames@) =~= start.cut(all));
        let rest = vstd::slice::slice_subrange(recorded.as_slice(), at, recorded.len());
        assert(rest@ =~= all.skip(at as int));
        *recorded = vstd::slice::slice_to_vec(rest);
        frames
    }

    /// Numbers one block and moves on to the next.
    pub fn next_frame(&mut self, pcm: Vec<u8>) -> (frame: AudioFrame)
        ensures
            frame.header == old(self).next_header(pcm@.len()),
            frame.pcm_s16le@ == pcm@,
            *final(self) == old(self).advanced(),
    {
        let header = MediaFrameHeader {
            version: MEDIA_HEADER_VERSION,
            stream_id: self.stream_id,
            direction: MediaDirection::HostToClient,
            codec: AudioCodec::PcmS16Le,
            sequence: self.sequence,
            timestamp_samples: self.timestamp_samples,
            sample_rate_hz: SAMPLE_RATE_HZ,
            channels: self.channels,
            payload_bytes: pcm.len() as u32,
        };
        self.sequence = self.sequence.wrapping_add(1);
        self.timestamp_samples = self.timestamp_samples.wrapping_add(960);
        AudioFrame { header, pcm_s16le: pcm }
    }
}

/// A client that reads a message built for a captured frame finds the frame's
/// numbering, its own direction, and exactly the captured PCM.
pub proof fn law_packaged_frame_reads_back(frame: AudioFrameView)
    requires
        frame.pcm.len() <= MAX_MEDIA_PAYLOAD_BYTES,
    ensures
        packaged(frame) matches Some(message) && {
            &&& MediaFrameHeader::decoded(message) == Some(outgoing_header(frame))
            &&& message.skip(MediaFrameHeader::BYTES as int) == frame.pcm
            &&& outgoing_header(frame).payload_bytes == message.len() - MediaFrameHeader::BYTES
        },
{
    let header = outgoing_header(frame);
    law_header_length(header);
    law_header_reads_back(header, frame.pcm);
    assert((header.encoded() + frame.pcm).skip(32) =~= frame.pcm);
}

/// What a client writes with a current header, the client's direction and the
/// true length reaches the selected output unchanged, up to the size limit.
pub proof fn law_client_frame_is_delivered(header: MediaFrameHeader, pcm: Seq<u8>)
    requires
        header.version == MEDIA_HEADER_VERSION,
        header.direction == MediaDirection::ClientToHost,
        header.payload_bytes == pcm.len(),
        pcm.len() <= MAX_MEDIA_PAYLOAD_BYTES,
    ensures
        received(header.encoded() + pcm, true) == Ok::<AudioFrameView, MediaError>(
            AudioFrameView { header, pcm },
        ),
{
    law_header_length(header);
    law_header_reads_back(header, pcm);
    assert((header.encoded() + pcm).skip(32) =~= pcm);
}

/// Frames are bounded in both directions: no message is built, and no frame
/// is delivered, beyond the payload limit.
pub proof fn law_frames_are_bounded(frame: AudioFrameView, bytes: Seq<u8>, output_selected: bool)
    ensures
        packaged(frame) matches Some(message) ==> message.len() <= MAX_MEDIA_FRAME_BYTES,
        received(bytes, output_selected) matches Ok(delivered) ==> delivered.pcm.len()
            <= MAX_MEDIA_PAYLOAD_BYTES,
{
    law_header_length(outgoing_header(frame));
}

/// A host never takes its own frames for a client's.
pub proof fn law_host_frame_is_not_a_client_frame(frame: AudioFrameView, output_selected: bool)
    requires
        frame.pcm.len() <= MAX_MEDIA_PAYLOAD_BYTES,
    ensures
        received(packaged(frame)->0, output_selected) == Err::<AudioFrameView, MediaError>(
            MediaError::WrongDirection,
        ),
{
    law_packaged_frame_reads_back(frame);
}

/// Within one capture the sequence number rises by one and the sample
/// position by one block from each frame to the next, and the stream stays
/// the same, until the 64-bit counters wrap.
pub proof fn law_capture_numbering(stream: CaptureStream, length: nat, next_length: nat)
    requires
        stream.sequence < u64::MAX,
        stream.timestamp_samples <= u64::MAX - 960,
    ensures
        stream.advanced().next_header(next_length).sequence == stream.next_header(length).sequence
            + 1,
        stream.advanced().next_header(next_length).timestamp_samples == stream.next_header(
            length,
        ).timestamp_samples + 960,
        stream.advanced().next_header(next_length).stream_id == stream.next_header(
            length,
        ).stream_id,
{
}

/// After `n` blocks a capture that began with zero is at number `n` and at
/// sample `960 n`, in counters of 64 bits. The stream stays the same.
pub proof fn law_stream_numbering(stream: CaptureStream, n: nat)
    requires
        stream.sequence == 0,
        stream.timestamp_samples == 0,
    ensures
        stream.after(n).sequence == n % 0x1_0000_0000_0000_0000,
        stream.after(n).timestamp_samples == (960 * n) % 0x1_0000_0000_0000_0000,
        n < 0x1_0000_0000_0000_0000 ==> stream.after(n).sequence == n,
        960 * n < 0x1_0000_0000_0000_0000 ==> stream.after(n).timestamp_samples == 960 * n,
    decreases n,
{
    if n > 0 {
        law_stream_numbering(stream, (n - 1) as nat);
    }
}

/// Numbering a block first and others later is numbering all in a row.
proof fn lemma_after_advanced(stream: CaptureStream, n: nat)
    ensures
        stream.advanced().after(n) == stream.after(n + 1),
        stream.after(n).channels == stream.channels,
        stream.after(n).stream_id == stream.stream_id,
    decreases n,
{
    reveal_with_fuel(CaptureStream::after, 2);
    if n > 0 {
        lemma_after_advanced(stream, (n - 1) as nat);
    }
}

/// The n-th frame of a capture carries the n-th number and holds one whole
/// block; no partial frame is made.
pub proof fn law_cut_numbers_frames(stream: CaptureStream, recorded: Seq<u8>, n: int)
    requires
        0 <= n < stream.cut(recorded).len(),
    ensures
        stream.cut(recorded)[n].header == stream.after(n as nat).next_header(stream.block()),
        stream.cut(recorded)[n].pcm.len() == stream.block(),
        stream.after(n as nat).channels == stream.channels,
        stream.after(n as nat).stream_id == stream.stream_id,
    decreases n,
{
    lemma_after_advanced(stream, n as nat);
    if n > 0 {
        law_cut_numbers_frames(
            stream.advanced(),
            recorded.skip(stream.block() as int),
            n - 1,
        );
        lemma_after_advanced(stream, (n - 1) as nat);
    }
}

/// The PCM of frames in a row.
pub open spec fn payloads(frames: Seq<AudioFrameView>) -> Seq<u8>
    decreases frames.len(),
{
    if frames.len() == 0 {
        seq![]
    } else {
        frames[0].pcm + payloads(frames.drop_first())
    }
}

/// Nothing that was recorded is lost, doubled or moved: the frames in a row
/// are what was recorded, up to a rest that is shorter than a block.
pub proof fn law_cut_keeps_what_was_recorded(stream: CaptureStream, recorded: Seq<u8>)
    ensures
        payloads(stream.cut(recorded)) + stream.uncut(recorded) == recorded,
        stream.channels > 0 ==> stream.uncut(recorded).len() < stream.block(),
    decreases recorded.len(),
{
    if stream.block() == 0 || recorded.len() < stream.block() {
        assert(payloads(seq![]) + recorded =~= recorded);
    } else {
        let rest = recorded.skip(stream.block() as int);
        law_cut_keeps_what_was_recorded(stream.advanced(), rest);
        lemma_uncut_ignores_numbers(stream, stream.advanced(), rest);
        assert(stream.cut(recorded).drop_first() =~= stream.advanced().cut(rest));
        let block = recorded.take(stream.block() as int);
        assert(payloads(stream.cut(recorded)) == block + payloads(stream.advanced().cut(rest)));
        assert(block + rest =~= recorded);
        assert(payloads(stream.cut(recorded)) + stream.uncut(recorded) =~= block + (payloads(
            stream.advanced().cut(rest),
        ) + stream.uncut(rest)));
    }
}

/// What is left over does not depend on the numbering.
proof fn lemma_uncut_ignores_numbers(a: CaptureStream, b: CaptureStream, recorded: Seq<u8>)
    requires
        a.channels == b.channels,
    ensures
        a.uncut(recorded) == b.uncut(recorded),
    decreases recorded.len(),
{
    if a.block() != 0 && recorded.len() >= a.block() {
        lemma_uncut_ignores_numbers(a, b, recorded.skip(a.block() as int));
    }
}

/// It does not matter in which pieces the bytes of a device arrive: the frames
/// of a piece and then of the rest with the next piece are those of both
/// pieces together.
pub proof fn law_pieces_do_not_matter(stream: CaptureStream, first: Seq<u8>, second: Seq<u8>)
    ensures
        stream.cut(first + second) == stream.cut(first) + stream.after(
            stream.cut(first).len(),
        ).cut(stream.uncut(first) + second),
        stream.uncut(first + second) == stream.uncut(stream.uncut(first) + second),
    decreases first.len(),
{
    if stream.block() == 0 || first.len() < stream.block() {
        assert(seq![] + stream.cut(first + second) =~= stream.cut(first + second));
    } else {
        let width = stream.block() as int;
        let next = stream.advanced();
        let rest = first.skip(width);
        law_pieces_do_not_matter(next, rest, second);
        lemma_uncut_ignores_numbers(stream, next, rest);
        lemma_uncut_ignores_numbers(stream, next, rest + second);
        lemma_uncut_ignores_numbers(stream, next, stream.uncut(rest) + second);
        lemma_after_advanced(stream, next.cut(rest).len());
        assert((first + second).skip(width) =~= rest + second);
        assert((first + second).take(width) =~= first.take(width));
        let head = seq![
            AudioFrameView { header: stream.next_header(stream.block()), pcm: first.take(width) },
        ];
        assert(stream.cut(first + second) == head + next.cut(rest + second));
        assert(stream.cut(first) == head + next.cut(rest));
        assert(stream.cut(first).len() == next.cut(rest).len() + 1);
        let tail = next.after(next.cut(rest).len()).cut(stream.uncut(rest) + second);
        assert(head + (next.cut(rest) + tail) =~= (head + next.cut(rest)) + tail);
    }
}

/// The limits: one mebibyte of PCM and a header of 32 bytes.
pub proof fn law_media_limits()
    ensures
        MediaFrameHeader::BYTES == 32,
        MEDIA_HEADER_VERSION == 1,
        MAX_MEDIA_PAYLOAD_BYTES == 1_048_576,
        MAX_MEDIA_FRAME_BYTES == MediaFrameHeader::BYTES + MAX_MEDIA_PAYLOAD_BYTES,
        SAMPLE_RATE_HZ == 48_000,
{
}

/// A frame is seen with its own header and PCM, and so is each of a list.
pub proof fn law_frames_are_kept(frame: AudioFrame, frames: Seq<AudioFrame>, i: int)
    requires
        0 <= i < frames.len(),
    ensures
        frame@.header == frame.header,
        frame@.pcm == frame.pcm_s16le@,
        frame_views(frames).len() == frames.len(),
        frame_views(frames)[i] == frames[i]@,
{
}

/// Where each field of a header stands, lowest byte first.
pub proof fn law_header_layout(header: MediaFrameHeader)
    ensures
        ({
            let e = header.encoded();
            &&& e.len() == 32
            &&& e[0] == header.version
            &&& header.stream_id == e[1] + 0x100 * e[2] + 0x1_0000 * e[3] + 0x100_0000 * e[4]
            &&& e[5] == match header.direction {
                MediaDirection::HostToClient => 0u8,
                MediaDirection::ClientToHost => 1u8,
            }
            &&& e[6] == 0
            &&& header.sequence == e[7] + 0x100 * e[8] + 0x1_0000 * e[9] + 0x100_0000 * e[10]
                + 0x1_0000_0000 * e[11] + 0x100_0000_0000 * e[12] + 0x1_0000_0000_0000 * e[13]
                + 0x100_0000_0000_0000 * e[14]
            &&& header.timestamp_samples == e[15] + 0x100 * e[16] + 0x1_0000 * e[17] + 0x100_0000
                * e[18] + 0x1_0000_0000 * e[19] + 0x100_0000_0000 * e[20] + 0x1_0000_0000_0000
                * e[21] + 0x100_0000_0000_0000 * e[22]
            &&& header.sample_rate_hz == e[23] + 0x100 * e[24] + 0x1_0000 * e[25] + 0x100_0000
                * e[26]
            &&& e[27] == header.channels
            &&& header.payload_bytes == e[28] + 0x100 * e[29] + 0x1_0000 * e[30] + 0x100_0000
                * e[31]
        }),
{
    let e = header.encoded();
    law_header_length(header);
    law_header_reads_back(header, seq![]);
    assert(e + Seq::<u8>::empty() =~= e);
    lemma_field_bytes(header.stream_id as nat, 4, e, 1);
    lemma_field_bytes(header.sequence as nat, 8, e, 7);
    lemma_field_bytes(header.timestamp_samples as nat, 8, e, 15);
    lemma_field_bytes(header.sample_rate_hz as nat, 4, e, 23);
    lemma_field_bytes(header.payload_bytes as nat, 4, e, 28);
    lemma_le_bounds();
    lemma_le_bytes(header.stream_id as nat, 4);
    lemma_le_bytes(header.sequence as nat, 8);
    lemma_le_bytes(header.timestamp_samples as nat, 8);
    lemma_le_bytes(header.sample_rate_hz as nat, 4);
    lemma_le_bytes(header.payload_bytes as nat, 4);
    assert(e.subrange(1, 5) =~= le_bytes(header.stream_id as nat, 4));
    assert(e.subrange(7, 15) =~= le_bytes(header.sequence as nat, 8));
    assert(e.subrange(15, 23) =~= le_bytes(header.timestamp_samples as nat, 8));
    assert(e.subrange(23, 27) =~= le_bytes(header.sample_rate_hz as nat, 4));
    assert(e.subrange(28, 32) =~= le_bytes(header.payload_bytes as nat, 4));
}

/// The value of four or eight bytes of a message, written out.
proof fn lemma_field_bytes(value: nat, width: nat, e: Seq<u8>, at: int)
    requires
        width == 4 || width == 8,
        0 <= at,
        at + width <= e.len(),
    ensures
        width == 4 ==> le_value(e.subrange(at, at + 4)) == e[at] + 0x100 * e[at + 1] + 0x1_0000
            * e[at + 2] + 0x100_0000 * e[at + 3],
        width == 8 ==> le_value(e.subrange(at, at + 8)) == e[at] + 0x100 * e[at + 1] + 0x1_0000
            * e[at + 2] + 0x100_0000 * e[at + 3] + 0x1_0000_0000 * e[at + 4] + 0x100_0000_0000
            * e[at + 5] + 0x1_0000_0000_0000 * e[at + 6] + 0x100_0000_0000_0000 * e[at + 7],
{
    lemma_value_of_part(e, at, at + width, width);
}

/// The value of a part of a message, one byte after the other.
proof fn lemma_value_of_part(e: Seq<u8>, from: int, to: int, fuel: nat)
    requires
        0 <= from <= to <= e.len(),
        fuel == to - from,
    ensures
        from == to ==> le_value(e.subrange(from, to)) == 0,
        from < to ==> le_value(e.subrange(from, to)) == e[from] + 256 * le_value(
            e.subrange(from + 1, to),
        ),
        forall|k: int|
            from <= k < to ==> #[trigger] le_value(e.subrange(k, to)) == e[k] + 256 * le_value(
                e.subrange(k + 1, to),
            ),
        le_value(e.subrange(to, to)) == 0,
    decreases fuel,
{
    if from < to {
        lemma_value_of_part(e, from + 1, to, (fuel - 1) as nat);
        assert(e.subrange(from, to).drop_first() =~= e.subrange(from + 1, to));
    }
}

/// What becomes of a binary message from a client, told by its bytes: the
/// first of these faults that it has, or the frame.
pub proof fn law_client_message_is_judged_by_its_bytes(bytes: Seq<u8>, output_selected: bool)
    ensures
        ({
            let declared = bytes[28] + 0x100 * bytes[29] + 0x1_0000 * bytes[30] + 0x100_0000
                * bytes[31];
            let outcome = received(bytes, output_selected);
            if bytes.len() < 32 {
                outcome == Err::<AudioFrameView, MediaError>(MediaError::TooShort)
            } else if bytes[5] > 1 || bytes[6] != 0 {
                outcome == Err::<AudioFrameView, MediaError>(MediaError::InvalidHeader)
            } else if bytes[0] != 1 {
                outcome == Err::<AudioFrameView, MediaError>(
                    MediaError::UnsupportedVersion(bytes[0]),
                )
            } else if bytes[5] != 1 {
                outcome == Err::<AudioFrameView, MediaError>(MediaError::WrongDirection)
            } else if declared != bytes.len() - 32 {
                outcome == Err::<AudioFrameView, MediaError>(MediaError::LengthMismatch)
            } else if bytes.len() > 1_048_608 {
                outcome == Err::<AudioFrameView, MediaError>(MediaError::TooLong)
            } else if !output_selected {
                outcome == Err::<AudioFrameView, MediaError>(MediaError::NoOutput)
            } else {
                outcome matches Ok(frame) && frame.header.encoded() + frame.pcm == bytes
                    && frame.pcm.len() == bytes.len() - 32
            }
        }),
{
    if bytes.len() >= 32 {
        lemma_field_bytes(0, 4, bytes, 28);
        lemma_le_value(bytes.subrange(28, 32));
        lemma_le_bounds();
        law_header_writes_back(bytes);
        if let Ok(frame) = received(bytes, output_selected) {
            assert(frame.header.encoded() + frame.pcm =~= bytes);
        }
    }
}

/// The words for each fault of a binary message.
pub proof fn law_media_refusals_in_words(version: u8)
    ensures
        MediaError::TooShort.text() == "media frame is shorter than its header"@,
        MediaError::InvalidHeader.text() == "invalid media frame header"@,
        MediaError::UnsupportedVersion(version).text() == "unsupported media header version "@
            + decimal(version as nat),
        MediaError::WrongDirection.text() == "client media frame has the wrong direction"@,
        MediaError::LengthMismatch.text() == "media payload length does not match its frame"@,
        MediaError::TooLong.text() == "media frame exceeds the HostBridge limit"@,
        MediaError::NoOutput.text() == "select an audio output first"@,
{
}

/// A client that reads the message for a captured frame finds everything that
/// the frame's own header says of the stream, in the host's direction, and
/// exactly the captured PCM. A frame is sent unless its PCM is over the limit.
pub proof fn law_captured_frame_is_sent_as_it_is(frame: AudioFrameView)
    ensures
        packaged(frame) is Some <==> frame.pcm.len() <= 1_048_576,
        packaged(frame) matches Some(message) ==> (MediaFrameHeader::decoded(message) matches Some(
            header,
        ) && {
            &&& header.stream_id == frame.header.stream_id
            &&& header.codec == frame.header.codec
            &&& header.sequence == frame.header.sequence
            &&& header.timestamp_samples == frame.header.timestamp_samples
            &&& header.sample_rate_hz == frame.header.sample_rate_hz
            &&& header.channels == frame.header.channels
            &&& header.version == 1
            &&& header.direction == MediaDirection::HostToClient
            &&& header.payload_bytes == frame.pcm.len()
            &&& message.len() == 32 + frame.pcm.len()
            &&& message.skip(32) == frame.pcm
        }),
{
    if frame.pcm.len() <= 1_048_576 {
        law_packaged_frame_reads_back(frame);
        law_header_length(outgoing_header(frame));
    }
}

/// The header of the next block names the stream, its place in the stream and
/// the length of the block.
pub proof fn law_next_header(stream: CaptureStream, length: nat)
    requires
        length <= u32::MAX,
    ensures
        ({
            let header = stream.next_header(length);
            &&& header.version == 1
            &&& header.stream_id == stream.stream_id
            &&& header.direction == MediaDirection::HostToClient
            &&& header.codec == AudioCodec::PcmS16Le
            &&& header.sequence == stream.sequence
            &&& header.timestamp_samples == stream.timestamp_samples
            &&& header.sample_rate_hz == 48_000
            &&& header.channels == stream.channels
            &&& header.payload_bytes == length
        }),
        stream.block() == 960 * 2 * stream.channels,
        stream.advanced().stream_id == stream.stream_id,
        stream.advanced().channels == stream.channels,
        stream.advanced().sequence == (stream.sequence + 1) % 0x1_0000_0000_0000_0000,
        stream.advanced().timestamp_samples == (stream.timestamp_samples + 960)
            % 0x1_0000_0000_0000_0000,
{
}

/// Which bytes begin with a header: at least 32 of them, with a known
/// direction and a known codec.
pub proof fn law_what_counts_as_a_header(bytes: Seq<u8>)
    ensures
        MediaFrameHeader::decoded(bytes) is Some <==> bytes.len() >= 32 && bytes[5] <= 1
            && bytes[6] == 0,
{
}

} // verus!
