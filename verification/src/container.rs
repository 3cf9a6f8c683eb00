//! Framing of canonical samples into a PCM container.
//!
//! The writer here performs no I/O. It hands out the bytes that belong in the
//! file (the header first, then the samples, then the sealed header that
//! replaces the first one) and keeps count of what it has framed, so that the
//! size fields of the sealed header agree with the data that was handed out.

use vstd::arithmetic::power2::pow2;
use vstd::prelude::*;

verus! {

/// Bits in one canonical sample.
pub const BITS_PER_SAMPLE: u16 = 16;

/// Bytes in one canonical sample.
pub const BYTES_PER_SAMPLE: u32 = 2;

/// Offset of the field that holds the size of everything after it.
pub const RIFF_SIZE_OFFSET: usize = 4;

/// The two bytes of a canonical sample, least significant first.
pub open spec fn sample_bytes(sample: i16) -> Seq<u8> {
    let unsigned: int = if sample < 0 {
        sample + 0x1_0000
    } else {
        sample as int
    };
    seq![(unsigned % 0x100) as u8, (unsigned / 0x100) as u8]
}

/// The two bytes of a 16-bit header field, least significant first.
pub open spec fn le16(value: nat) -> Seq<u8> {
    seq![(value % 0x100) as u8, ((value / 0x100) % 0x100) as u8]
}

/// The four bytes of a 32-bit header field, least significant first.
pub open spec fn le32(value: nat) -> Seq<u8> {
    seq![
        (value % 0x100) as u8,
        ((value / 0x100) % 0x100) as u8,
        ((value / 0x1_0000) % 0x100) as u8,
        ((value / 0x100_0000) % 0x100) as u8,
    ]
}

/// The number that two bytes hold, least significant first.
pub open spec fn le16_value(bytes: Seq<u8>) -> nat
    recommends
        bytes.len() == 2,
{
    (bytes[0] as nat) + 0x100 * (bytes[1] as nat)
}

/// The number that four bytes hold, least significant first.
pub open spec fn le32_value(bytes: Seq<u8>) -> nat
    recommends
        bytes.len() == 4,
{
    (bytes[0] as nat) + 0x100 * (bytes[1] as nat) + 0x1_0000 * (bytes[2] as nat) + 0x100_0000 * (
    bytes[3] as nat)
}

/// Reading a header field gives back the number that was written to it.
pub proof fn lemma_le_round_trip(value: nat)
    ensures
        le16(value).len() == 2,
        le32(value).len() == 4,
        value <= u16::MAX ==> le16_value(le16(value)) == value,
        value <= u32::MAX ==> le32_value(le32(value)) == value,
{
}

/// The letters `RIFF`, which open the file.
pub open spec fn riff_tag() -> Seq<u8> {
    seq![0x52u8, 0x49u8, 0x46u8, 0x46u8]
}

/// The letters `WAVE`, which name the kind of file.
pub open spec fn wave_tag() -> Seq<u8> {
    seq![0x57u8, 0x41u8, 0x56u8, 0x45u8]
}

/// The letters `fmt` and a space, which open the description of the format.
pub open spec fn fmt_tag() -> Seq<u8> {
    seq![0x66u8, 0x6du8, 0x74u8, 0x20u8]
}

/// The letters `data`, which open the samples.
pub open spec fn data_tag() -> Seq<u8> {
    seq![0x64u8, 0x61u8, 0x74u8, 0x61u8]
}

/// A size field that is not known yet.
pub open spec fn unknown_size() -> Seq<u8> {
    seq![0xffu8, 0xffu8, 0xffu8, 0xffu8]
}

/// The format code of integer PCM in the short form of the header.
pub const FORMAT_PCM: u16 = 1;

/// The format code of the extensible form of the header, which names the
/// encoding in a field of its own.
pub const FORMAT_EXTENSIBLE: u16 = 0xfffe;

/// The sixteen bytes that name integer PCM in the extensible form.
pub open spec fn pcm_subformat() -> Seq<u8> {
    seq![
        0x01u8, 0x00u8, 0x00u8, 0x00u8, 0x00u8, 0x00u8, 0x10u8, 0x00u8, 0x80u8, 0x00u8, 0x00u8,
        0xaau8, 0x00u8, 0x38u8, 0x9bu8, 0x71u8,
    ]
}

/// One bit for each channel, up to eighteen.
pub open spec fn channel_mask(channels: u16) -> nat {
    if channels >= 18 {
        0x3_ffff
    } else {
        (pow2(channels as nat) - 1) as nat
    }
}

/// The twelve bytes that are common to both forms of the header: channel
/// count, sample rate, bytes per second, and bytes per frame (cut to sixteen
/// bits).
pub open spec fn wave_format(channels: u16, sample_rate: u32, bits: u16) -> Seq<u8> {
    le16(channels as nat) + le32(sample_rate as nat) + le32(
        (sample_rate * (bits / 8) * channels) as nat,
    ) + le16((((bits / 8) * channels) % 0x1_0000) as nat)
}

/// The header of a stream of integer samples whose length is not known:
/// the short form, 44 bytes, where two channels and sixteen bits suffice,
/// the extensible form, 68 bytes, otherwise. Both size fields hold `ff`
/// bytes.
#[verifier::opaque]
pub open spec fn stream_header_image(channels: u16, sample_rate: u32, bits: u16) -> Seq<u8> {
    if channels > 2 || bits > 16 {
        riff_tag() + unknown_size() + wave_tag() + fmt_tag() + le32(40) + le16(
            FORMAT_EXTENSIBLE as nat,
        ) + wave_format(channels, sample_rate, bits) + le16(bits as nat) + le16(22) + le16(
            bits as nat,
        ) + le32(channel_mask(channels)) + pcm_subformat() + data_tag() + unknown_size()
    } else {
        riff_tag() + unknown_size() + wave_tag() + fmt_tag() + le32(16) + le16(FORMAT_PCM as nat)
            + wave_format(channels, sample_rate, bits) + le16(bits as nat) + data_tag()
            + unknown_size()
    }
}

/// The length of the header for a stream with `channels` channels and `bits`
/// bits per sample.
pub open spec fn stream_header_len(channels: u16, bits: u16) -> nat {
    if channels > 2 || bits > 16 {
        68
    } else {
        44
    }
}

/// Calls `hound::WavSpec::into_header_for_infinite_file` for integer
/// samples.
///
/// Trusted: for 16-bit samples the bytes returned are those that
/// `stream_header_image` spells out. The preconditions leave out the inputs
/// on which hound divides by zero or overflows the byte rate.
#[verifier::external_body]
fn stream_header(channels: u16, sample_rate: u32, bits: u16) -> (header: Vec<u8>)
    requires
        channels >= 1,
        sample_rate >= 1,
        bits == 16,
        sample_rate * (bits / 8) * channels <= u32::MAX,
    ensures
        header@ == stream_header_image(channels, sample_rate, bits),
{
    let spec = hound::WavSpec {
        channels,
        sample_rate,
        bits_per_sample: bits,
        sample_format: hound::SampleFormat::Int,
    };
    spec.into_header_for_infinite_file()
}

/// Calls `hound::Sample::write` for a 16-bit sample on a byte vector.
///
/// Trusted: the two bytes of the sample are appended, least significant
/// first, and nothing else changes.
#[verifier::external_body]
fn write_sample(out: &mut Vec<u8>, sample: i16, bits: u16)
    requires
        bits == 16,
    ensures
        final(out)@ == old(out)@ + sample_bytes(sample),
{
    let _ = hound::Sample::write(sample, out, bits);
}

/// The bytes of a run of canonical samples, in order.
pub open spec fn encode_samples(samples: Seq<i16>) -> Seq<u8>
    decreases samples.len(),
{
    if samples.len() == 0 {
        Seq::empty()
    } else {
        encode_samples(samples.drop_last()) + sample_bytes(samples.last())
    }
}

/// Encoding one more sample appends its two bytes.
pub proof fn lemma_encode_push(samples: Seq<i16>, sample: i16)
    ensures
        encode_samples(samples.push(sample)) == encode_samples(samples) + sample_bytes(sample),
{
    assert(samples.push(sample).drop_last() =~= samples);
}

/// Every sample takes two bytes.
pub proof fn lemma_encode_len(samples: Seq<i16>)
    ensures
        encode_samples(samples).len() == 2 * samples.len(),
    decreases samples.len(),
{
    if samples.len() > 0 {
        lemma_encode_len(samples.drop_last());
    }
}

/// A header with both of its size fields filled in for `data_bytes` bytes of
/// sample data: the field at offset 4 counts everything after itself, the
/// last four bytes of the header count the data alone. All other bytes are
/// those of `template`.
pub open spec fn sealed_header(template: Seq<u8>, data_bytes: nat) -> Seq<u8>
    recommends
        template.len() >= 12,
{
    template.subrange(0, 4) + le32((template.len() - 8 + data_bytes) as nat) + template.subrange(
        8,
        template.len() - 4,
    ) + le32(data_bytes)
}

/// Overwrites four bytes at `at` with `value`, least significant byte first.
fn put_le32(bytes: &mut Vec<u8>, at: usize, value: u32)
    requires
        at + 4 <= old(bytes)@.len(),
    ensures
        final(bytes)@ == old(bytes)@.subrange(0, at as int) + le32(value as nat) + old(
            bytes,
        )@.subrange(at + 4, old(bytes)@.len() as int),
{
    let len: usize = bytes.len();
    assert(at + 4 <= len);
    bytes.set(at, (value % 0x100) as u8);
    bytes.set(at + 1, ((value / 0x100) % 0x100) as u8);
    bytes.set(at + 2, ((value / 0x1_0000) % 0x100) as u8);
    bytes.set(at + 3, ((value / 0x100_0000) % 0x100) as u8);
}

/// Fills in the size fields of a header for `data_bytes` bytes of sample data.
pub fn seal_header(template: &Vec<u8>, data_bytes: u32) -> (sealed: Vec<u8>)
    requires
        12 <= template@.len(),
        template@.len() - 8 + data_bytes <= u32::MAX,
    ensures
        sealed@ == sealed_header(template@, data_bytes as nat),
{
    let mut sealed = template.clone();
    let len: usize = sealed.len();
    let riff_bytes: u32 = (len - 8) as u32 + data_bytes;
    put_le32(&mut sealed, RIFF_SIZE_OFFSET, riff_bytes);
    put_le32(&mut sealed, len - 4, data_bytes);
    sealed
}

/// What the container holds: channel count and sample rate. The samples are
/// always 16-bit integer PCM.
#[derive(Clone, Copy, Debug, PartialEq, Eq, Structural)]
pub struct ContainerSpec {
    pub channels: u16,
    pub sample_rate: u32,
}

impl ContainerSpec {
    /// A spec is valid when it has at least one channel, a positive sample
    /// rate, and a byte rate that fits the header's 32-bit field.
    pub open spec fn valid(self) -> bool {
        &&& self.channels >= 1
        &&& self.sample_rate >= 1
        &&& self.sample_rate * 2 * self.channels <= u32::MAX
    }

    /// The header for this spec, with its size fields not known yet.
    pub open spec fn header(self) -> Seq<u8> {
        stream_header_image(self.channels, self.sample_rate, BITS_PER_SAMPLE)
    }

    /// The length of the header for this spec.
    pub open spec fn header_len(self) -> nat {
        stream_header_len(self.channels, BITS_PER_SAMPLE)
    }

    /// The largest number of samples whose size the header can still state.
    pub open spec fn capacity(self) -> nat {
        ((u32::MAX - (self.header_len() - 8)) / 2) as nat
    }

    /// Whether the spec is valid.
    pub fn is_valid(&self) -> (valid: bool)
        ensures
            valid == self.valid(),
    {
        let doubled: u64 = (self.sample_rate as u64) * 2;
        let channels: u64 = self.channels as u64;
        assert(doubled * channels <= 0x2_0000_0000 * 0x1_0000) by (nonlinear_arith)
            requires
                doubled <= 0x2_0000_0000,
                channels <= 0x1_0000,
        ;
        self.channels >= 1 && self.sample_rate >= 1 && doubled * channels <= u32::MAX as u64
    }

    /// The largest number of samples that a container of this spec takes.
    pub fn max_samples(&self) -> (capacity: u32)
        ensures
            capacity == self.capacity(),
    {
        if self.channels > 2 {
            (u32::MAX - 60) / 2
        } else {
            (u32::MAX - 36) / 2
        }
    }
}

/// The mathematical state of a writer.
pub struct ContainerView {
    pub spec: ContainerSpec,
    /// The samples framed so far, in order.
    pub samples: Seq<i16>,
    /// `true` until the writer is finalized.
    pub open: bool,
}

impl ContainerView {
    /// A state is well formed when its spec is valid and its samples are no
    /// more than the header can state.
    pub open spec fn wf(self) -> bool {
        &&& self.spec.valid()
        &&& self.samples.len() <= self.spec.capacity()
    }

    /// A writer as `create` hands it out: open, and with no samples.
    pub open spec fn is_fresh(self) -> bool {
        &&& self.wf()
        &&& self.open
        &&& self.samples == Seq::<i16>::empty()
    }

    /// The header as it is first handed out, with its size fields not known
    /// yet.
    pub open spec fn header(self) -> Seq<u8> {
        self.spec.header()
    }

    /// How many more samples the writer accepts.
    pub open spec fn room(self) -> nat {
        if self.open {
            (self.spec.capacity() - self.samples.len()) as nat
        } else {
            0
        }
    }

    /// The state after one sample is offered: it is taken while the writer is
    /// open and has room, and dropped otherwise.
    pub open spec fn append(self, sample: i16) -> ContainerView {
        if self.room() > 0 {
            ContainerView { samples: self.samples.push(sample), ..self }
        } else {
            self
        }
    }

    /// The state after a run of samples is offered: as many as there is room
    /// for are taken, from the front.
    pub open spec fn append_all(self, samples: Seq<i16>) -> ContainerView {
        ContainerView { samples: self.samples + self.taken(samples), ..self }
    }

    /// The part of `samples` that the writer takes.
    pub open spec fn taken(self, samples: Seq<i16>) -> Seq<i16> {
        if samples.len() <= self.room() {
            samples
        } else {
            samples.take(self.room() as int)
        }
    }

    /// The state after finalizing.
    pub open spec fn finalize(self) -> ContainerView {
        ContainerView { open: false, ..self }
    }

    /// The number of bytes of sample data.
    pub open spec fn data_bytes(self) -> nat {
        2 * self.samples.len()
    }

    /// The header with its size fields filled in for the samples framed.
    pub open spec fn sealed(self) -> Seq<u8> {
        sealed_header(self.header(), self.data_bytes())
    }

    /// The file that results when every byte handed out has been written:
    /// the header, sealed once the writer is finalized, then the samples.
    pub open spec fn image(self) -> Seq<u8> {
        (if self.open {
            self.header()
        } else {
            self.sealed()
        }) + encode_samples(self.samples)
    }
}

/// The size that a file states for everything after its first eight bytes.
pub open spec fn declared_riff_bytes(image: Seq<u8>) -> nat
    recommends
        image.len() >= 8,
{
    le32_value(image.subrange(4, 8))
}

/// The size that a file with a header of `header_len` bytes states for its
/// sample data.
pub open spec fn declared_data_bytes(image: Seq<u8>, header_len: nat) -> nat
    recommends
        4 <= header_len <= image.len(),
{
    le32_value(image.subrange(header_len - 4, header_len as int))
}

/// The number of samples that a file with a header of `header_len` bytes
/// states: its data size over the size of a sample.
pub open spec fn declared_samples(image: Seq<u8>, header_len: nat) -> nat
    recommends
        4 <= header_len <= image.len(),
{
    declared_data_bytes(image, header_len) / (BYTES_PER_SAMPLE as nat)
}

/// The channel count that a file states.
pub open spec fn declared_channels(image: Seq<u8>) -> nat
    recommends
        image.len() >= 24,
{
    le16_value(image.subrange(22, 24))
}

/// The sample rate that a file states.
pub open spec fn declared_sample_rate(image: Seq<u8>) -> nat
    recommends
        image.len() >= 28,
{
    le32_value(image.subrange(24, 28))
}

/// The number of bits per sample that a file states.
pub open spec fn declared_bits(image: Seq<u8>) -> nat
    recommends
        image.len() >= 36,
{
    le16_value(image.subrange(34, 36))
}

/// The format code that a file states.
pub open spec fn declared_format(image: Seq<u8>) -> nat
    recommends
        image.len() >= 22,
{
    le16_value(image.subrange(20, 22))
}

/// Whether a file states that its samples are integer PCM: by the format
/// code of the short form, or by the code of the extensible form together
/// with the bytes that name integer PCM there.
pub open spec fn declares_integer_pcm(image: Seq<u8>) -> bool
    recommends
        image.len() >= 60,
{
    ||| declared_format(image) == FORMAT_PCM
    ||| declared_format(image) == FORMAT_EXTENSIBLE && image.subrange(44, 60) == pcm_subformat()
}

/// The header of a valid spec has the length of its form, opens with the
/// tags of a wave file, states the channel count and the sample rate of the
/// spec, sixteen bits and integer PCM, and ends with the tag and the size of
/// the data.
pub proof fn lemma_stream_header(spec: ContainerSpec)
    requires
        spec.valid(),
    ensures
        spec.header().len() == spec.header_len(),
        spec.header().subrange(0, 4) == riff_tag(),
        spec.header().subrange(8, 12) == wave_tag(),
        spec.header().subrange(12, 16) == fmt_tag(),
        declared_format(spec.header()) == (if spec.channels > 2 {
            FORMAT_EXTENSIBLE
        } else {
            FORMAT_PCM
        }),
        declares_integer_pcm(spec.header()),
        declared_channels(spec.header()) == spec.channels,
        declared_sample_rate(spec.header()) == spec.sample_rate,
        declared_bits(spec.header()) == BITS_PER_SAMPLE,
        spec.header().subrange(spec.header_len() - 8, spec.header_len() - 4) == data_tag(),
{
    reveal(stream_header_image);
    let header = spec.header();
    let channels = spec.channels;
    let rate = spec.sample_rate;
    let format = wave_format(channels, rate, BITS_PER_SAMPLE);
    lemma_le_round_trip(channels as nat);
    lemma_le_round_trip(rate as nat);
    lemma_le_round_trip(BITS_PER_SAMPLE as nat);
    lemma_le_round_trip(FORMAT_PCM as nat);
    lemma_le_round_trip(FORMAT_EXTENSIBLE as nat);
    assert(format.len() == 12);
    assert(format.subrange(0, 2) =~= le16(channels as nat));
    assert(format.subrange(2, 6) =~= le32(rate as nat));
    let fixed = riff_tag() + unknown_size() + wave_tag() + fmt_tag();
    assert(fixed.len() == 16);
    if channels > 2 {
        let front = fixed + le32(40) + le16(FORMAT_EXTENSIBLE as nat) + format + le16(
            BITS_PER_SAMPLE as nat,
        );
        let back = le16(22) + le16(BITS_PER_SAMPLE as nat) + le32(channel_mask(channels))
            + pcm_subformat() + data_tag() + unknown_size();
        assert(front.len() == 36);
        assert(back.len() == 32);
        assert(header =~= front + back);
        assert(header.subrange(0, 4) =~= riff_tag());
        assert(header.subrange(8, 12) =~= wave_tag());
        assert(header.subrange(12, 16) =~= fmt_tag());
        assert(header.subrange(20, 22) =~= le16(FORMAT_EXTENSIBLE as nat));
        assert(header.subrange(22, 24) =~= format.subrange(0, 2));
        assert(header.subrange(24, 28) =~= format.subrange(2, 6));
        assert(header.subrange(34, 36) =~= le16(BITS_PER_SAMPLE as nat));
        assert(header.subrange(44, 60) =~= pcm_subformat());
        assert(header.subrange(60, 64) =~= data_tag());
    } else {
        let front = fixed + le32(16) + le16(FORMAT_PCM as nat) + format + le16(
            BITS_PER_SAMPLE as nat,
        );
        assert(front.len() == 36);
        assert(header =~= front + (data_tag() + unknown_size()));
        assert(header.subrange(0, 4) =~= riff_tag());
        assert(header.subrange(8, 12) =~= wave_tag());
        assert(header.subrange(12, 16) =~= fmt_tag());
        assert(header.subrange(20, 22) =~= le16(FORMAT_PCM as nat));
        assert(header.subrange(22, 24) =~= format.subrange(0, 2));
        assert(header.subrange(24, 28) =~= format.subrange(2, 6));
        assert(header.subrange(34, 36) =~= le16(BITS_PER_SAMPLE as nat));
        assert(header.subrange(36, 40) =~= data_tag());
    }
}

/// Sealing a header changes its two size fields and nothing else, and each
/// field then reads as the size it was sealed with.
pub proof fn lemma_sealed_header(template: Seq<u8>, data_bytes: nat)
    requires
        template.len() >= 12,
        template.len() - 8 + data_bytes <= u32::MAX,
    ensures
        sealed_header(template, data_bytes).len() == template.len(),
        declared_riff_bytes(sealed_header(template, data_bytes)) == template.len() - 8
            + data_bytes,
        declared_data_bytes(sealed_header(template, data_bytes), template.len()) == data_bytes,
        forall|i: int|
            0 <= i < 4 || 8 <= i < template.len() - 4 ==> sealed_header(template, data_bytes)[i]
                == template[i],
{
    let sealed = sealed_header(template, data_bytes);
    let len = template.len() as int;
    lemma_le_round_trip((len - 8 + data_bytes) as nat);
    lemma_le_round_trip(data_bytes);
    assert(sealed.subrange(4, 8) =~= le32((len - 8 + data_bytes) as nat));
    assert(sealed.subrange(len - 4, len) =~= le32(data_bytes));
}

/// In a file that is a sealed header followed by data, every part of the
/// header outside the two size fields is as it was before sealing.
proof fn lemma_sealed_file_keeps(
    template: Seq<u8>,
    data_bytes: nat,
    data: Seq<u8>,
    from: int,
    to: int,
)
    requires
        template.len() >= 12,
        0 <= from <= to,
        to <= 4 || (8 <= from && to <= template.len() - 4),
    ensures
        (sealed_header(template, data_bytes) + data).subrange(from, to) == template.subrange(
            from,
            to,
        ),
{
    assert((sealed_header(template, data_bytes) + data).subrange(from, to) =~= template.subrange(
        from,
        to,
    ));
}

/// A file that is a sealed header followed by data splits into the two, and
/// states the sizes that the header was sealed with.
proof fn lemma_sealed_file_sizes(template: Seq<u8>, data_bytes: nat, data: Seq<u8>)
    requires
        template.len() >= 12,
        template.len() - 8 + data_bytes <= u32::MAX,
    ensures
        (sealed_header(template, data_bytes) + data).len() == template.len() + data.len(),
        (sealed_header(template, data_bytes) + data).subrange(0, template.len() as int)
            == sealed_header(template, data_bytes),
        (sealed_header(template, data_bytes) + data).subrange(
            template.len() as int,
            (template.len() + data.len()) as int,
        ) == data,
        declared_riff_bytes(sealed_header(template, data_bytes) + data) == template.len() - 8
            + data_bytes,
        declared_data_bytes(sealed_header(template, data_bytes) + data, template.len())
            == data_bytes,
{
    let sealed = sealed_header(template, data_bytes);
    let file = sealed + data;
    let len = template.len() as int;
    lemma_sealed_header(template, data_bytes);
    assert(file.subrange(0, len) =~= sealed);
    assert(file.subrange(len, len + data.len()) =~= data);
    assert(file.subrange(4, 8) =~= sealed.subrange(4, 8));
    assert(file.subrange(len - 4, len) =~= sealed.subrange(len - 4, len));
}

/// A finalized file is consistent: it is the sealed header followed by the
/// samples framed, two bytes each; the number of samples it states is the
/// number of samples framed; the size it states for its data is the size of
/// the data that follows the header; the size it states for the whole is the
/// size of everything after the first eight bytes; and it states the channel
/// count and the sample rate of its spec, sixteen bits and integer PCM.
pub proof fn lemma_finalized_image_is_consistent(writer: ContainerView)
    requires
        writer.wf(),
        !writer.open,
    ensures
        writer.image().len() == writer.spec.header_len() + 2 * writer.samples.len(),
        writer.image().subrange(0, writer.spec.header_len() as int) == writer.sealed(),
        writer.image().subrange(writer.spec.header_len() as int, writer.image().len() as int)
            == encode_samples(writer.samples),
        declared_samples(writer.image(), writer.spec.header_len()) == writer.samples.len(),
        declared_data_bytes(writer.image(), writer.spec.header_len()) == 2
            * writer.samples.len(),
        declared_data_bytes(writer.image(), writer.spec.header_len()) == writer.image().len()
            - writer.spec.header_len(),
        declared_riff_bytes(writer.image()) == writer.image().len() - 8,
        declares_integer_pcm(writer.image()),
        declared_channels(writer.image()) == writer.spec.channels,
        declared_sample_rate(writer.image()) == writer.spec.sample_rate,
        declared_bits(writer.image()) == BITS_PER_SAMPLE,
        writer.image().subrange(0, 4) == riff_tag(),
        writer.image().subrange(8, 12) == wave_tag(),
{
    let header = writer.header();
    let data = encode_samples(writer.samples);
    let data_bytes = writer.data_bytes();
    lemma_encode_len(writer.samples);
    lemma_stream_header(writer.spec);
    lemma_sealed_file_sizes(header, data_bytes, data);
    lemma_sealed_file_keeps(header, data_bytes, data, 0, 4);
    lemma_sealed_file_keeps(header, data_bytes, data, 8, 12);
    lemma_sealed_file_keeps(header, data_bytes, data, 20, 22);
    lemma_sealed_file_keeps(header, data_bytes, data, 22, 24);
    lemma_sealed_file_keeps(header, data_bytes, data, 24, 28);
    lemma_sealed_file_keeps(header, data_bytes, data, 34, 36);
    if writer.spec.channels > 2 {
        lemma_sealed_file_keeps(header, data_bytes, data, 44, 60);
    }
}

/// Finalizing again changes nothing, and a finalized writer takes no more
/// samples: neither the state nor the file moves.
pub proof fn lemma_finalize_is_final(writer: ContainerView, sample: i16, samples: Seq<i16>)
    ensures
        writer.finalize().finalize() == writer.finalize(),
        writer.finalize().append(sample) == writer.finalize(),
        writer.finalize().append_all(samples) == writer.finalize(),
        writer.finalize().samples == writer.samples,
{
    let sealed = writer.finalize();
    assert(sealed.taken(samples) =~= Seq::<i16>::empty());
    assert(sealed.samples + Seq::<i16>::empty() =~= sealed.samples);
}

/// Offering samples one by one is offering them as a run.
pub proof fn lemma_append_all_push(writer: ContainerView, samples: Seq<i16>, sample: i16)
    requires
        writer.wf(),
    ensures
        writer.append_all(Seq::empty()) == writer,
        writer.append_all(samples.push(sample)) == writer.append_all(samples).append(sample),
        writer.taken(samples.push(sample)) == writer.taken(samples) + (if writer.append_all(
            samples,
        ).room() > 0 {
            seq![sample]
        } else {
            Seq::empty()
        }),
{
    assert(writer.samples + writer.taken(Seq::empty()) =~= writer.samples);
    let before = writer.append_all(samples);
    let room = writer.room();
    if samples.len() < room {
        assert(writer.taken(samples.push(sample)) =~= writer.taken(samples) + seq![sample]);
        assert(before.append(sample).samples =~= writer.samples + writer.taken(
            samples.push(sample),
        ));
    } else {
        assert(samples.push(sample).take(room as int) =~= samples.take(room as int));
        assert(writer.taken(samples.push(sample)) =~= writer.taken(samples));
        assert(writer.taken(samples) + Seq::<i16>::empty() =~= writer.taken(samples));
    }
}

/// Offering samples keeps a writer well formed, and so does finalizing.
pub proof fn lemma_transitions_keep_wf(writer: ContainerView, samples: Seq<i16>, sample: i16)
    requires
        writer.wf(),
    ensures
        writer.append(sample).wf(),
        writer.append_all(samples).wf(),
        writer.finalize().wf(),
{
}

/// Whether a writer still takes samples.
#[derive(Clone, Copy, Debug, PartialEq, Eq, Structural)]
pub enum WriterState {
    Open,
    Finalized,
}

struct Progress {
    count: u32,
    framed: Ghost<Seq<i16>>,
}

/// Frames samples for one container file.
pub struct ContainerWriter {
    spec: ContainerSpec,
    template: Vec<u8>,
    state: WriterState,
    progress: Progress,
}

impl View for ContainerWriter {
    type V = ContainerView;

    closed spec fn view(&self) -> ContainerView {
        ContainerView {
            spec: self.spec,
            samples: self.progress.framed@,
            open: self.state == WriterState::Open,
        }
    }
}

impl ContainerWriter {
    /// What holds of every writer: its state is well formed, and its count is
    /// the number of samples framed.
    #[verifier::type_invariant]
    pub closed spec fn inv(self) -> bool {
        &&& self@.wf()
        &&& self.template@ == self.spec.header()
        &&& self.progress.count == self.progress.framed@.len()
    }

    /// The state of a writer that keeps its invariant is well formed.
    pub proof fn lemma_inv_wf(self)
        requires
            self.inv(),
        ensures
            self@.wf(),
    {
    }

    /// Starts a container for `spec`. Returns the writer and the header that
    /// goes at the start of the file, or `None` when the spec is not valid.
    pub fn create(spec: ContainerSpec) -> (created: Option<(ContainerWriter, Vec<u8>)>)
        ensures
            created is Some <==> spec.valid(),
            created matches Some((writer, header)) ==> {
                &&& writer@.spec == spec
                &&& writer@.is_fresh()
                &&& header@ == writer@.header()
            },
    {
        if !spec.is_valid() {
            return None;
        }
        let template = stream_header(spec.channels, spec.sample_rate, BITS_PER_SAMPLE);
        let header = template.clone();
        let writer = ContainerWriter {
            spec,
            template,
            state: WriterState::Open,
            progress: Progress { count: 0, framed: Ghost(Seq::empty()) },
        };
        Some((writer, header))
    }

    /// The spec that the writer was created for.
    pub fn spec(&self) -> (spec: ContainerSpec)
        ensures
            spec == self@.spec,
    {
        self.spec
    }

    /// Whether the writer still takes samples.
    pub fn state(&self) -> (state: WriterState)
        ensures
            (state == WriterState::Open) == self@.open,
    {
        self.state
    }

    /// The number of samples framed so far.
    pub fn len(&self) -> (count: u32)
        ensures
            count == self@.samples.len(),
            self@.wf(),
    {
        proof {
            use_type_invariant(self);
        }
        self.progress.count
    }

    /// Offers one sample. While the writer is open and has room, the sample is
    /// counted and its bytes are appended to `out`; otherwise nothing changes.
    pub fn append(&mut self, sample: i16, out: &mut Vec<u8>) -> (taken: bool)
        ensures
            taken == (old(self)@.room() > 0),
            final(self)@ == old(self)@.append(sample),
            final(self)@.wf(),
            final(out)@ == old(out)@ + (if taken {
                sample_bytes(sample)
            } else {
                Seq::empty()
            }),
    {
        proof {
            use_type_invariant(&*self);
        }
        let capacity = self.spec.max_samples();
        if self.state == WriterState::Finalized || self.progress.count >= capacity {
            return false;
        }
        write_sample(out, sample, BITS_PER_SAMPLE);
        self.progress = Progress {
            count: self.progress.count + 1,
            framed: Ghost(self.progress.framed@.push(sample)),
        };
        true
    }

    /// Offers a run of samples and returns the bytes to append to the file:
    /// those of the samples taken, which are as many as there is room for,
    /// from the front. A finalized writer takes none.
    pub fn append_all(&mut self, samples: &[i16]) -> (bytes: Vec<u8>)
        ensures
            final(self)@ == old(self)@.append_all(samples@),
            final(self)@.wf(),
            bytes@ == encode_samples(old(self)@.taken(samples@)),
    {
        let ghost start = self@;
        let mut bytes: Vec<u8> = Vec::new();
        let mut index: usize = 0;
        proof {
            use_type_invariant(&*self);
            lemma_append_all_push(start, Seq::empty(), 0);
            assert(samples@.take(0) =~= Seq::<i16>::empty());
            assert(start.taken(Seq::empty()) =~= Seq::<i16>::empty());
        }
        while index < samples.len()
            invariant
                index <= samples@.len(),
                start.wf(),
                self@ == start.append_all(samples@.take(index as int)),
                bytes@ == encode_samples(start.taken(samples@.take(index as int))),
            decreases samples@.len() - index,
        {
            let sample = samples[index];
            let ghost done = samples@.take(index as int);
            let taken = self.append(sample, &mut bytes);
            proof {
                lemma_append_all_push(start, done, sample);
                assert(done.push(sample) =~= samples@.take(index + 1));
                if taken {
                    lemma_encode_push(start.taken(done), sample);
                    assert(start.taken(done).push(sample) =~= start.taken(done) + seq![sample]);
                } else {
                    assert(start.taken(done) + Seq::<i16>::empty() =~= start.taken(done));
                    assert(bytes@ =~= encode_samples(start.taken(done)));
                }
            }
            index = index + 1;
        }
        proof {
            assert(samples@.take(index as int) =~= samples@);
        }
        bytes
    }

    /// Finalizes the writer. The first call returns the sealed header, which
    /// replaces the header at the start of the file; every later call returns
    /// `None` and changes nothing.
    pub fn finalize(&mut self) -> (sealed: Option<Vec<u8>>)
        ensures
            final(self)@ == old(self)@.finalize(),
            final(self)@.wf(),
            sealed is Some <==> old(self)@.open,
            sealed matches Some(header) ==> header@ == old(self)@.sealed(),
    {
        proof {
            use_type_invariant(&*self);
        }
        if self.state == WriterState::Finalized {
            return None;
        }
        proof {
            lemma_stream_header(self.spec);
        }
        self.state = WriterState::Finalized;
        let data_bytes: u32 = self.progress.count * BYTES_PER_SAMPLE;
        Some(seal_header(&self.template, data_bytes))
    }
}

} // verus!
