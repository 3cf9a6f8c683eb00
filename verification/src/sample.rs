//! Conversion of hardware samples to canonical signed 16-bit PCM.

use crate::float32::{
    lemma_full_scale_float,
    lemma_silent_float,
    pcm_from_f32_bits,
    spec_pcm_from_f32_bits,
    ONE_BITS,
};
use vstd::prelude::*;

verus! {

/// The unsigned 16-bit level that stands for silence.
pub const UNSIGNED_MIDPOINT: u16 = 32768;

/// The largest canonical sample.
pub const CANONICAL_MAX: i16 = 32767;

/// A sample format as an input device reports it.
#[derive(Clone, Copy, Debug, PartialEq, Eq, Structural)]
pub enum DeviceFormat {
    I8,
    I16,
    I32,
    I64,
    U8,
    U16,
    U32,
    U64,
    F32,
    F64,
    /// A format that has no name here.
    Other,
}

/// A sample format that a capture session can record.
#[derive(Clone, Copy, Debug, PartialEq, Eq, Structural)]
pub enum SampleFormat {
    Float32,
    SignedInt16,
    UnsignedInt16,
}

impl SampleFormat {
    /// The format to record in for a format that a device reports, where there
    /// is one.
    pub open spec fn spec_from_device(device: DeviceFormat) -> Option<SampleFormat> {
        match device {
            DeviceFormat::F32 => Some(SampleFormat::Float32),
            DeviceFormat::I16 => Some(SampleFormat::SignedInt16),
            DeviceFormat::U16 => Some(SampleFormat::UnsignedInt16),
            _ => None,
        }
    }

    /// Selects the format to record in. Only 32-bit float and the two 16-bit
    /// integer formats are supported.
    pub fn from_device(device: DeviceFormat) -> (format: Option<SampleFormat>)
        ensures
            format == Self::spec_from_device(device),
    {
        match device {
            DeviceFormat::F32 => Some(SampleFormat::Float32),
            DeviceFormat::I16 => Some(SampleFormat::SignedInt16),
            DeviceFormat::U16 => Some(SampleFormat::UnsignedInt16),
            _ => None,
        }
    }

    /// The sample that stands for silence in this format.
    pub open spec fn zero_level(self) -> RawSample {
        match self {
            SampleFormat::Float32 => RawSample::Float32(0),
            SampleFormat::SignedInt16 => RawSample::SignedInt16(0),
            SampleFormat::UnsignedInt16 => RawSample::UnsignedInt16(32768),
        }
    }

    /// The largest sample of this format's nominal range.
    pub open spec fn full_scale(self) -> RawSample {
        match self {
            SampleFormat::Float32 => RawSample::Float32(ONE_BITS),
            SampleFormat::SignedInt16 => RawSample::SignedInt16(32767),
            SampleFormat::UnsignedInt16 => RawSample::UnsignedInt16(65535),
        }
    }
}

/// One hardware sample, tagged with its format. A float sample is held by its
/// bit pattern.
#[derive(Clone, Copy, Debug, PartialEq, Eq, Structural)]
pub enum RawSample {
    Float32(u32),
    SignedInt16(i16),
    UnsignedInt16(u16),
}

/// The canonical sample for an unsigned 16-bit sample: the sample less the
/// midpoint.
pub open spec fn spec_pcm_from_u16(sample: u16) -> int {
    sample - 32768
}

/// Re-centres an unsigned 16-bit sample around zero.
pub fn pcm_from_u16(sample: u16) -> (pcm: i16)
    ensures
        pcm == spec_pcm_from_u16(sample),
{
    if sample >= UNSIGNED_MIDPOINT {
        (sample - UNSIGNED_MIDPOINT) as i16
    } else {
        let below: u16 = UNSIGNED_MIDPOINT - sample;
        if below == UNSIGNED_MIDPOINT {
            i16::MIN
        } else {
            -(below as i16)
        }
    }
}

/// A signed 16-bit sample is canonical already.
pub fn pcm_from_i16(sample: i16) -> (pcm: i16)
    ensures
        pcm == sample,
{
    sample
}

impl RawSample {
    /// The format of the sample.
    pub open spec fn spec_format(self) -> SampleFormat {
        match self {
            RawSample::Float32(_) => SampleFormat::Float32,
            RawSample::SignedInt16(_) => SampleFormat::SignedInt16,
            RawSample::UnsignedInt16(_) => SampleFormat::UnsignedInt16,
        }
    }

    /// The canonical sample that this sample converts to.
    pub open spec fn pcm(self) -> int {
        match self {
            RawSample::Float32(bits) => spec_pcm_from_f32_bits(bits),
            RawSample::SignedInt16(sample) => sample as int,
            RawSample::UnsignedInt16(sample) => spec_pcm_from_u16(sample),
        }
    }

    /// The format of the sample.
    pub fn format(self) -> (format: SampleFormat)
        ensures
            format == self.spec_format(),
    {
        match self {
            RawSample::Float32(_) => SampleFormat::Float32,
            RawSample::SignedInt16(_) => SampleFormat::SignedInt16,
            RawSample::UnsignedInt16(_) => SampleFormat::UnsignedInt16,
        }
    }

    /// Converts the sample to canonical form.
    pub fn to_pcm(self) -> (pcm: i16)
        ensures
            pcm == self.pcm(),
    {
        match self {
            RawSample::Float32(bits) => pcm_from_f32_bits(bits),
            RawSample::SignedInt16(sample) => pcm_from_i16(sample),
            RawSample::UnsignedInt16(sample) => pcm_from_u16(sample),
        }
    }
}

/// One buffer of hardware samples, all of one format. Float samples are held
/// by their bit patterns.
#[derive(Clone, Copy, Debug)]
pub enum RawBuffer<'a> {
    Float32(&'a [u32]),
    SignedInt16(&'a [i16]),
    UnsignedInt16(&'a [u16]),
}

impl<'a> RawBuffer<'a> {
    /// The format of the samples in the buffer.
    pub open spec fn spec_format(self) -> SampleFormat {
        match self {
            RawBuffer::Float32(_) => SampleFormat::Float32,
            RawBuffer::SignedInt16(_) => SampleFormat::SignedInt16,
            RawBuffer::UnsignedInt16(_) => SampleFormat::UnsignedInt16,
        }
    }

    /// The samples of the buffer, in order.
    pub open spec fn samples(self) -> Seq<RawSample> {
        match self {
            RawBuffer::Float32(data) => Seq::new(data@.len(), |i: int| RawSample::Float32(data@[i])),
            RawBuffer::SignedInt16(data) => Seq::new(
                data@.len(),
                |i: int| RawSample::SignedInt16(data@[i]),
            ),
            RawBuffer::UnsignedInt16(data) => Seq::new(
                data@.len(),
                |i: int| RawSample::UnsignedInt16(data@[i]),
            ),
        }
    }

    /// The canonical samples that the buffer converts to, in order.
    pub open spec fn pcm(self) -> Seq<i16> {
        Seq::new(self.samples().len(), |i: int| self.samples()[i].pcm() as i16)
    }

    /// The format of the samples in the buffer.
    pub fn format(&self) -> (format: SampleFormat)
        ensures
            format == self.spec_format(),
    {
        match self {
            RawBuffer::Float32(_) => SampleFormat::Float32,
            RawBuffer::SignedInt16(_) => SampleFormat::SignedInt16,
            RawBuffer::UnsignedInt16(_) => SampleFormat::UnsignedInt16,
        }
    }

    /// The number of samples in the buffer.
    pub fn len(&self) -> (len: usize)
        ensures
            len == self.samples().len(),
    {
        match self {
            RawBuffer::Float32(data) => data.len(),
            RawBuffer::SignedInt16(data) => data.len(),
            RawBuffer::UnsignedInt16(data) => data.len(),
        }
    }

    /// Converts every sample of the buffer. The format is looked at once, not
    /// once for each sample.
    pub fn to_pcm(&self) -> (pcm: Vec<i16>)
        ensures
            pcm@ == self.pcm(),
    {
        match self {
            RawBuffer::Float32(data) => pcm_from_f32_buffer(data),
            RawBuffer::SignedInt16(data) => pcm_from_i16_buffer(data),
            RawBuffer::UnsignedInt16(data) => pcm_from_u16_buffer(data),
        }
    }
}

/// Converts a buffer of float samples, given by their bit patterns.
pub fn pcm_from_f32_buffer(data: &[u32]) -> (pcm: Vec<i16>)
    ensures
        pcm@ == RawBuffer::Float32(data).pcm(),
{
    let mut pcm: Vec<i16> = Vec::new();
    let mut index: usize = 0;
    while index < data.len()
        invariant
            index <= data@.len(),
            pcm@.len() == index,
            forall|i: int| 0 <= i < index ==> pcm@[i] == spec_pcm_from_f32_bits(data@[i]),
        decreases data@.len() - index,
    {
        pcm.push(pcm_from_f32_bits(data[index]));
        index = index + 1;
    }
    assert(pcm@ =~= RawBuffer::Float32(data).pcm());
    pcm
}

/// Converts a buffer of signed 16-bit samples, which are canonical already.
pub fn pcm_from_i16_buffer(data: &[i16]) -> (pcm: Vec<i16>)
    ensures
        pcm@ == RawBuffer::SignedInt16(data).pcm(),
        pcm@ == data@,
{
    let mut pcm: Vec<i16> = Vec::new();
    let mut index: usize = 0;
    while index < data.len()
        invariant
            index <= data@.len(),
            pcm@.len() == index,
            forall|i: int| 0 <= i < index ==> pcm@[i] == data@[i],
        decreases data@.len() - index,
    {
        pcm.push(pcm_from_i16(data[index]));
        index = index + 1;
    }
    assert(pcm@ =~= RawBuffer::SignedInt16(data).pcm());
    assert(pcm@ =~= data@);
    pcm
}

/// Converts a buffer of unsigned 16-bit samples.
pub fn pcm_from_u16_buffer(data: &[u16]) -> (pcm: Vec<i16>)
    ensures
        pcm@ == RawBuffer::UnsignedInt16(data).pcm(),
{
    let mut pcm: Vec<i16> = Vec::new();
    let mut index: usize = 0;
    while index < data.len()
        invariant
            index <= data@.len(),
            pcm@.len() == index,
            forall|i: int| 0 <= i < index ==> pcm@[i] == spec_pcm_from_u16(data@[i]),
        decreases data@.len() - index,
    {
        pcm.push(pcm_from_u16(data[index]));
        index = index + 1;
    }
    assert(pcm@ =~= RawBuffer::UnsignedInt16(data).pcm());
    pcm
}

/// In every format silence converts to zero, and the largest sample of the
/// nominal range converts to the largest canonical sample, so to within one
/// unit of it.
pub proof fn lemma_zero_and_full_scale(format: SampleFormat)
    ensures
        format.zero_level().spec_format() == format,
        format.full_scale().spec_format() == format,
        format.zero_level().pcm() == 0,
        format.full_scale().pcm() == CANONICAL_MAX,
        CANONICAL_MAX - 1 <= format.full_scale().pcm() <= CANONICAL_MAX + 1,
{
    lemma_silent_float();
    lemma_full_scale_float();
}

/// Every sample converts into the canonical range.
pub proof fn lemma_pcm_in_range(sample: RawSample)
    ensures
        i16::MIN <= sample.pcm() <= i16::MAX,
{
}

} // verus!
