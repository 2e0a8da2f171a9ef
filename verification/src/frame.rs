use vstd::prelude::*;

verus! {

/// Sample encoding of PCM audio.
#[derive(Debug, Clone, Copy, PartialEq, Eq, Structural)]
pub enum SampleFormat {
    F32,
    I16,
    U16,
}

/// Shape of a PCM audio stream cut into fixed-length frames.
#[derive(Debug, Clone, Copy, PartialEq, Eq, Structural)]
pub struct PcmFormat {
    pub sample_rate: u32,
    pub channels: u16,
    pub sample_format: SampleFormat,
    pub frame_ms: u16,
}

/// Number of interleaved samples in one frame of `format`.
pub open spec fn spec_samples_per_frame(format: PcmFormat) -> int {
    ((format.sample_rate as int * format.frame_ms as int) / 1000) * format.channels as int
}

/// The message `validate` reports for `format`, if any.
pub open spec fn pcm_format_error(format: PcmFormat) -> Option<Seq<char>> {
    if format.sample_rate == 0 {
        Some("sampleRate must be greater than 0"@)
    } else if format.channels == 0 {
        Some("channels must be greater than 0"@)
    } else if format.frame_ms == 0 {
        Some("frameMs must be greater than 0"@)
    } else {
        None
    }
}

impl PcmFormat {
    /// The format used when nothing else is configured: 48 kHz mono f32, 20 ms frames.
    pub fn default_format() -> (format: PcmFormat)
        ensures
            format.sample_rate == 48_000,
            format.channels == 1,
            format.sample_format == SampleFormat::F32,
            format.frame_ms == 20,
    {
        PcmFormat { sample_rate: 48_000, channels: 1, sample_format: SampleFormat::F32, frame_ms: 20 }
    }

    /// Rejects a format with a zero sample rate, channel count or frame length,
    /// checked in that order.
    pub fn validate(&self) -> (result: Result<(), String>)
        ensures
            match result {
                Ok(()) => pcm_format_error(*self) is None,
                Err(e) => pcm_format_error(*self) == Some(e@),
            },
    {
        if self.sample_rate == 0 {
            return Err(String::from_str("sampleRate must be greater than 0"));
        }
        if self.channels == 0 {
            return Err(String::from_str("channels must be greater than 0"));
        }
        if self.frame_ms == 0 {
            return Err(String::from_str("frameMs must be greater than 0"));
        }
        Ok(())
    }

    /// Interleaved samples per frame: `sample_rate * frame_ms / 1000` frames of `channels` samples.
    pub fn samples_per_frame(&self) -> (n: usize)
        requires
            spec_samples_per_frame(*self) <= usize::MAX,
        ensures
            n == spec_samples_per_frame(*self),
    {
        let rate = self.sample_rate as u64;
        let ms = self.frame_ms as u64;
        assert(rate * ms <= 0xffff_ffff_u64 * 0xffff_u64) by (nonlinear_arith)
            requires rate <= 0xffff_ffff_u64, ms <= 0xffff_u64;
        let per_channel = (rate * ms) / 1000;
        let channels = self.channels as u64;
        assert(per_channel * channels <= 0xffff_ffff_u64 * 0xffff_u64 / 1000 * 0xffff_u64 + 0) by (nonlinear_arith)
            requires per_channel <= 0xffff_ffff_u64 * 0xffff_u64 / 1000, channels <= 0xffff_u64;
        (per_channel * channels) as usize
    }
}

} // verus!
