//! Choosing the output stream's configuration from what a device supports.
use vstd::prelude::*;

verus! {

/// The sample rate, in hertz, that the output stream is opened at.
pub const TARGET_SAMPLE_RATE: u32 = 22050;

/// The number of channels that the output stream is opened with.
pub const TARGET_CHANNELS: u16 = 2;

/// The numeric representation of one sample.
#[derive(Clone, Copy, Debug, PartialEq, Eq, Structural)]
pub enum SampleFormat {
    I8,
    I16,
    I32,
    I64,
    U8,
    U16,
    U32,
    U64,
    F32,
    F64,
    /// A format that this library has no name for.
    Other,
}

/// A range of stream configurations that a device supports: every sample
/// rate from `min_sample_rate` to `max_sample_rate`, with a fixed channel
/// count and sample format.
#[derive(Clone, Copy, Debug, PartialEq, Eq, Structural)]
pub struct SupportedConfigRange {
    pub channels: u16,
    pub min_sample_rate: u32,
    pub max_sample_rate: u32,
    pub sample_format: SampleFormat,
}

/// A concrete stream configuration.
#[derive(Clone, Copy, Debug, PartialEq, Eq, Structural)]
pub struct StreamConfig {
    pub channels: u16,
    pub sample_rate: u32,
    pub sample_format: SampleFormat,
}

/// Why no stream configuration could be chosen.
#[derive(Clone, Copy, Debug, PartialEq, Eq, Structural)]
pub enum SetupError {
    /// The host has no default output device.
    NoOutputDevice,
    /// The device could not list the configurations it supports.
    ConfigQueryFailed,
    /// None of the device's configuration ranges is acceptable.
    NoSupportedConfig,
}

/// What a host reports of its default output device.
#[derive(Debug)]
pub enum DeviceReport {
    /// There is no default output device.
    NoDevice,
    /// There is a device, and asking it for its configurations failed.
    QueryFailed,
    /// The device's supported configuration ranges, in the order in which
    /// the driver lists them.
    Supported(Vec<SupportedConfigRange>),
}

/// `index` is the place of the first acceptable range of `ranges`.
pub open spec fn is_first_acceptable(ranges: Seq<SupportedConfigRange>, index: int) -> bool {
    &&& 0 <= index < ranges.len()
    &&& ranges[index].is_acceptable()
    &&& forall|earlier: int| 0 <= earlier < index ==> !(#[trigger] ranges[earlier]).is_acceptable()
}

/// Some range of `ranges` is acceptable.
pub open spec fn has_acceptable(ranges: Seq<SupportedConfigRange>) -> bool {
    exists|index: int| 0 <= index < ranges.len() && (#[trigger] ranges[index]).is_acceptable()
}

/// The configuration that every acceptable range is narrowed to.
pub open spec fn target_config() -> StreamConfig {
    StreamConfig {
        channels: TARGET_CHANNELS,
        sample_rate: TARGET_SAMPLE_RATE,
        sample_format: SampleFormat::F32,
    }
}

impl SupportedConfigRange {
    /// A range is acceptable when the target rate lies strictly inside it,
    /// its samples are 32-bit floats and it has two channels.
    pub open spec fn spec_is_acceptable(&self) -> bool {
        &&& self.max_sample_rate > TARGET_SAMPLE_RATE
        &&& self.min_sample_rate < TARGET_SAMPLE_RATE
        &&& self.sample_format == SampleFormat::F32
        &&& self.channels == TARGET_CHANNELS
    }

    /// The range holds `sample_rate`.
    pub open spec fn contains_rate(&self, sample_rate: u32) -> bool {
        self.min_sample_rate <= sample_rate <= self.max_sample_rate
    }

    /// The range fixed at one sample rate.
    pub open spec fn narrowed(&self, sample_rate: u32) -> StreamConfig {
        StreamConfig { channels: self.channels, sample_rate, sample_format: self.sample_format }
    }

    /// Whether the range is acceptable for the output stream.
    #[verifier::when_used_as_spec(spec_is_acceptable)]
    pub fn is_acceptable(&self) -> (acceptable: bool)
        ensures
            acceptable == self.is_acceptable(),
    {
        self.max_sample_rate > TARGET_SAMPLE_RATE && self.min_sample_rate < TARGET_SAMPLE_RATE
            && self.sample_format == SampleFormat::F32 && self.channels == TARGET_CHANNELS
    }

    /// The configuration of this range at `sample_rate`, which must lie in
    /// the range.
    pub fn with_sample_rate(&self, sample_rate: u32) -> (config: StreamConfig)
        requires
            self.contains_rate(sample_rate),
        ensures
            config == self.narrowed(sample_rate),
    {
        StreamConfig { channels: self.channels, sample_rate, sample_format: self.sample_format }
    }
}

/// An acceptable range holds the target rate, and narrowing it to that rate
/// gives the target configuration.
pub proof fn lemma_acceptable_narrows_to_target(range: SupportedConfigRange)
    requires
        range.is_acceptable(),
    ensures
        range.contains_rate(TARGET_SAMPLE_RATE),
        range.narrowed(TARGET_SAMPLE_RATE) == target_config(),
{
}

/// A list has at most one first acceptable range.
pub proof fn lemma_first_acceptable_is_unique(
    ranges: Seq<SupportedConfigRange>,
    first: int,
    second: int,
)
    requires
        is_first_acceptable(ranges, first),
        is_first_acceptable(ranges, second),
    ensures
        first == second,
{
}

/// A list has a first acceptable range exactly when it has an acceptable
/// range.
pub proof fn lemma_first_acceptable_exists(ranges: Seq<SupportedConfigRange>)
    ensures
        has_acceptable(ranges) <==> exists|index: int| is_first_acceptable(ranges, index),
{
    if has_acceptable(ranges) {
        let some = choose|index: int|
            0 <= index < ranges.len() && (#[trigger] ranges[index]).is_acceptable();
        lemma_first_acceptable_below(ranges, some);
    }
    if exists|index: int| is_first_acceptable(ranges, index) {
        let first = choose|index: int| is_first_acceptable(ranges, index);
        assert(ranges[first].is_acceptable());
    }
}

/// Below or at any acceptable range stands the first acceptable one.
proof fn lemma_first_acceptable_below(ranges: Seq<SupportedConfigRange>, index: int)
    requires
        0 <= index < ranges.len(),
        ranges[index].is_acceptable(),
    ensures
        exists|first: int| 0 <= first <= index && is_first_acceptable(ranges, first),
    decreases index,
{
    if exists|earlier: int| 0 <= earlier < index && (#[trigger] ranges[earlier]).is_acceptable() {
        let earlier = choose|earlier: int|
            0 <= earlier < index && (#[trigger] ranges[earlier]).is_acceptable();
        lemma_first_acceptable_below(ranges, earlier);
        let first = choose|first: int| 0 <= first <= earlier && is_first_acceptable(ranges, first);
        assert(0 <= first <= index && is_first_acceptable(ranges, first));
    } else {
        assert(is_first_acceptable(ranges, index));
    }
}

/// The place of the first acceptable range of `ranges`, in the order given;
/// `None` where no range is acceptable.
pub fn find_acceptable(ranges: &[SupportedConfigRange]) -> (found: Option<usize>)
    ensures
        match found {
            Some(index) => is_first_acceptable(ranges@, index as int),
            None => !has_acceptable(ranges@),
        },
{
    let mut index: usize = 0;
    while index < ranges.len()
        invariant
            index <= ranges@.len(),
            forall|earlier: int|
                0 <= earlier < index ==> !(#[trigger] ranges@[earlier]).is_acceptable(),
        decreases ranges@.len() - index,
    {
        if ranges[index].is_acceptable() {
            return Some(index);
        }
        index += 1;
    }
    None
}

/// What is chosen for a report: the error that belongs to a missing device
/// or a failed query; else the target configuration where some range is
/// acceptable, and the error that none is where none is.
pub open spec fn selection(report: DeviceReport) -> Result<StreamConfig, SetupError> {
    match report {
        DeviceReport::NoDevice => Err(SetupError::NoOutputDevice),
        DeviceReport::QueryFailed => Err(SetupError::ConfigQueryFailed),
        DeviceReport::Supported(ranges) => if has_acceptable(ranges@) {
            Ok(target_config())
        } else {
            Err(SetupError::NoSupportedConfig)
        },
    }
}

/// Chooses the stream configuration for the host's default output device:
/// the first acceptable range that the device lists, narrowed to the target
/// sample rate.
pub fn select_config(report: &DeviceReport) -> (selected: Result<StreamConfig, SetupError>)
    ensures
        selected == selection(*report),
        match (*report, selected) {
            (DeviceReport::Supported(ranges), Ok(config)) => exists|index: int|
                is_first_acceptable(ranges@, index) && config == (
                #[trigger] ranges@[index]).narrowed(TARGET_SAMPLE_RATE),
            _ => true,
        },
{
    match report {
        DeviceReport::NoDevice => Err(SetupError::NoOutputDevice),
        DeviceReport::QueryFailed => Err(SetupError::ConfigQueryFailed),
        DeviceReport::Supported(ranges) => match find_acceptable(ranges.as_slice()) {
            Some(index) => Ok(ranges[index].with_sample_rate(TARGET_SAMPLE_RATE)),
            None => Err(SetupError::NoSupportedConfig),
        },
    }
}

impl SetupError {
    /// The diagnostic that the process aborts with.
    pub fn message(&self) -> (text: &'static str)
        ensures
            text@ == match *self {
                SetupError::NoOutputDevice => "no output device available"@,
                SetupError::ConfigQueryFailed => "error while querying configs"@,
                SetupError::NoSupportedConfig => "no supported config found"@,
            },
    {
        match self {
            SetupError::NoOutputDevice => "no output device available",
            SetupError::ConfigQueryFailed => "error while querying configs",
            SetupError::NoSupportedConfig => "no supported config found",
        }
    }
}

} // verus!
