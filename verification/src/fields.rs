use vstd::prelude::*;

verus! {

/// Bounds of the masked field values that the decoders match on.
pub proof fn lemma_masked_bounds(x: u16)
    by (bit_vector)
    ensures
        x & 1 <= 1,
        x & 3 <= 3,
        x & 7 <= 7,
{
}

/// A cleared field stays cleared wherever it is placed in the register.
pub proof fn lemma_cleared_fields()
    by (bit_vector)
    ensures
        0u16 << 2u16 == 0,
        0u16 << 3u16 == 0,
        0u16 << 4u16 == 0,
        0u16 << 5u16 == 0,
        0u16 << 8u16 == 0,
        0u16 << 15u16 == 0,
{
}

/// Operational status to write: bit 15 of the config register as the host sets it.
#[derive(Debug, Clone, Copy, PartialEq, Eq)]
pub enum OSW {
    StartConversion,
    Idle,
}

impl OSW {
    /// The bit of this setting in the register.
    pub open spec fn code(self) -> u16 {
        match self {
            OSW::StartConversion => 1,
            OSW::Idle => 0,
        }
    }

    /// The setting placed in its field of the config register.
    pub open spec fn spec_bits(self) -> u16 {
        self.code() << 15
    }

    pub fn bits(&self) -> (r: u16)
        ensures
            r == self.spec_bits(),
    {
        proof {
            lemma_cleared_fields();
        }
        match self {
            OSW::StartConversion => 1 << 15,
            OSW::Idle => 0,
        }
    }
}

impl Default for OSW {
    fn default() -> (r: Self)
        ensures
            r == OSW::Idle,
    {
        OSW::Idle
    }
}

/// Operational status as read: bit 15 of the config register as the device reports it.
#[derive(Debug, Clone, Copy, PartialEq, Eq)]
pub enum OSR {
    PerformingConversion,
    DeviceIdle,
}

impl OSR {
    /// The bit of this status in the register.
    pub open spec fn code(self) -> u16 {
        match self {
            OSR::PerformingConversion => 0,
            OSR::DeviceIdle => 1,
        }
    }

    /// The status that a bit value selects.
    pub open spec fn from_code(c: u16) -> Self {
        if c == 0 {
            OSR::PerformingConversion
        } else {
            OSR::DeviceIdle
        }
    }

    /// The status that bit 15 of a config register word reports.
    pub open spec fn spec_from_bits(bits: u16) -> Self {
        Self::from_code((bits >> 15) & 1)
    }

    pub fn from_bits(bits: u16) -> (r: Self)
        ensures
            r == Self::spec_from_bits(bits),
    {
        proof {
            lemma_masked_bounds(bits >> 15);
        }
        match bits >> 15 & 0b01 {
            0 => OSR::PerformingConversion,
            _ => OSR::DeviceIdle,
        }
    }
}

impl Default for OSR {
    fn default() -> (r: Self)
        ensures
            r == OSR::DeviceIdle,
    {
        OSR::DeviceIdle
    }
}

/// Input multiplexer setting, bits 14:12 of the config register.
#[derive(Debug, Clone, Copy, PartialEq, Eq)]
pub enum InputMultiplexer {
    AIN0AIN1,
    AIN0AIN3,
    AIN1AIN3,
    AIN2AIN3,
    AIN0GND,
    AIN1GND,
    AIN2GND,
    AIN3GND,
}

impl InputMultiplexer {
    /// The 3-bit code of this setting in the register.
    pub open spec fn code(self) -> u16 {
        match self {
            InputMultiplexer::AIN0AIN1 => 0,
            InputMultiplexer::AIN0AIN3 => 1,
            InputMultiplexer::AIN1AIN3 => 2,
            InputMultiplexer::AIN2AIN3 => 3,
            InputMultiplexer::AIN0GND => 4,
            InputMultiplexer::AIN1GND => 5,
            InputMultiplexer::AIN2GND => 6,
            InputMultiplexer::AIN3GND => 7,
        }
    }

    /// The setting that a 3-bit code selects.
    pub open spec fn from_code(c: u16) -> Self {
        if c == 0 {
            InputMultiplexer::AIN0AIN1
        } else if c == 1 {
            InputMultiplexer::AIN0AIN3
        } else if c == 2 {
            InputMultiplexer::AIN1AIN3
        } else if c == 3 {
            InputMultiplexer::AIN2AIN3
        } else if c == 4 {
            InputMultiplexer::AIN0GND
        } else if c == 5 {
            InputMultiplexer::AIN1GND
        } else if c == 6 {
            InputMultiplexer::AIN2GND
        } else {
            InputMultiplexer::AIN3GND
        }
    }

    /// The setting placed in its field of the config register.
    pub open spec fn spec_bits(self) -> u16 {
        self.code() << 12
    }

    /// The setting that the field of a config register word selects.
    pub open spec fn spec_from_bits(bits: u16) -> Self {
        Self::from_code((bits >> 12) & 7)
    }

    pub fn bits(&self) -> (r: u16)
        ensures
            r == self.spec_bits(),
    {
        match self {
            InputMultiplexer::AIN0AIN1 => 0b000 << 12,
            InputMultiplexer::AIN0AIN3 => 0b001 << 12,
            InputMultiplexer::AIN1AIN3 => 0b010 << 12,
            InputMultiplexer::AIN2AIN3 => 0b011 << 12,
            InputMultiplexer::AIN0GND => 0b100 << 12,
            InputMultiplexer::AIN1GND => 0b101 << 12,
            InputMultiplexer::AIN2GND => 0b110 << 12,
            InputMultiplexer::AIN3GND => 0b111 << 12,
        }
    }

    pub fn from_bits(bits: u16) -> (r: Self)
        ensures
            r == Self::spec_from_bits(bits),
    {
        proof {
            lemma_masked_bounds(bits >> 12);
        }
        match bits >> 12 & 0b111 {
            0b000 => InputMultiplexer::AIN0AIN1,
            0b001 => InputMultiplexer::AIN0AIN3,
            0b010 => InputMultiplexer::AIN1AIN3,
            0b011 => InputMultiplexer::AIN2AIN3,
            0b100 => InputMultiplexer::AIN0GND,
            0b101 => InputMultiplexer::AIN1GND,
            0b110 => InputMultiplexer::AIN2GND,
            _ => InputMultiplexer::AIN3GND,
        }
    }
}

impl Default for InputMultiplexer {
    fn default() -> (r: Self)
        ensures
            r == InputMultiplexer::AIN0AIN1,
    {
        InputMultiplexer::AIN0AIN1
    }
}

/// Programmable gain amplifier setting (full-scale range), bits 11:9 of the config register.
#[derive(Debug, Clone, Copy, PartialEq, Eq)]
pub enum ProgramableGainAmplifier {
    V6_144,
    V4_096,
    V2_048,
    V1_024,
    V0_512,
    V0_256,
}

impl ProgramableGainAmplifier {
    /// The 3-bit code of this setting in the register.
    pub open spec fn code(self) -> u16 {
        match self {
            ProgramableGainAmplifier::V6_144 => 0,
            ProgramableGainAmplifier::V4_096 => 1,
            ProgramableGainAmplifier::V2_048 => 2,
            ProgramableGainAmplifier::V1_024 => 3,
            ProgramableGainAmplifier::V0_512 => 4,
            ProgramableGainAmplifier::V0_256 => 5,
        }
    }

    /// The setting that a 3-bit code selects; codes above the last one select the last setting.
    pub open spec fn from_code(c: u16) -> Self {
        if c == 0 {
            ProgramableGainAmplifier::V6_144
        } else if c == 1 {
            ProgramableGainAmplifier::V4_096
        } else if c == 2 {
            ProgramableGainAmplifier::V2_048
        } else if c == 3 {
            ProgramableGainAmplifier::V1_024
        } else if c == 4 {
            ProgramableGainAmplifier::V0_512
        } else {
            ProgramableGainAmplifier::V0_256
        }
    }

    /// The setting placed in its field of the config register.
    pub open spec fn spec_bits(self) -> u16 {
        self.code() << 9
    }

    /// The setting that the field of a config register word selects.
    pub open spec fn spec_from_bits(bits: u16) -> Self {
        Self::from_code((bits >> 9) & 7)
    }

    pub fn bits(&self) -> (r: u16)
        ensures
            r == self.spec_bits(),
    {
        match self {
            ProgramableGainAmplifier::V6_144 => 0b000 << 9,
            ProgramableGainAmplifier::V4_096 => 0b001 << 9,
            ProgramableGainAmplifier::V2_048 => 0b010 << 9,
            ProgramableGainAmplifier::V1_024 => 0b011 << 9,
            ProgramableGainAmplifier::V0_512 => 0b100 << 9,
            ProgramableGainAmplifier::V0_256 => 0b101 << 9,
        }
    }

    pub fn from_bits(bits: u16) -> (r: Self)
        ensures
            r == Self::spec_from_bits(bits),
    {
        proof {
            lemma_masked_bounds(bits >> 9);
        }
        match bits >> 9 & 0b111 {
            0b000 => ProgramableGainAmplifier::V6_144,
            0b001 => ProgramableGainAmplifier::V4_096,
            0b010 => ProgramableGainAmplifier::V2_048,
            0b011 => ProgramableGainAmplifier::V1_024,
            0b100 => ProgramableGainAmplifier::V0_512,
            _ => ProgramableGainAmplifier::V0_256,
        }
    }
}

impl ProgramableGainAmplifier {
    /// The full-scale input range of this gain setting, in millivolts: the
    /// voltage that the largest conversion result stands for.
    pub open spec fn spec_full_scale_millivolts(self) -> u16 {
        match self {
            ProgramableGainAmplifier::V6_144 => 6144,
            ProgramableGainAmplifier::V4_096 => 4096,
            ProgramableGainAmplifier::V2_048 => 2048,
            ProgramableGainAmplifier::V1_024 => 1024,
            ProgramableGainAmplifier::V0_512 => 512,
            ProgramableGainAmplifier::V0_256 => 256,
        }
    }

    pub fn full_scale_millivolts(&self) -> (r: u16)
        ensures
            r == self.spec_full_scale_millivolts(),
    {
        match self {
            ProgramableGainAmplifier::V0_256 => 256,
            ProgramableGainAmplifier::V0_512 => 512,
            ProgramableGainAmplifier::V1_024 => 1024,
            ProgramableGainAmplifier::V2_048 => 2048,
            ProgramableGainAmplifier::V4_096 => 4096,
            ProgramableGainAmplifier::V6_144 => 6144,
        }
    }
}

impl Default for ProgramableGainAmplifier {
    fn default() -> (r: Self)
        ensures
            r == ProgramableGainAmplifier::V2_048,
    {
        ProgramableGainAmplifier::V2_048
    }
}

/// Operating mode, bit 8 of the config register.
#[derive(Debug, Clone, Copy, PartialEq, Eq)]
pub enum Mode {
    Continuous,
    Signle,
}

impl Mode {
    /// The 1-bit code of this setting in the register.
    pub open spec fn code(self) -> u16 {
        match self {
            Mode::Continuous => 0,
            Mode::Signle => 1,
        }
    }

    /// The setting that a 1-bit code selects.
    pub open spec fn from_code(c: u16) -> Self {
        if c == 0 {
            Mode::Continuous
        } else {
            Mode::Signle
        }
    }

    /// The setting placed in its field of the config register.
    pub open spec fn spec_bits(self) -> u16 {
        self.code() << 8
    }

    /// The setting that the field of a config register word selects.
    pub open spec fn spec_from_bits(bits: u16) -> Self {
        Self::from_code((bits >> 8) & 1)
    }

    pub fn bits(&self) -> (r: u16)
        ensures
            r == self.spec_bits(),
    {
        proof {
            lemma_cleared_fields();
        }
        match self {
            Mode::Continuous => 0,
            Mode::Signle => 1 << 8,
        }
    }

    pub fn from_bits(bits: u16) -> (r: Self)
        ensures
            r == Self::spec_from_bits(bits),
    {
        proof {
            lemma_masked_bounds(bits >> 8);
        }
        match bits >> 8 & 0b01 {
            1 => Mode::Signle,
            _ => Mode::Continuous,
        }
    }
}

impl Default for Mode {
    fn default() -> (r: Self)
        ensures
            r == Mode::Signle,
    {
        Mode::Signle
    }
}

/// Data rate in samples per second, bits 7:5 of the config register.
#[derive(Debug, Clone, Copy, PartialEq, Eq)]
pub enum DataRate {
    SPS8,
    SPS16,
    SPS32,
    SPS64,
    SPS128,
    SPS250,
    SPS475,
    SPS860,
}

impl DataRate {
    /// The 3-bit code of this setting in the register.
    pub open spec fn code(self) -> u16 {
        match self {
            DataRate::SPS8 => 0,
            DataRate::SPS16 => 1,
            DataRate::SPS32 => 2,
            DataRate::SPS64 => 3,
            DataRate::SPS128 => 4,
            DataRate::SPS250 => 5,
            DataRate::SPS475 => 6,
            DataRate::SPS860 => 7,
        }
    }

    /// The setting that a 3-bit code selects.
    pub open spec fn from_code(c: u16) -> Self {
        if c == 0 {
            DataRate::SPS8
        } else if c == 1 {
            DataRate::SPS16
        } else if c == 2 {
            DataRate::SPS32
        } else if c == 3 {
            DataRate::SPS64
        } else if c == 4 {
            DataRate::SPS128
        } else if c == 5 {
            DataRate::SPS250
        } else if c == 6 {
            DataRate::SPS475
        } else {
            DataRate::SPS860
        }
    }

    /// The setting placed in its field of the config register.
    pub open spec fn spec_bits(self) -> u16 {
        self.code() << 5
    }

    /// The setting that the field of a config register word selects.
    pub open spec fn spec_from_bits(bits: u16) -> Self {
        Self::from_code((bits >> 5) & 7)
    }

    pub fn bits(&self) -> (r: u16)
        ensures
            r == self.spec_bits(),
    {
        proof {
            lemma_cleared_fields();
        }
        match self {
            DataRate::SPS8 => 0b000,
            DataRate::SPS16 => 0b001 << 5,
            DataRate::SPS32 => 0b010 << 5,
            DataRate::SPS64 => 0b011 << 5,
            DataRate::SPS128 => 0b100 << 5,
            DataRate::SPS250 => 0b101 << 5,
            DataRate::SPS475 => 0b110 << 5,
            DataRate::SPS860 => 0b111 << 5,
        }
    }

    pub fn from_bits(bits: u16) -> (r: Self)
        ensures
            r == Self::spec_from_bits(bits),
    {
        proof {
            lemma_masked_bounds(bits >> 5);
        }
        match bits >> 5 & 0b111 {
            0b000 => DataRate::SPS8,
            0b001 => DataRate::SPS16,
            0b010 => DataRate::SPS32,
            0b011 => DataRate::SPS64,
            0b100 => DataRate::SPS128,
            0b101 => DataRate::SPS250,
            0b110 => DataRate::SPS475,
            _ => DataRate::SPS860,
        }
    }
}

impl Default for DataRate {
    fn default() -> (r: Self)
        ensures
            r == DataRate::SPS128,
    {
        DataRate::SPS128
    }
}

/// Comparator mode, bit 4 of the config register.
#[derive(Debug, Clone, Copy, PartialEq, Eq)]
pub enum ComparatorMode {
    Traditional,
    Window,
}

impl ComparatorMode {
    /// The 1-bit code of this setting in the register.
    pub open spec fn code(self) -> u16 {
        match self {
            ComparatorMode::Traditional => 0,
            ComparatorMode::Window => 1,
        }
    }

    /// The setting that a 1-bit code selects.
    pub open spec fn from_code(c: u16) -> Self {
        if c == 0 {
            ComparatorMode::Traditional
        } else {
            ComparatorMode::Window
        }
    }

    /// The setting placed in its field of the config register.
    pub open spec fn spec_bits(self) -> u16 {
        self.code() << 4
    }

    /// The setting that the field of a config register word selects.
    pub open spec fn spec_from_bits(bits: u16) -> Self {
        Self::from_code((bits >> 4) & 1)
    }

    pub fn bits(&self) -> (r: u16)
        ensures
            r == self.spec_bits(),
    {
        proof {
            lemma_cleared_fields();
        }
        match self {
            ComparatorMode::Traditional => 0,
            ComparatorMode::Window => 1 << 4,
        }
    }

    pub fn from_bits(bits: u16) -> (r: Self)
        ensures
            r == Self::spec_from_bits(bits),
    {
        proof {
            lemma_masked_bounds(bits >> 4);
        }
        match bits >> 4 & 0b01 {
            1 => ComparatorMode::Window,
            _ => ComparatorMode::Traditional,
        }
    }
}

impl Default for ComparatorMode {
    fn default() -> (r: Self)
        ensures
            r == ComparatorMode::Traditional,
    {
        ComparatorMode::Traditional
    }
}

/// Polarity of the ALERT/RDY pin, bit 3 of the config register.
#[derive(Debug, Clone, Copy, PartialEq, Eq)]
pub enum ComparatorPolarity {
    ActiveLow,
    ActiveHigh,
}

impl ComparatorPolarity {
    /// The 1-bit code of this setting in the register.
    pub open spec fn code(self) -> u16 {
        match self {
            ComparatorPolarity::ActiveLow => 0,
            ComparatorPolarity::ActiveHigh => 1,
        }
    }

    /// The setting that a 1-bit code selects.
    pub open spec fn from_code(c: u16) -> Self {
        if c == 0 {
            ComparatorPolarity::ActiveLow
        } else {
            ComparatorPolarity::ActiveHigh
        }
    }

    /// The setting placed in its field of the config register.
    pub open spec fn spec_bits(self) -> u16 {
        self.code() << 3
    }

    /// The setting that the field of a config register word selects.
    pub open spec fn spec_from_bits(bits: u16) -> Self {
        Self::from_code((bits >> 3) & 1)
    }

    pub fn bits(&self) -> (r: u16)
        ensures
            r == self.spec_bits(),
    {
        proof {
            lemma_cleared_fields();
        }
        match self {
            ComparatorPolarity::ActiveLow => 0,
            ComparatorPolarity::ActiveHigh => 1 << 3,
        }
    }

    pub fn from_bits(bits: u16) -> (r: Self)
        ensures
            r == Self::spec_from_bits(bits),
    {
        proof {
            lemma_masked_bounds(bits >> 3);
        }
        match bits >> 3 & 0b01 {
            1 => ComparatorPolarity::ActiveHigh,
            _ => ComparatorPolarity::ActiveLow,
        }
    }
}

impl Default for ComparatorPolarity {
    fn default() -> (r: Self)
        ensures
            r == ComparatorPolarity::ActiveLow,
    {
        ComparatorPolarity::ActiveLow
    }
}

/// Latching of the comparator output, bit 2 of the config register.
#[derive(Debug, Clone, Copy, PartialEq, Eq)]
pub enum LatchingComparator {
    NonLatching,
    Latching,
}

impl LatchingComparator {
    /// The 1-bit code of this setting in the register.
    pub open spec fn code(self) -> u16 {
        match self {
            LatchingComparator::NonLatching => 0,
            LatchingComparator::Latching => 1,
        }
    }

    /// The setting that a 1-bit code selects.
    pub open spec fn from_code(c: u16) -> Self {
        if c == 0 {
            LatchingComparator::NonLatching
        } else {
            LatchingComparator::Latching
        }
    }

    /// The setting placed in its field of the config register.
    pub open spec fn spec_bits(self) -> u16 {
        self.code() << 2
    }

    /// The setting that the field of a config register word selects.
    pub open spec fn spec_from_bits(bits: u16) -> Self {
        Self::from_code((bits >> 2) & 1)
    }

    pub fn bits(&self) -> (r: u16)
        ensures
            r == self.spec_bits(),
    {
        proof {
            lemma_cleared_fields();
        }
        match self {
            LatchingComparator::NonLatching => 0,
            LatchingComparator::Latching => 1 << 2,
        }
    }

    pub fn from_bits(bits: u16) -> (r: Self)
        ensures
            r == Self::spec_from_bits(bits),
    {
        proof {
            lemma_masked_bounds(bits >> 2);
        }
        match bits >> 2 & 0b01 {
            1 => LatchingComparator::Latching,
            _ => LatchingComparator::NonLatching,
        }
    }
}

impl Default for LatchingComparator {
    fn default() -> (r: Self)
        ensures
            r == LatchingComparator::NonLatching,
    {
        LatchingComparator::NonLatching
    }
}

/// Comparator queue and disable, bits 1:0 of the config register.
#[derive(Debug, Clone, Copy, PartialEq, Eq)]
pub enum ComparatorQueue {
    AsserAfterOne,
    AsserAfterTwo,
    AsserAfterFour,
    Disable,
}

impl ComparatorQueue {
    /// The 2-bit code of this setting in the register.
    pub open spec fn code(self) -> u16 {
        match self {
            ComparatorQueue::AsserAfterOne => 0,
            ComparatorQueue::AsserAfterTwo => 1,
            ComparatorQueue::AsserAfterFour => 2,
            ComparatorQueue::Disable => 3,
        }
    }

    /// The setting that a 2-bit code selects.
    pub open spec fn from_code(c: u16) -> Self {
        if c == 0 {
            ComparatorQueue::AsserAfterOne
        } else if c == 1 {
            ComparatorQueue::AsserAfterTwo
        } else if c == 2 {
            ComparatorQueue::AsserAfterFour
        } else {
            ComparatorQueue::Disable
        }
    }

    /// The setting placed in its field of the config register.
    pub open spec fn spec_bits(self) -> u16 {
        self.code()
    }

    /// The setting that the field of a config register word selects.
    pub open spec fn spec_from_bits(bits: u16) -> Self {
        Self::from_code(bits & 3)
    }

    pub fn bits(&self) -> (r: u16)
        ensures
            r == self.spec_bits(),
    {
        match self {
            ComparatorQueue::AsserAfterOne => 0b00,
            ComparatorQueue::AsserAfterTwo => 0b01,
            ComparatorQueue::AsserAfterFour => 0b10,
            ComparatorQueue::Disable => 0b11,
        }
    }

    pub fn from_bits(bits: u16) -> (r: Self)
        ensures
            r == Self::spec_from_bits(bits),
    {
        proof {
            lemma_masked_bounds(bits);
        }
        match bits & 0b11 {
            0b00 => ComparatorQueue::AsserAfterOne,
            0b01 => ComparatorQueue::AsserAfterTwo,
            0b10 => ComparatorQueue::AsserAfterFour,
            _ => ComparatorQueue::Disable,
        }
    }
}

impl Default for ComparatorQueue {
    fn default() -> (r: Self)
        ensures
            r == ComparatorQueue::Disable,
    {
        ComparatorQueue::Disable
    }
}

/// A field value moved into its place and read back out is unchanged.
pub proof fn lemma_field_shift_round_trip(c: u16)
    by (bit_vector)
    ensures
        c <= 1 ==> ((c << 15u16) >> 15u16) & 1 == c,
        c <= 7 ==> ((c << 12u16) >> 12u16) & 7 == c,
        c <= 7 ==> ((c << 9u16) >> 9u16) & 7 == c,
        c <= 1 ==> ((c << 8u16) >> 8u16) & 1 == c,
        c <= 7 ==> ((c << 5u16) >> 5u16) & 7 == c,
        c <= 1 ==> ((c << 4u16) >> 4u16) & 1 == c,
        c <= 1 ==> ((c << 3u16) >> 3u16) & 1 == c,
        c <= 1 ==> ((c << 2u16) >> 2u16) & 1 == c,
        c <= 3 ==> c & 3 == c,
{
}

/// Every setting of every field reads back as itself from the bits it
/// encodes to; a conversion started through the status bit reads back as the
/// device being idle, and an idle status bit as a conversion in progress.
pub proof fn lemma_fields_round_trip(
    osw: OSW,
    mux: InputMultiplexer,
    pga: ProgramableGainAmplifier,
    mode: Mode,
    dr: DataRate,
    comp_mode: ComparatorMode,
    comp_pol: ComparatorPolarity,
    comp_lat: LatchingComparator,
    comp_que: ComparatorQueue,
)
    ensures
        OSR::spec_from_bits(osw.spec_bits()) == (if osw == OSW::StartConversion {
            OSR::DeviceIdle
        } else {
            OSR::PerformingConversion
        }),
        InputMultiplexer::spec_from_bits(mux.spec_bits()) == mux,
        ProgramableGainAmplifier::spec_from_bits(pga.spec_bits()) == pga,
        Mode::spec_from_bits(mode.spec_bits()) == mode,
        DataRate::spec_from_bits(dr.spec_bits()) == dr,
        ComparatorMode::spec_from_bits(comp_mode.spec_bits()) == comp_mode,
        ComparatorPolarity::spec_from_bits(comp_pol.spec_bits()) == comp_pol,
        LatchingComparator::spec_from_bits(comp_lat.spec_bits()) == comp_lat,
        ComparatorQueue::spec_from_bits(comp_que.spec_bits()) == comp_que,
{
    lemma_field_shift_round_trip(osw.code());
    lemma_field_shift_round_trip(mux.code());
    lemma_field_shift_round_trip(pga.code());
    lemma_field_shift_round_trip(mode.code());
    lemma_field_shift_round_trip(dr.code());
    lemma_field_shift_round_trip(comp_mode.code());
    lemma_field_shift_round_trip(comp_pol.code());
    lemma_field_shift_round_trip(comp_lat.code());
    lemma_field_shift_round_trip(comp_que.code());
}

/// The status bit of a word is clear exactly when its status field reads zero,
/// that is when the word is below 0x8000.
pub proof fn lemma_status_bit(w: u16)
    by (bit_vector)
    ensures
        (w & 0x8000 == 0) <==> ((w >> 15u16) & 1 == 0),
        (w & 0x8000 == 0) <==> (w < 0x8000),
{
}

/// A field value moved into its place is the value times the weight of the
/// field's lowest bit.
proof fn lemma_shift_is_scaling(c: u16)
    by (bit_vector)
    ensures
        c <= 1 ==> c << 15u16 == c * 0x8000,
        c <= 7 ==> c << 12u16 == c * 0x1000,
        c <= 7 ==> c << 9u16 == c * 0x200,
        c <= 1 ==> c << 8u16 == c * 0x100,
        c <= 7 ==> c << 5u16 == c * 0x20,
        c <= 1 ==> c << 4u16 == c * 0x10,
        c <= 1 ==> c << 3u16 == c * 0x8,
        c <= 1 ==> c << 2u16 == c * 0x4,
{
}

/// Each decoder reads its setting from its own bits of the word and from no
/// others: the code of the decoded setting is the value of those bits. The
/// status reports the device idle exactly when bit 15 is set, and a gain field
/// above the six codes the device defines reads as the last of them.
pub proof fn lemma_field_decoders(w: u16)
    ensures
        (OSR::spec_from_bits(w) == OSR::DeviceIdle) <==> (w & 0x8000 != 0),
        (OSR::spec_from_bits(w) == OSR::DeviceIdle) <==> (w >= 0x8000),
        InputMultiplexer::spec_from_bits(w).code() == (w >> 12u16) & 7,
        ProgramableGainAmplifier::spec_from_bits(w).code() == if (w >> 9u16) & 7 <= 5 {
            (w >> 9u16) & 7
        } else {
            5
        },
        Mode::spec_from_bits(w).code() == (w >> 8u16) & 1,
        DataRate::spec_from_bits(w).code() == (w >> 5u16) & 7,
        ComparatorMode::spec_from_bits(w).code() == (w >> 4u16) & 1,
        ComparatorPolarity::spec_from_bits(w).code() == (w >> 3u16) & 1,
        LatchingComparator::spec_from_bits(w).code() == (w >> 2u16) & 1,
        ComparatorQueue::spec_from_bits(w).code() == w & 3,
{
    lemma_status_bit(w);
    lemma_masked_bounds(w >> 15u16);
    lemma_masked_bounds(w >> 12u16);
    lemma_masked_bounds(w >> 9u16);
    lemma_masked_bounds(w >> 8u16);
    lemma_masked_bounds(w >> 5u16);
    lemma_masked_bounds(w >> 4u16);
    lemma_masked_bounds(w >> 3u16);
    lemma_masked_bounds(w >> 2u16);
    lemma_masked_bounds(w);
}

/// Each encoder places the code of its setting at its field and nothing
/// elsewhere: the bits are the code times the weight of the field's lowest bit,
/// and the code fits in the field.
pub proof fn lemma_field_encoders(
    osw: OSW,
    mux: InputMultiplexer,
    pga: ProgramableGainAmplifier,
    mode: Mode,
    dr: DataRate,
    comp_mode: ComparatorMode,
    comp_pol: ComparatorPolarity,
    comp_lat: LatchingComparator,
    comp_que: ComparatorQueue,
)
    ensures
        osw.code() <= 1 && osw.spec_bits() == osw.code() * 0x8000,
        mux.code() <= 7 && mux.spec_bits() == mux.code() * 0x1000,
        pga.code() <= 5 && pga.spec_bits() == pga.code() * 0x200,
        mode.code() <= 1 && mode.spec_bits() == mode.code() * 0x100,
        dr.code() <= 7 && dr.spec_bits() == dr.code() * 0x20,
        comp_mode.code() <= 1 && comp_mode.spec_bits() == comp_mode.code() * 0x10,
        comp_pol.code() <= 1 && comp_pol.spec_bits() == comp_pol.code() * 0x8,
        comp_lat.code() <= 1 && comp_lat.spec_bits() == comp_lat.code() * 0x4,
        comp_que.code() <= 3 && comp_que.spec_bits() == comp_que.code(),
{
    lemma_shift_is_scaling(osw.code());
    lemma_shift_is_scaling(mux.code());
    lemma_shift_is_scaling(pga.code());
    lemma_shift_is_scaling(mode.code());
    lemma_shift_is_scaling(dr.code());
    lemma_shift_is_scaling(comp_mode.code());
    lemma_shift_is_scaling(comp_pol.code());
    lemma_shift_is_scaling(comp_lat.code());
}

/// The datasheet's table of the config register: the bits that every setting of
/// every field puts in the register word.
pub proof fn lemma_datasheet_encoding()
    ensures
        OSW::StartConversion.spec_bits() == 0x8000,
        OSW::Idle.spec_bits() == 0x0000,
        InputMultiplexer::AIN0AIN1.spec_bits() == 0x0000,
        InputMultiplexer::AIN0AIN3.spec_bits() == 0x1000,
        InputMultiplexer::AIN1AIN3.spec_bits() == 0x2000,
        InputMultiplexer::AIN2AIN3.spec_bits() == 0x3000,
        InputMultiplexer::AIN0GND.spec_bits() == 0x4000,
        InputMultiplexer::AIN1GND.spec_bits() == 0x5000,
        InputMultiplexer::AIN2GND.spec_bits() == 0x6000,
        InputMultiplexer::AIN3GND.spec_bits() == 0x7000,
        ProgramableGainAmplifier::V6_144.spec_bits() == 0x0000,
        ProgramableGainAmplifier::V4_096.spec_bits() == 0x0200,
        ProgramableGainAmplifier::V2_048.spec_bits() == 0x0400,
        ProgramableGainAmplifier::V1_024.spec_bits() == 0x0600,
        ProgramableGainAmplifier::V0_512.spec_bits() == 0x0800,
        ProgramableGainAmplifier::V0_256.spec_bits() == 0x0a00,
        Mode::Continuous.spec_bits() == 0x0000,
        Mode::Signle.spec_bits() == 0x0100,
        DataRate::SPS8.spec_bits() == 0x0000,
        DataRate::SPS16.spec_bits() == 0x0020,
        DataRate::SPS32.spec_bits() == 0x0040,
        DataRate::SPS64.spec_bits() == 0x0060,
        DataRate::SPS128.spec_bits() == 0x0080,
        DataRate::SPS250.spec_bits() == 0x00a0,
        DataRate::SPS475.spec_bits() == 0x00c0,
        DataRate::SPS860.spec_bits() == 0x00e0,
        ComparatorMode::Traditional.spec_bits() == 0x0000,
        ComparatorMode::Window.spec_bits() == 0x0010,
        ComparatorPolarity::ActiveLow.spec_bits() == 0x0000,
        ComparatorPolarity::ActiveHigh.spec_bits() == 0x0008,
        LatchingComparator::NonLatching.spec_bits() == 0x0000,
        LatchingComparator::Latching.spec_bits() == 0x0004,
        ComparatorQueue::AsserAfterOne.spec_bits() == 0x0000,
        ComparatorQueue::AsserAfterTwo.spec_bits() == 0x0001,
        ComparatorQueue::AsserAfterFour.spec_bits() == 0x0002,
        ComparatorQueue::Disable.spec_bits() == 0x0003,
{
    lemma_shift_is_scaling(0);
    lemma_shift_is_scaling(1);
    lemma_shift_is_scaling(2);
    lemma_shift_is_scaling(3);
    lemma_shift_is_scaling(4);
    lemma_shift_is_scaling(5);
    lemma_shift_is_scaling(6);
    lemma_shift_is_scaling(7);
}

/// The full-scale ranges of the gain settings: the code-0 setting spans
/// ±6.144 V, the code-1 setting ±4.096 V, and each further code halves the
/// range of the one before.
pub proof fn lemma_full_scale_ranges(c: u16)
    ensures
        ProgramableGainAmplifier::from_code(0).spec_full_scale_millivolts() == 6144,
        ProgramableGainAmplifier::from_code(1).spec_full_scale_millivolts() == 4096,
        1 <= c <= 4 ==> ProgramableGainAmplifier::from_code(
            (c + 1) as u16,
        ).spec_full_scale_millivolts() * 2 == ProgramableGainAmplifier::from_code(
            c,
        ).spec_full_scale_millivolts(),
        ProgramableGainAmplifier::from_code(c).code() == if c <= 5 {
            c
        } else {
            5
        },
{
}

} // verus!
