use vstd::prelude::*;

use crate::bytes::{be_value, u16_from_be_bytes};
use crate::fields::{
    lemma_cleared_fields, lemma_field_decoders, lemma_masked_bounds, lemma_status_bit,
    ComparatorMode, ComparatorPolarity, ComparatorQueue, DataRate, InputMultiplexer,
    LatchingComparator, Mode, ProgramableGainAmplifier, OSR, OSW,
};

verus! {

/// The settings of the config register of an ADS111x.
#[derive(Debug, Clone, Copy, PartialEq, Eq)]
pub struct ADS111xConfig {
    osw: OSW,
    osr: OSR,
    mux: InputMultiplexer,
    pga: ProgramableGainAmplifier,
    mode: Mode,
    dr: DataRate,
    comp_mode: ComparatorMode,
    comp_pol: ComparatorPolarity,
    comp_lat: LatchingComparator,
    comp_que: ComparatorQueue,
}

/// The settings that a config value stands for, field by field.
#[derive(Debug, Clone, Copy, PartialEq, Eq)]
pub struct ConfigModel {
    pub osw: OSW,
    pub osr: OSR,
    pub mux: InputMultiplexer,
    pub pga: ProgramableGainAmplifier,
    pub mode: Mode,
    pub dr: DataRate,
    pub comp_mode: ComparatorMode,
    pub comp_pol: ComparatorPolarity,
    pub comp_lat: LatchingComparator,
    pub comp_que: ComparatorQueue,
}

/// Bits 14:0 of a config register word: all but the operational status.
pub open spec fn settings_mask() -> u16 {
    0x7fff
}

impl ConfigModel {
    /// The register word that holds these settings. The read-only status is not part of it.
    pub open spec fn spec_bits(self) -> u16 {
        self.osw.spec_bits() | self.mux.spec_bits() | self.pga.spec_bits() | self.mode.spec_bits()
            | self.dr.spec_bits() | self.comp_mode.spec_bits() | self.comp_pol.spec_bits()
            | self.comp_lat.spec_bits() | self.comp_que.spec_bits()
    }

    /// The settings that a register word read from the device holds. The status
    /// bit is read into the status; the status to write is left idle.
    pub open spec fn spec_from_bits(bits: u16) -> Self {
        ConfigModel {
            osr: OSR::spec_from_bits(bits),
            osw: OSW::Idle,
            mux: InputMultiplexer::spec_from_bits(bits),
            pga: ProgramableGainAmplifier::spec_from_bits(bits),
            mode: Mode::spec_from_bits(bits),
            dr: DataRate::spec_from_bits(bits),
            comp_mode: ComparatorMode::spec_from_bits(bits),
            comp_pol: ComparatorPolarity::spec_from_bits(bits),
            comp_lat: LatchingComparator::spec_from_bits(bits),
            comp_que: ComparatorQueue::spec_from_bits(bits),
        }
    }
}

impl View for ADS111xConfig {
    type V = ConfigModel;

    closed spec fn view(&self) -> ConfigModel {
        ConfigModel {
            osw: self.osw,
            osr: self.osr,
            mux: self.mux,
            pga: self.pga,
            mode: self.mode,
            dr: self.dr,
            comp_mode: self.comp_mode,
            comp_pol: self.comp_pol,
            comp_lat: self.comp_lat,
            comp_que: self.comp_que,
        }
    }
}

impl ADS111xConfig {
    pub fn bits(&self) -> (r: u16)
        ensures
            r == self@.spec_bits(),
            (r >> 15u16) & 1 == self@.osw.code(),
            (r >> 12u16) & 7 == self@.mux.code(),
            (r >> 9u16) & 7 == self@.pga.code(),
            (r >> 8u16) & 1 == self@.mode.code(),
            (r >> 5u16) & 7 == self@.dr.code(),
            (r >> 4u16) & 1 == self@.comp_mode.code(),
            (r >> 3u16) & 1 == self@.comp_pol.code(),
            (r >> 2u16) & 1 == self@.comp_lat.code(),
            r & 3 == self@.comp_que.code(),
    {
        let r = self.osw.bits() | self.mux.bits() | self.pga.bits() | self.mode.bits()
            | self.dr.bits() | self.comp_mode.bits() | self.comp_pol.bits() | self.comp_lat.bits()
            | self.comp_que.bits();
        proof {
            lemma_config_word_layout(self@);
        }
        r
    }

    pub fn from_bits(bits: u16) -> (r: Self)
        ensures
            r@ == ConfigModel::spec_from_bits(bits),
            r@.osw == OSW::Idle,
            (r@.osr == OSR::DeviceIdle) <==> (bits & 0x8000 != 0),
            r@.mux.code() == (bits >> 12u16) & 7,
            r@.pga.code() == kept_gain_code(bits),
            r@.mode.code() == (bits >> 8u16) & 1,
            r@.dr.code() == (bits >> 5u16) & 7,
            r@.comp_mode.code() == (bits >> 4u16) & 1,
            r@.comp_pol.code() == (bits >> 3u16) & 1,
            r@.comp_lat.code() == (bits >> 2u16) & 1,
            r@.comp_que.code() == bits & 3,
    {
        proof {
            lemma_config_decode_fields(bits);
        }
        ADS111xConfig {
            osr: OSR::from_bits(bits),
            osw: OSW::default(),
            mux: InputMultiplexer::from_bits(bits),
            pga: ProgramableGainAmplifier::from_bits(bits),
            mode: Mode::from_bits(bits),
            dr: DataRate::from_bits(bits),
            comp_mode: ComparatorMode::from_bits(bits),
            comp_pol: ComparatorPolarity::from_bits(bits),
            comp_lat: LatchingComparator::from_bits(bits),
            comp_que: ComparatorQueue::from_bits(bits),
        }
    }

    /// The settings with the status to write replaced.
    pub(crate) fn with_osw(self, osw: OSW) -> (r: Self)
        ensures
            r@ == (ConfigModel { osw, ..self@ }),
    {
        let mut config = self;
        config.osw = osw;
        config
    }

    /// The gain setting.
    pub(crate) fn gain(&self) -> (r: ProgramableGainAmplifier)
        ensures
            r == self@.pga,
    {
        self.pga
    }

    /// The settings held by the two bytes of a config register read from the
    /// device, most significant first.
    pub fn from_register_bytes(bytes: [u8; 2]) -> (r: Self)
        ensures
            r@ == ConfigModel::spec_from_bits(be_value(bytes[0], bytes[1]) as u16),
            (r@.osr == OSR::DeviceIdle) <==> (bytes[0] >= 0x80),
    {
        proof {
            lemma_field_decoders(be_value(bytes[0], bytes[1]) as u16);
        }
        Self::from_bits(u16_from_be_bytes(bytes))
    }

    /// Whether the status read with these settings reports the device idle, with
    /// no conversion in progress.
    pub fn conversion_ready(&self) -> (r: bool)
        ensures
            r == (self@.osr == OSR::DeviceIdle),
    {
        match self.osr {
            OSR::DeviceIdle => true,
            OSR::PerformingConversion => false,
        }
    }

    /// Use this function to configure a *single* MUX to read by default
    /// If you want to read multiple MUXs, pass them to `read_single_voltage` instead
    pub fn mux(self, mux: InputMultiplexer) -> (r: Self)
        ensures
            r@ == (ConfigModel { mux: mux, ..self@ }),
    {
        let mut config = self;
        config.mux = mux;
        config
    }

    pub fn pga(self, pga: ProgramableGainAmplifier) -> (r: Self)
        ensures
            r@ == (ConfigModel { pga: pga, ..self@ }),
    {
        let mut config = self;
        config.pga = pga;
        config
    }

    pub fn mode(self, mode: Mode) -> (r: Self)
        ensures
            r@ == (ConfigModel { mode: mode, ..self@ }),
    {
        let mut config = self;
        config.mode = mode;
        config
    }

    pub fn dr(self, dr: DataRate) -> (r: Self)
        ensures
            r@ == (ConfigModel { dr: dr, ..self@ }),
    {
        let mut config = self;
        config.dr = dr;
        config
    }

    pub fn comp_mode(self, cm: ComparatorMode) -> (r: Self)
        ensures
            r@ == (ConfigModel { comp_mode: cm, ..self@ }),
    {
        let mut config = self;
        config.comp_mode = cm;
        config
    }

    pub fn comp_pol(self, cp: ComparatorPolarity) -> (r: Self)
        ensures
            r@ == (ConfigModel { comp_pol: cp, ..self@ }),
    {
        let mut config = self;
        config.comp_pol = cp;
        config
    }

    pub fn comp_lat(self, cl: LatchingComparator) -> (r: Self)
        ensures
            r@ == (ConfigModel { comp_lat: cl, ..self@ }),
    {
        let mut config = self;
        config.comp_lat = cl;
        config
    }

    pub fn comp_que(self, cq: ComparatorQueue) -> (r: Self)
        ensures
            r@ == (ConfigModel { comp_que: cq, ..self@ }),
    {
        let mut config = self;
        config.comp_que = cq;
        config
    }
}

impl Default for ADS111xConfig {
    fn default() -> (r: Self)
        ensures
            r@ == (ConfigModel {
                osw: OSW::Idle,
                osr: OSR::DeviceIdle,
                mux: InputMultiplexer::AIN0AIN1,
                pga: ProgramableGainAmplifier::V2_048,
                mode: Mode::Signle,
                dr: DataRate::SPS128,
                comp_mode: ComparatorMode::Traditional,
                comp_pol: ComparatorPolarity::ActiveLow,
                comp_lat: LatchingComparator::NonLatching,
                comp_que: ComparatorQueue::Disable,
            }),
    {
        ADS111xConfig {
            osw: OSW::default(),
            osr: OSR::default(),
            mux: InputMultiplexer::default(),
            pga: ProgramableGainAmplifier::default(),
            mode: Mode::default(),
            dr: DataRate::default(),
            comp_mode: ComparatorMode::default(),
            comp_pol: ComparatorPolarity::default(),
            comp_lat: LatchingComparator::default(),
            comp_que: ComparatorQueue::default(),
        }
    }
}

/// Fields placed side by side in a register word are read back one by one.
proof fn lemma_fields_disjoint(
    a: u16,
    b: u16,
    c: u16,
    d: u16,
    e: u16,
    f: u16,
    g: u16,
    h: u16,
    i: u16,
    w: u16,
)
    by (bit_vector)
    requires
        a <= 1,
        b <= 7,
        c <= 7,
        d <= 1,
        e <= 7,
        f <= 1,
        g <= 1,
        h <= 1,
        i <= 3,
        w == a << 15u16 | b << 12u16 | c << 9u16 | d << 8u16 | e << 5u16 | f << 4u16 | g << 3u16
            | h << 2u16 | i,
    ensures
        (w >> 15u16) & 1 == a,
        (w >> 12u16) & 7 == b,
        (w >> 9u16) & 7 == c,
        (w >> 8u16) & 1 == d,
        (w >> 5u16) & 7 == e,
        (w >> 4u16) & 1 == f,
        (w >> 3u16) & 1 == g,
        (w >> 2u16) & 1 == h,
        w & 3 == i,
        w == a * 0x8000 + b * 0x1000 + c * 0x200 + d * 0x100 + e * 0x20 + f * 0x10 + g * 0x8 + h
            * 0x4 + i,
{
}

/// Reading every field but the status and the gain out of a word and putting
/// them back together with a gain code gives the word without its status bit
/// and with that gain code.
proof fn lemma_fields_reassemble(w: u16, p: u16)
    by (bit_vector)
    requires
        p <= 7,
    ensures
        0u16 | ((w >> 12u16) & 7) << 12u16 | p << 9u16 | ((w >> 8u16) & 1) << 8u16 | ((w >> 5u16)
            & 7) << 5u16 | ((w >> 4u16) & 1) << 4u16 | ((w >> 3u16) & 1) << 3u16 | ((w >> 2u16)
            & 1) << 2u16 | (w & 3) == (w & 0x71ff) | p << 9u16,
        (w & 0x71ff) | ((w >> 9u16) & 7) << 9u16 == w & 0x7fff,
{
}

/// Decoding the word that a configuration encodes to gives back every setting.
/// The status to write comes back idle, and the status read reports the device
/// idle exactly when the encoded configuration started a conversion.
pub proof fn lemma_config_round_trip(c: ConfigModel)
    ensures
        ConfigModel::spec_from_bits(c.spec_bits()) == (ConfigModel {
            osw: OSW::Idle,
            osr: if c.osw == OSW::StartConversion {
                OSR::DeviceIdle
            } else {
                OSR::PerformingConversion
            },
            ..c
        }),
{
    lemma_fields_disjoint(
        c.osw.code(),
        c.mux.code(),
        c.pga.code(),
        c.mode.code(),
        c.dr.code(),
        c.comp_mode.code(),
        c.comp_pol.code(),
        c.comp_lat.code(),
        c.comp_que.code(),
        c.spec_bits(),
    );
}

/// The word of every configuration carries one of the six gain codes the
/// device defines, and carries the start bit exactly when the configuration
/// starts a conversion. The default configuration, every decoded one and every
/// one that the builders make from these leave the status to write idle, so
/// their words never carry the start bit.
pub proof fn lemma_config_word_fields(c: ConfigModel)
    ensures
        (c.spec_bits() >> 9u16) & 7 <= 5,
        (c.spec_bits() & 0x8000 == 0) <==> c.osw == OSW::Idle,
{
    lemma_fields_disjoint(
        c.osw.code(),
        c.mux.code(),
        c.pga.code(),
        c.mode.code(),
        c.dr.code(),
        c.comp_mode.code(),
        c.comp_pol.code(),
        c.comp_lat.code(),
        c.comp_que.code(),
        c.spec_bits(),
    );
    lemma_status_bit(c.spec_bits());
}

/// The word of a configuration holds the datasheet code of each setting in the
/// setting's own bits: bit 15 the status to write, bits 14:12 the input, 11:9
/// the gain, 8 the mode, 7:5 the data rate, 4 the comparator mode, 3 its
/// polarity, 2 its latching and 1:0 its queue. As a number the word is the sum
/// of each code times the weight of its field's lowest bit.
pub proof fn lemma_config_word_layout(c: ConfigModel)
    ensures
        (c.spec_bits() >> 15u16) & 1 == c.osw.code(),
        (c.spec_bits() >> 12u16) & 7 == c.mux.code(),
        (c.spec_bits() >> 9u16) & 7 == c.pga.code(),
        (c.spec_bits() >> 8u16) & 1 == c.mode.code(),
        (c.spec_bits() >> 5u16) & 7 == c.dr.code(),
        (c.spec_bits() >> 4u16) & 1 == c.comp_mode.code(),
        (c.spec_bits() >> 3u16) & 1 == c.comp_pol.code(),
        (c.spec_bits() >> 2u16) & 1 == c.comp_lat.code(),
        c.spec_bits() & 3 == c.comp_que.code(),
        c.spec_bits() == c.osw.code() * 0x8000 + c.mux.code() * 0x1000 + c.pga.code() * 0x200
            + c.mode.code() * 0x100 + c.dr.code() * 0x20 + c.comp_mode.code() * 0x10
            + c.comp_pol.code() * 0x8 + c.comp_lat.code() * 0x4 + c.comp_que.code(),
{
    lemma_fields_disjoint(
        c.osw.code(),
        c.mux.code(),
        c.pga.code(),
        c.mode.code(),
        c.dr.code(),
        c.comp_mode.code(),
        c.comp_pol.code(),
        c.comp_lat.code(),
        c.comp_que.code(),
        c.spec_bits(),
    );
}

/// Decoding a register word reads each setting from its own bits: the code of
/// every decoded setting is the value of its field in the word, the gain codes
/// above the six the device defines reading as the last of them. The status read
/// reports the device idle exactly when bit 15 is set, and the status to write
/// is idle.
pub proof fn lemma_config_decode_fields(w: u16)
    ensures
        ConfigModel::spec_from_bits(w).osw == OSW::Idle,
        (ConfigModel::spec_from_bits(w).osr == OSR::DeviceIdle) <==> (w & 0x8000 != 0),
        ConfigModel::spec_from_bits(w).mux.code() == (w >> 12u16) & 7,
        ConfigModel::spec_from_bits(w).pga.code() == kept_gain_code(w),
        ConfigModel::spec_from_bits(w).mode.code() == (w >> 8u16) & 1,
        ConfigModel::spec_from_bits(w).dr.code() == (w >> 5u16) & 7,
        ConfigModel::spec_from_bits(w).comp_mode.code() == (w >> 4u16) & 1,
        ConfigModel::spec_from_bits(w).comp_pol.code() == (w >> 3u16) & 1,
        ConfigModel::spec_from_bits(w).comp_lat.code() == (w >> 2u16) & 1,
        ConfigModel::spec_from_bits(w).comp_que.code() == w & 3,
{
    lemma_field_decoders(w);
}

/// The gain code that decoding a register word keeps: the six codes the device
/// defines stay, the two codes above them read as the last one.
pub open spec fn kept_gain_code(w: u16) -> u16 {
    if (w >> 9u16) & 7 <= 5 {
        (w >> 9u16) & 7
    } else {
        5
    }
}

/// A register word decoded and encoded again comes back without its status bit,
/// and with a gain code above the six the device defines replaced by the last
/// of them. Every word whose gain field holds one of those six codes comes back
/// without its status bit and otherwise unchanged.
pub proof fn lemma_register_word_round_trip(w: u16)
    ensures
        ConfigModel::spec_from_bits(w).spec_bits() == (w & 0x71ff) | kept_gain_code(w) << 9u16,
        (w >> 9u16) & 7 <= 5 ==> ConfigModel::spec_from_bits(w).spec_bits() == w & settings_mask(),
{
    lemma_cleared_fields();
    lemma_masked_bounds(w >> 12u16);
    lemma_masked_bounds(w >> 9u16);
    lemma_masked_bounds(w >> 8u16);
    lemma_masked_bounds(w >> 5u16);
    lemma_masked_bounds(w >> 4u16);
    lemma_masked_bounds(w >> 3u16);
    lemma_masked_bounds(w >> 2u16);
    lemma_masked_bounds(w);
    lemma_fields_reassemble(w, kept_gain_code(w));
}

} // verus!
