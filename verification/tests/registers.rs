use ads111x::bytes::{i16_from_be_bytes, i16_to_be_bytes, u16_from_be_bytes, u16_to_be_bytes};
use ads111x::{
    ADS111xConfig, ComparatorMode, ComparatorPolarity, ComparatorQueue, DataRate, InputMultiplexer,
    LatchingComparator, Mode, ProgramableGainAmplifier, OSR, OSW,
};

const MUXES: [InputMultiplexer; 8] = [
    InputMultiplexer::AIN0AIN1,
    InputMultiplexer::AIN0AIN3,
    InputMultiplexer::AIN1AIN3,
    InputMultiplexer::AIN2AIN3,
    InputMultiplexer::AIN0GND,
    InputMultiplexer::AIN1GND,
    InputMultiplexer::AIN2GND,
    InputMultiplexer::AIN3GND,
];

const GAINS: [ProgramableGainAmplifier; 6] = [
    ProgramableGainAmplifier::V6_144,
    ProgramableGainAmplifier::V4_096,
    ProgramableGainAmplifier::V2_048,
    ProgramableGainAmplifier::V1_024,
    ProgramableGainAmplifier::V0_512,
    ProgramableGainAmplifier::V0_256,
];

const RATES: [DataRate; 8] = [
    DataRate::SPS8,
    DataRate::SPS16,
    DataRate::SPS32,
    DataRate::SPS64,
    DataRate::SPS128,
    DataRate::SPS250,
    DataRate::SPS475,
    DataRate::SPS860,
];

const QUEUES: [ComparatorQueue; 4] = [
    ComparatorQueue::AsserAfterOne,
    ComparatorQueue::AsserAfterTwo,
    ComparatorQueue::AsserAfterFour,
    ComparatorQueue::Disable,
];

#[test]
fn mux_bits_follow_the_datasheet_table() {
    let expected: [u16; 8] = [0x0000, 0x1000, 0x2000, 0x3000, 0x4000, 0x5000, 0x6000, 0x7000];
    for (m, e) in MUXES.iter().zip(expected.iter()) {
        assert_eq!(m.bits(), *e);
        assert_eq!(InputMultiplexer::from_bits(*e), *m);
    }
}

#[test]
fn gain_bits_follow_the_datasheet_table() {
    let expected: [u16; 6] = [0x0000, 0x0200, 0x0400, 0x0600, 0x0800, 0x0a00];
    for (g, e) in GAINS.iter().zip(expected.iter()) {
        assert_eq!(g.bits(), *e);
        assert_eq!(ProgramableGainAmplifier::from_bits(*e), *g);
    }
}

#[test]
fn gain_codes_above_five_decode_to_the_smallest_range() {
    assert_eq!(ProgramableGainAmplifier::from_bits(0x0c00), ProgramableGainAmplifier::V0_256);
    assert_eq!(ProgramableGainAmplifier::from_bits(0x0e00), ProgramableGainAmplifier::V0_256);
}

#[test]
fn gain_full_scale_ranges() {
    let expected: [u16; 6] = [6144, 4096, 2048, 1024, 512, 256];
    for (g, e) in GAINS.iter().zip(expected.iter()) {
        assert_eq!(g.full_scale_millivolts(), *e);
    }
}

#[test]
fn rate_bits_follow_the_datasheet_table() {
    for (i, r) in RATES.iter().enumerate() {
        let e = (i as u16) << 5;
        assert_eq!(r.bits(), e);
        assert_eq!(DataRate::from_bits(e), *r);
    }
}

#[test]
fn queue_bits_follow_the_datasheet_table() {
    for (i, q) in QUEUES.iter().enumerate() {
        assert_eq!(q.bits(), i as u16);
        assert_eq!(ComparatorQueue::from_bits(i as u16), *q);
    }
}

#[test]
fn single_bit_fields() {
    assert_eq!(OSW::StartConversion.bits(), 0x8000);
    assert_eq!(OSW::Idle.bits(), 0);
    assert_eq!(OSR::from_bits(0x8000), OSR::DeviceIdle);
    assert_eq!(OSR::from_bits(0x7fff), OSR::PerformingConversion);
    assert_eq!(OSR::from_bits(OSW::StartConversion.bits()), OSR::DeviceIdle);
    assert_eq!(OSR::from_bits(OSW::Idle.bits()), OSR::PerformingConversion);
    assert_eq!(Mode::Signle.bits(), 0x0100);
    assert_eq!(Mode::Continuous.bits(), 0);
    assert_eq!(Mode::from_bits(0x0100), Mode::Signle);
    assert_eq!(Mode::from_bits(0xfeff), Mode::Continuous);
    assert_eq!(ComparatorMode::Window.bits(), 0x0010);
    assert_eq!(ComparatorMode::from_bits(0x0010), ComparatorMode::Window);
    assert_eq!(ComparatorMode::from_bits(0xffef), ComparatorMode::Traditional);
    assert_eq!(ComparatorPolarity::ActiveHigh.bits(), 0x0008);
    assert_eq!(ComparatorPolarity::from_bits(0x0008), ComparatorPolarity::ActiveHigh);
    assert_eq!(ComparatorPolarity::from_bits(0xfff7), ComparatorPolarity::ActiveLow);
    assert_eq!(LatchingComparator::Latching.bits(), 0x0004);
    assert_eq!(LatchingComparator::from_bits(0x0004), LatchingComparator::Latching);
    assert_eq!(LatchingComparator::from_bits(0xfffb), LatchingComparator::NonLatching);
}

#[test]
fn decoders_read_only_their_own_field() {
    assert_eq!(InputMultiplexer::from_bits(0x8fff), InputMultiplexer::AIN0AIN1);
    assert_eq!(InputMultiplexer::from_bits(0xffff), InputMultiplexer::AIN3GND);
    assert_eq!(DataRate::from_bits(0xff1f), DataRate::SPS8);
    assert_eq!(ComparatorQueue::from_bits(0xfffc), ComparatorQueue::AsserAfterOne);
}

#[test]
fn field_defaults() {
    assert_eq!(OSW::default(), OSW::Idle);
    assert_eq!(OSR::default(), OSR::DeviceIdle);
    assert_eq!(InputMultiplexer::default(), InputMultiplexer::AIN0AIN1);
    assert_eq!(ProgramableGainAmplifier::default(), ProgramableGainAmplifier::V2_048);
    assert_eq!(Mode::default(), Mode::Signle);
    assert_eq!(DataRate::default(), DataRate::SPS128);
    assert_eq!(ComparatorMode::default(), ComparatorMode::Traditional);
    assert_eq!(ComparatorPolarity::default(), ComparatorPolarity::ActiveLow);
    assert_eq!(LatchingComparator::default(), LatchingComparator::NonLatching);
    assert_eq!(ComparatorQueue::default(), ComparatorQueue::Disable);
}

#[test]
fn default_config_word() {
    assert_eq!(ADS111xConfig::default().bits(), 0x0583);
}

#[test]
fn builders_set_their_field() {
    let c = ADS111xConfig::default()
        .mux(InputMultiplexer::AIN3GND)
        .pga(ProgramableGainAmplifier::V6_144)
        .mode(Mode::Continuous)
        .dr(DataRate::SPS860)
        .comp_mode(ComparatorMode::Window)
        .comp_pol(ComparatorPolarity::ActiveHigh)
        .comp_lat(LatchingComparator::Latching)
        .comp_que(ComparatorQueue::AsserAfterOne);
    assert_eq!(c.bits(), 0x7000 | 0x0000 | 0x0000 | 0x00e0 | 0x0010 | 0x0008 | 0x0004);
}

#[test]
fn builder_leaves_other_fields() {
    let c = ADS111xConfig::default().dr(DataRate::SPS8);
    assert_eq!(c.bits(), 0x0503);
    let c = ADS111xConfig::default().comp_que(ComparatorQueue::AsserAfterFour);
    assert_eq!(c.bits(), 0x0582);
}

#[test]
fn config_decodes_what_it_encodes() {
    for m in MUXES.iter() {
        for g in GAINS.iter() {
            for r in RATES.iter() {
                let c = ADS111xConfig::from_bits(0x0000).mux(*m).pga(*g).dr(*r).mode(Mode::Signle);
                let back = ADS111xConfig::from_bits(c.bits());
                assert_eq!(back.bits(), c.bits());
                assert_eq!(back, c);
                assert!(!back.conversion_ready());
            }
        }
    }
}

#[test]
fn config_words_survive_decoding() {
    let mut w: u32 = 0;
    while w <= 0xffff {
        let word = w as u16;
        let gain = (word >> 9) & 7;
        let back = ADS111xConfig::from_bits(word).bits();
        if gain <= 5 {
            assert_eq!(back, word & 0x7fff);
        } else {
            assert_eq!(back, (word & 0x71ff) | 0x0a00);
        }
        w += 1;
    }
}

#[test]
fn decoded_status_bit() {
    assert!(ADS111xConfig::from_bits(0x8583).conversion_ready());
    assert!(!ADS111xConfig::from_bits(0x0583).conversion_ready());
    assert!(ADS111xConfig::default().conversion_ready());
    assert!(ADS111xConfig::from_register_bytes([0x85, 0x83]).conversion_ready());
    assert_eq!(ADS111xConfig::from_register_bytes([0x85, 0x83]).bits(), 0x0583);
}

#[test]
fn big_endian_words() {
    assert_eq!(u16_to_be_bytes(0x1234), [0x12, 0x34]);
    assert_eq!(u16_from_be_bytes([0x12, 0x34]), 0x1234);
    for w in [0u16, 1, 0xff, 0x100, 0x8000, 0xffff] {
        assert_eq!(u16_from_be_bytes(u16_to_be_bytes(w)), w);
        assert_eq!(u16_to_be_bytes(w), w.to_be_bytes());
    }
}

#[test]
fn big_endian_signed_values() {
    assert_eq!(i16_to_be_bytes(-1), [0xff, 0xff]);
    assert_eq!(i16_to_be_bytes(-32768), [0x80, 0x00]);
    assert_eq!(i16_to_be_bytes(32767), [0x7f, 0xff]);
    assert_eq!(i16_from_be_bytes([0xff, 0xfe]), -2);
    assert_eq!(i16_from_be_bytes([0x7f, 0xff]), 32767);
    for v in [i16::MIN, -12345, -1, 0, 1, 12345, i16::MAX] {
        assert_eq!(i16_from_be_bytes(i16_to_be_bytes(v)), v);
        assert_eq!(i16_to_be_bytes(v), v.to_be_bytes());
        assert_eq!(i16_from_be_bytes(v.to_be_bytes()), i16::from_be_bytes(v.to_be_bytes()));
    }
}

#[test]
fn built_configs_never_carry_the_start_bit() {
    let mut w: u32 = 0;
    while w <= 0xffff {
        let c = ADS111xConfig::from_bits(w as u16);
        assert_eq!(c.bits() & 0x8000, 0);
        assert!((c.bits() >> 9) & 7 <= 5);
        let b = c.mux(InputMultiplexer::AIN1GND).pga(ProgramableGainAmplifier::V0_256).bits();
        assert_eq!(b & 0x8000, 0);
        assert!((b >> 9) & 7 <= 5);
        w += 1;
    }
    assert_eq!(ADS111xConfig::default().bits() & 0x8000, 0);
}
