use ads111x::{
    conversion_pending, ADS111x, ADS111xConfig, ADSError, DataRate, InputMultiplexer,
    ProgramableGainAmplifier, SingleShotStep, CONFIG_REGISTER, CONVERSION_REGISTER, HI_THRESH_REGISTER,
    LO_THRESH_REGISTER,
};

#[derive(Debug, PartialEq)]
struct Bus(u32);

fn driver(address: u8) -> ADS111x<Bus> {
    ADS111x::new(Bus(7), address, ADS111xConfig::default()).unwrap()
}

#[test]
fn register_pointers() {
    assert_eq!(CONVERSION_REGISTER, 0);
    assert_eq!(CONFIG_REGISTER, 1);
    assert_eq!(LO_THRESH_REGISTER, 2);
    assert_eq!(HI_THRESH_REGISTER, 3);
}

#[test]
fn check_address_accepts_the_four_addresses() {
    for a in 0u8..=255 {
        let r = ADS111x::<Bus>::check_address(a);
        if (0x48..=0x4b).contains(&a) {
            assert_eq!(r, Ok(()));
        } else {
            assert_eq!(r, Err(ADSError::WrongAddress));
        }
    }
}

#[test]
fn new_refuses_a_wrong_address() {
    let r = ADS111x::new(Bus(1), 0x47, ADS111xConfig::default());
    assert!(matches!(r, Err(ADSError::WrongAddress)));
}

#[test]
fn destroy_returns_the_bus() {
    let d = ADS111x::new(Bus(42), 0x49, ADS111xConfig::default()).unwrap();
    assert_eq!(d.destroy(), Bus(42));
}

#[test]
fn config_write_sends_the_config_with_idle_status() {
    let mut d = driver(0x48);
    let w = d.config_write(None);
    assert_eq!(w.address, 0x48);
    assert_eq!(w.bytes, [CONFIG_REGISTER, 0x05, 0x83]);
    let c = ADS111xConfig::default().mux(InputMultiplexer::AIN1GND).dr(DataRate::SPS860);
    let w = d.config_write(Some(c));
    assert_eq!(w.bytes, [CONFIG_REGISTER, 0x55, 0xe3]);
    let again = d.config_write(None);
    assert_eq!(again.bytes, w.bytes);
}

#[test]
fn config_write_clears_a_started_conversion() {
    let mut d = driver(0x4b);
    let s = d.single_shot_start(None, None).unwrap();
    assert_eq!(s.bytes, [CONFIG_REGISTER, 0x85, 0x83]);
    let w = d.config_write(None);
    assert_eq!(w.bytes, [CONFIG_REGISTER, 0x05, 0x83]);
}

#[test]
fn config_read_points_at_the_config_register() {
    let mut d = driver(0x4a);
    let r = d.config_read();
    assert_eq!(r.address, 0x4a);
    assert_eq!(r.pointer, [CONFIG_REGISTER]);
}

#[test]
fn single_shot_switches_address_and_input() {
    let mut d = driver(0x48);
    let w = d.single_shot_start(Some(0x49), Some(InputMultiplexer::AIN2GND)).unwrap();
    assert_eq!(w.address, 0x49);
    assert_eq!(w.bytes, [CONFIG_REGISTER, 0xe5, 0x83]);
    assert_eq!(d.status_read().address, 0x49);
    assert_eq!(d.status_read().pointer, [CONFIG_REGISTER]);
    let w = d.single_shot_start(None, None).unwrap();
    assert_eq!(w.address, 0x49);
    assert_eq!(w.bytes, [CONFIG_REGISTER, 0xe5, 0x83]);
}

#[test]
fn single_shot_refuses_a_wrong_address_and_changes_nothing() {
    let mut d = driver(0x48);
    let r = d.single_shot_start(Some(0x10), Some(InputMultiplexer::AIN3GND));
    assert!(matches!(r, Err(ADSError::WrongAddress)));
    let w = d.config_write(None);
    assert_eq!(w.address, 0x48);
    assert_eq!(w.bytes, [CONFIG_REGISTER, 0x05, 0x83]);
}

#[test]
fn conversion_read_points_at_the_conversion_register() {
    let d = driver(0x49);
    let r = d.conversion_read();
    assert_eq!(r.address, 0x49);
    assert_eq!(r.pointer, [CONVERSION_REGISTER]);
}

#[test]
fn full_scale_follows_the_configured_gain() {
    let mut d = driver(0x48);
    assert_eq!(d.full_scale_millivolts(), 2048);
    let c = ADS111xConfig::default().pga(ProgramableGainAmplifier::V0_256);
    d.config_write(Some(c));
    assert_eq!(d.full_scale_millivolts(), 256);
}

#[test]
fn threshold_writes() {
    let d = driver(0x48);
    let lo = d.low_threshold_write(-2);
    assert_eq!(lo.address, 0x48);
    assert_eq!(lo.bytes, [LO_THRESH_REGISTER, 0xff, 0xfe]);
    let hi = d.high_threshold_write(0x1234);
    assert_eq!(hi.bytes, [HI_THRESH_REGISTER, 0x12, 0x34]);
}

#[test]
fn pending_conversion_is_read_from_the_status_bit() {
    assert!(conversion_pending([0x05, 0x83]));
    assert!(!conversion_pending([0x85, 0x83]));
    assert!(conversion_pending([0x7f, 0xff]));
}

#[test]
fn bus_mut_reaches_the_owned_bus() {
    let mut d = driver(0x48);
    d.bus_mut().0 = 99;
    assert_eq!(d.destroy(), Bus(99));
}

#[test]
fn single_shot_polls_until_the_conversion_is_done() {
    let mut d = driver(0x4a);
    d.single_shot_start(None, None).unwrap();
    match d.single_shot_next([0x05, 0x83]) {
        SingleShotStep::Poll(r) => {
            assert_eq!(r.address, 0x4a);
            assert_eq!(r.pointer, [CONFIG_REGISTER]);
        }
        SingleShotStep::ReadResult(_) => panic!("conversion reported done too early"),
    }
    match d.single_shot_next([0x85, 0x83]) {
        SingleShotStep::ReadResult(r) => {
            assert_eq!(r.address, 0x4a);
            assert_eq!(r.pointer, [CONVERSION_REGISTER]);
        }
        SingleShotStep::Poll(_) => panic!("conversion reported pending after it was done"),
    }
}
