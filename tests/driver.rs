use std::cell::RefCell;
use std::rc::Rc;

use gp2y0e02b::driver::DEFAULT_ADDRESS;
use gp2y0e02b::{Distance, Error, I2cBus, Register, GP2Y0E02B};

#[derive(Debug, Clone, Copy, PartialEq, Eq)]
struct FakeError(usize);

/// A bus whose device keeps its registers as plain storage.
struct FakeBus {
    regs: [u8; 256],
    fail_at: Option<usize>,
    calls: Rc<RefCell<Vec<(u8, Vec<u8>, usize)>>>,
}

impl FakeBus {
    fn new() -> FakeBus {
        FakeBus { regs: [0; 256], fail_at: None, calls: Rc::new(RefCell::new(Vec::new())) }
    }

    fn failing_at(n: usize) -> FakeBus {
        let mut bus = FakeBus::new();
        bus.fail_at = Some(n);
        bus
    }

    fn record(&mut self, address: u8, bytes: &[u8], len: usize) -> Result<(), FakeError> {
        let n = self.calls.borrow().len();
        self.calls.borrow_mut().push((address, bytes.to_vec(), len));
        if self.fail_at == Some(n) {
            Err(FakeError(n))
        } else {
            Ok(())
        }
    }
}

impl I2cBus<FakeError> for FakeBus {
    fn bus_write_read(&mut self, address: u8, bytes: &[u8], buffer: &mut [u8]) -> Result<(), FakeError> {
        self.record(address, bytes, buffer.len())?;
        let start = bytes[0] as usize;
        for (i, b) in buffer.iter_mut().enumerate() {
            *b = self.regs[(start + i) % 256];
        }
        Ok(())
    }

    fn bus_write(&mut self, address: u8, bytes: &[u8]) -> Result<(), FakeError> {
        self.record(address, bytes, 0)?;
        if bytes.len() == 2 {
            self.regs[bytes[0] as usize] = bytes[1];
        }
        Ok(())
    }
}

fn sensor_with(high: u8, low: u8, shift: u8) -> GP2Y0E02B<FakeBus, FakeError> {
    let mut bus = FakeBus::new();
    bus.regs[0x5E] = high;
    bus.regs[0x5F] = low;
    bus.regs[0x35] = shift;
    GP2Y0E02B::new(bus, 0x40).unwrap()
}

fn millimeters(d: Distance) -> f32 {
    (d.raw as f32) / 16.0 / ((1u32 << d.shift) as f32)
}

#[test]
fn new_keeps_the_given_address() {
    let sensor = GP2Y0E02B::new(FakeBus::new(), 0x31).unwrap();
    assert_eq!(sensor.address(), 0x31);
}

#[test]
fn default_uses_address_0x40() {
    let sensor = GP2Y0E02B::default(FakeBus::new()).unwrap();
    assert_eq!(sensor.address(), 0x40);
    assert_eq!(DEFAULT_ADDRESS, 0x40);
}

#[test]
fn read_distance_applies_the_formula() {
    let mut sensor = sensor_with(0x20, 0x08, 1);
    let d = sensor.read_distance().unwrap();
    assert_eq!(d, Distance { raw: 520, shift: 1 });
    assert_eq!(millimeters(d), 16.25);
}

#[test]
fn read_distance_with_shift_zero_and_two() {
    let mut sensor = sensor_with(10, 4, 0);
    let d = sensor.read_distance().unwrap();
    assert_eq!(d, Distance { raw: 164, shift: 0 });
    assert_eq!(millimeters(d), 10.25);
    let mut sensor = sensor_with(10, 4, 2);
    let d = sensor.read_distance().unwrap();
    assert_eq!(millimeters(d), 2.5625);
}

#[test]
fn read_distance_reads_three_registers_in_order() {
    let mut bus = FakeBus::new();
    bus.regs[0x5E] = 1;
    bus.regs[0x5F] = 2;
    bus.regs[0x35] = 2;
    let calls = bus.calls.clone();
    let mut sensor = GP2Y0E02B::new(bus, 0x22).unwrap();
    assert_eq!(sensor.read_distance(), Ok(Distance { raw: 18, shift: 2 }));
    assert_eq!(
        *calls.borrow(),
        vec![(0x22, vec![0x5E], 1), (0x22, vec![0x5F], 1), (0x22, vec![0x35], 1)]
    );
}

#[test]
fn byte_transactions_carry_register_and_value() {
    let bus = FakeBus::new();
    let calls = bus.calls.clone();
    let mut sensor = GP2Y0E02B::new(bus, 0x40).unwrap();
    sensor.write_byte(0xEC, 0xFF).unwrap();
    sensor.read_bytes(0x64).unwrap();
    sensor.read_register(Register::AG_7_0).unwrap();
    assert_eq!(
        *calls.borrow(),
        vec![(0x40, vec![0xEC, 0xFF], 0), (0x40, vec![0x64], 2), (0x40, vec![0x67], 1)]
    );
}

#[test]
fn from_bytes_largest_bytes() {
    let d = Distance::from_bytes(255, 255, 2);
    assert_eq!(d.raw, 4335);
    assert_eq!(d.shift, 2);
    assert_eq!(Distance::from_bytes(0, 0, 0), Distance { raw: 0, shift: 0 });
}

#[test]
fn read_distance_error_on_each_read() {
    for k in 0..3 {
        let bus = FakeBus::failing_at(k);
        let calls = bus.calls.clone();
        let mut sensor = GP2Y0E02B::new(bus, 0x40).unwrap();
        assert_eq!(sensor.read_distance(), Err(FakeError(k)));
        assert_eq!(calls.borrow().len(), k + 1);
    }
}

#[test]
fn read_distance_stops_at_first_error() {
    let mut bus = FakeBus::failing_at(0);
    bus.regs[0x5E] = 7;
    let mut sensor = GP2Y0E02B::new(bus, 0x40).unwrap();
    assert_eq!(sensor.read_distance(), Err(FakeError(0)));
    // a second measurement on the same bus goes through all three reads
    assert_eq!(sensor.read_distance(), Ok(Distance { raw: 112, shift: 0 }));
}

#[test]
fn write_then_read_round_trips() {
    let mut sensor = GP2Y0E02B::new(FakeBus::new(), 0x40).unwrap();
    sensor.write_byte(0x13, 0x07).unwrap();
    assert_eq!(sensor.read_byte(0x13), Ok(0x07));
    sensor.write_register(Register::MEDIAN_FILTER, 0x30).unwrap();
    assert_eq!(sensor.read_register(Register::MEDIAN_FILTER), Ok(0x30));
    assert_eq!(sensor.read_byte(0x3F), Ok(0x30));
}

#[test]
fn write_error_is_returned() {
    let mut sensor = GP2Y0E02B::new(FakeBus::failing_at(0), 0x40).unwrap();
    assert_eq!(sensor.write_byte(0x13, 0x07), Err(FakeError(0)));
    assert_eq!(sensor.read_byte(0x13), Ok(0));
}

#[test]
fn read_error_is_returned() {
    let mut sensor = GP2Y0E02B::new(FakeBus::failing_at(0), 0x40).unwrap();
    assert_eq!(sensor.read_register(Register::SHIFT_BIT), Err(FakeError(0)));
    let mut sensor = GP2Y0E02B::new(FakeBus::failing_at(0), 0x40).unwrap();
    assert_eq!(sensor.read_bytes(0x64), Err(FakeError(0)));
}

#[test]
fn read_bytes_keeps_bus_order() {
    let mut bus = FakeBus::new();
    bus.regs[0x64] = 0xAB;
    bus.regs[0x65] = 0xCD;
    let mut sensor = GP2Y0E02B::new(bus, 0x40).unwrap();
    assert_eq!(sensor.read_bytes(0x64), Ok([0xAB, 0xCD]));
}

#[test]
fn error_from_wraps_bus_error() {
    let e: Error<FakeError> = Error::from(FakeError(3));
    assert!(matches!(e, Error::BusError(FakeError(3))));
}

fn all_registers() -> Vec<Register> {
    vec![
        Register::HOLD_BIT,
        Register::MAXIMUM_EMITTING_PULSE_WIDTH,
        Register::SPOT_SYMMETRY_THRESHOLD,
        Register::SIGNAL_INTENSITY_THRESHOLD,
        Register::MAXIMUM_SPOT_SIZE_THRESHOLD,
        Register::MINIMUM_SPOT_SIZE_THRESHOLD,
        Register::SHIFT_BIT,
        Register::MEDIAN_FILTER,
        Register::SRAM_ACCESS,
        Register::DISTANCE_11_4,
        Register::DISTANCE_3_0,
        Register::AE_15_8,
        Register::AE_7_0,
        Register::AG_7_0,
        Register::COVER_COMPENSATION_5_0,
        Register::COVER_COMPENSATION_10_6,
        Register::COVER_COMPENSATION_ENABLE_BIT,
        Register::READ_OUT_IMAGE_SENSOR_DATA,
        Register::SIGNAL_ACCUMULATION_NUMBER,
        Register::ENABLE_BIT_SIGNAL_INTENSITY,
        Register::ENABLE_BIT_MINIMUM_SPOT_SIZE,
        Register::ENABLE_BIT_MAXIMUM_SPOT_SIZE,
        Register::ENABLE_BIT_SPOT_SYMMETRY,
        Register::E_FUSE_TARGET_ADDRESS_READ_OUT_ENABLE_BIT,
        Register::E_FUSE_BIT_NUMBER_BANK_ASSIGN,
        Register::E_FUSE_PROGRAM_ENABLE_BIT,
        Register::E_FUSE_PROGRAM_DATA,
        Register::ACTIVE_STAND_BY_STATE_CONTROL,
        Register::CLOCK_SELECT,
        Register::SOFTWARE_RESET,
        Register::BANK_SELECT,
        Register::RIGHT_EDGE_COORDINATE,
        Register::LEFT_EDGE_COORDINATE,
        Register::PEAK_COORDINATE,
    ]
}

#[test]
fn register_addresses_are_unique() {
    let regs = all_registers();
    for (i, a) in regs.iter().enumerate() {
        for b in regs.iter().skip(i + 1) {
            assert_ne!(a.address(), b.address());
        }
    }
}

#[test]
fn register_addresses_match_the_map() {
    assert_eq!(Register::HOLD_BIT.address(), 0x03);
    assert_eq!(Register::SHIFT_BIT.address(), 0x35);
    assert_eq!(Register::DISTANCE_11_4.address(), 0x5E);
    assert_eq!(Register::DISTANCE_3_0.address(), 0x5F);
    assert_eq!(Register::CLOCK_SELECT.address(), 0xEC);
    assert_eq!(Register::PEAK_COORDINATE.address(), 0xFA);
}
