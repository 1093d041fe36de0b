use embedded_hal::i2c::{ErrorKind, I2c};
use embedded_hal_mock::eh1::i2c::{Mock as I2cMock, Transaction as I2cTrans};
use hrs3300::register::{
    DEV_ADDR, ENABLE, HEN, HGAIN, ID, OSC, PDRIVE0, PDRIVE1, PDRIVER, RESOLUTION,
};
use hrs3300::{
    AlsResolution as Res, ConversionDelay, Error, Exchange, Gain, Hrs3300, LedCurrent, Output,
    Request, Step,
};

fn new(transactions: &[I2cTrans]) -> Hrs3300<I2cMock> {
    Hrs3300::new(I2cMock::new(transactions))
}

fn destroy(sensor: Hrs3300<I2cMock>) {
    sensor.destroy().done();
}

/// Performs the transactions of `exchange` on the bus of `sensor` until the
/// exchange is finished.
fn run(sensor: &mut Hrs3300<I2cMock>, exchange: Exchange) -> Result<Output, Error<ErrorKind>> {
    let mut exchange = exchange;
    loop {
        let mut buffer = [0u8; 2];
        let outcome = match exchange.request() {
            Request::Write { register, value } => sensor.i2c().write(DEV_ADDR, &[register, value]),
            Request::Read { register, count } => {
                sensor
                    .i2c()
                    .write_read(DEV_ADDR, &[register], &mut buffer[..count])
            }
        };
        match exchange.advance(outcome.map(|_| buffer)) {
            Step::Continue(next) => exchange = next,
            Step::Finished(result) => return result,
        }
    }
}

fn read(register: u8, value: u8) -> I2cTrans {
    I2cTrans::write_read(DEV_ADDR, vec![register], vec![value])
}

fn write(register: u8, value: u8) -> I2cTrans {
    I2cTrans::write(DEV_ADDR, vec![register, value])
}

/// Runs `start` on a device whose `register` holds `before` and checks that
/// `after` is written back to it.
fn check_update(
    register: u8,
    before: u8,
    after: u8,
    start: fn(&mut Hrs3300<I2cMock>) -> Exchange,
) {
    let transactions = [read(register, before), write(register, after)];
    let mut sensor = new(&transactions);
    let exchange = start(&mut sensor);
    assert_eq!(Ok(Output::Done), run(&mut sensor, exchange).map_err(|_| ()));
    destroy(sensor);
}

#[test]
fn can_create_and_destroy() {
    let sensor = new(&[]);
    destroy(sensor);
}

#[test]
fn starting_an_operation_touches_no_bus() {
    let mut sensor = new(&[]);
    let exchange = sensor.set_gain(Gain::Eight);
    assert_eq!(
        Request::Read {
            register: HGAIN,
            count: 1
        },
        exchange.request()
    );
    destroy(sensor);
}

#[test]
fn can_init() {
    let transactions = [
        write(ENABLE, 0x68),
        write(PDRIVER, 0x0e),
        write(RESOLUTION, 0x66),
        write(HGAIN, 0x0d),
    ];
    let mut sensor = new(&transactions);
    let exchange = sensor.init();
    assert_eq!(Output::Done, run(&mut sensor, exchange).unwrap());
    destroy(sensor);
}

#[test]
fn enable_hrs() {
    check_update(ENABLE, 0, HEN, |s| s.enable_hrs());
}

#[test]
fn enable_hrs_keeps_other_bits() {
    check_update(ENABLE, 0b0110_1000, 0b1110_1000, |s| s.enable_hrs());
}

#[test]
fn disable_hrs() {
    check_update(ENABLE, HEN, 0, |s| s.disable_hrs());
}

#[test]
fn disable_hrs_keeps_other_bits() {
    check_update(ENABLE, 0xFF, 0x7F, |s| s.disable_hrs());
}

#[test]
fn enable_oscillator() {
    check_update(PDRIVER, 0, OSC, |s| s.enable_oscillator());
}

#[test]
fn enable_oscillator_keeps_other_bits() {
    check_update(PDRIVER, 0x0e, 0x2e, |s| s.enable_oscillator());
}

#[test]
fn disable_oscillator() {
    check_update(PDRIVER, OSC, 0, |s| s.disable_oscillator());
}

#[test]
fn disable_oscillator_keeps_other_bits() {
    check_update(PDRIVER, 0xFF, 0xDF, |s| s.disable_oscillator());
}

#[test]
fn set_conv_delay_800() {
    check_update(ENABLE, 0, 0, |s| {
        s.set_conversion_delay(ConversionDelay::Ms800)
    });
}

#[test]
fn set_conv_delay_400() {
    check_update(ENABLE, 0, 1 << 4, |s| {
        s.set_conversion_delay(ConversionDelay::Ms400)
    });
}

#[test]
fn set_conv_delay_200() {
    check_update(ENABLE, 0, 2 << 4, |s| {
        s.set_conversion_delay(ConversionDelay::Ms200)
    });
}

#[test]
fn set_conv_delay_100() {
    check_update(ENABLE, 0, 3 << 4, |s| {
        s.set_conversion_delay(ConversionDelay::Ms100)
    });
}

#[test]
fn set_conv_delay_75() {
    check_update(ENABLE, 0, 4 << 4, |s| {
        s.set_conversion_delay(ConversionDelay::Ms75)
    });
}

#[test]
fn set_conv_delay_50() {
    check_update(ENABLE, 0, 5 << 4, |s| {
        s.set_conversion_delay(ConversionDelay::Ms50)
    });
}

#[test]
fn set_conv_delay_12_5() {
    check_update(ENABLE, 0, 6 << 4, |s| {
        s.set_conversion_delay(ConversionDelay::Ms12_5)
    });
}

#[test]
fn set_conv_delay_0() {
    check_update(ENABLE, 0, 7 << 4, |s| {
        s.set_conversion_delay(ConversionDelay::Ms0)
    });
}

#[test]
fn set_conv_delay_replaces_old_delay_only() {
    check_update(ENABLE, 0b1111_1111, 0b1010_1111, |s| {
        s.set_conversion_delay(ConversionDelay::Ms200)
    });
    check_update(ENABLE, 0x68, 0x08, |s| {
        s.set_conversion_delay(ConversionDelay::Ms800)
    });
}

#[test]
fn set_gain_1() {
    check_update(HGAIN, 0, 0, |s| s.set_gain(Gain::One));
}

#[test]
fn set_gain_2() {
    check_update(HGAIN, 0, 1 << 2, |s| s.set_gain(Gain::Two));
}

#[test]
fn set_gain_4() {
    check_update(HGAIN, 0, 2 << 2, |s| s.set_gain(Gain::Four));
}

#[test]
fn set_gain_8() {
    check_update(HGAIN, 0, 3 << 2, |s| s.set_gain(Gain::Eight));
}

#[test]
fn set_gain_64() {
    check_update(HGAIN, 0, 4 << 2, |s| s.set_gain(Gain::SixtyFour));
}

#[test]
fn set_gain_replaces_old_gain_only() {
    check_update(HGAIN, 0b1111_1111, 0b1111_0111, |s| s.set_gain(Gain::Two));
    check_update(HGAIN, 0x0d, 0x01, |s| s.set_gain(Gain::One));
}

#[test]
fn set_gain_64_sets_bit_four() {
    check_update(HGAIN, 0b0000_1101, 0b0001_0001, |s| {
        s.set_gain(Gain::SixtyFour)
    });
    check_update(HGAIN, 0xFF, 0xF3, |s| s.set_gain(Gain::SixtyFour));
}

#[test]
fn set_als_res8() {
    check_update(RESOLUTION, 0, 0, |s| s.set_als_resolution(Res::Bit8));
}

#[test]
fn set_als_res9() {
    check_update(RESOLUTION, 0, 1, |s| s.set_als_resolution(Res::Bit9));
}

#[test]
fn set_als_res10() {
    check_update(RESOLUTION, 0, 2, |s| s.set_als_resolution(Res::Bit10));
}

#[test]
fn set_als_res11() {
    check_update(RESOLUTION, 0, 3, |s| s.set_als_resolution(Res::Bit11));
}

#[test]
fn set_als_res12() {
    check_update(RESOLUTION, 0, 4, |s| s.set_als_resolution(Res::Bit12));
}

#[test]
fn set_als_res13() {
    check_update(RESOLUTION, 0, 5, |s| s.set_als_resolution(Res::Bit13));
}

#[test]
fn set_als_res14() {
    check_update(RESOLUTION, 0, 6, |s| s.set_als_resolution(Res::Bit14));
}

#[test]
fn set_als_res15() {
    check_update(RESOLUTION, 0, 7, |s| s.set_als_resolution(Res::Bit15));
}

#[test]
fn set_als_res16() {
    check_update(RESOLUTION, 0, 8, |s| s.set_als_resolution(Res::Bit16));
}

#[test]
fn set_als_res17() {
    check_update(RESOLUTION, 0, 9, |s| s.set_als_resolution(Res::Bit17));
}

#[test]
fn set_alsres18() {
    check_update(RESOLUTION, 0, 10, |s| s.set_als_resolution(Res::Bit18));
}

#[test]
fn set_als_res_replaces_old_resolution_only() {
    check_update(RESOLUTION, 0x66, 0x6A, |s| s.set_als_resolution(Res::Bit18));
    check_update(RESOLUTION, 0xFF, 0xF0, |s| s.set_als_resolution(Res::Bit8));
}

/// Sets `current` on a device whose `ENABLE` and `PDRIVER` hold
/// `before`, and checks what is written back to the two.
fn check_led_current(current: LedCurrent, before: (u8, u8), after: (u8, u8)) {
    let transactions = [
        read(ENABLE, before.0),
        read(PDRIVER, before.1),
        write(ENABLE, after.0),
        write(PDRIVER, after.1),
    ];
    let mut sensor = new(&transactions);
    let exchange = sensor.set_led_current(current);
    assert_eq!(Output::Done, run(&mut sensor, exchange).unwrap());
    destroy(sensor);
}

#[test]
fn set_led_curr_12_5() {
    check_led_current(LedCurrent::Ma12_5, (0, 0), (0, 0));
}

#[test]
fn set_led_curr_20() {
    check_led_current(LedCurrent::Ma20, (0, 0), (0, PDRIVE0));
}

#[test]
fn set_led_curr_30() {
    check_led_current(LedCurrent::Ma30, (0, 0), (PDRIVE1, 0));
}

#[test]
fn set_led_curr_40() {
    check_led_current(LedCurrent::Ma40, (0, 0), (PDRIVE1, PDRIVE0));
}

#[test]
fn set_led_curr_keeps_other_bits() {
    check_led_current(LedCurrent::Ma12_5, (0xFF, 0xFF), (0xF7, 0xBF));
    check_led_current(LedCurrent::Ma20, (0xFF, 0xFF), (0xF7, 0xFF));
    check_led_current(LedCurrent::Ma30, (0x68, 0x0e), (0x68, 0x0e));
    check_led_current(LedCurrent::Ma40, (0x60, 0x2e), (0x68, 0x6e));
}

#[test]
fn can_get_dev_id() {
    let transactions = [read(ID, 0x21)];
    let mut sensor = new(&transactions);
    let exchange = sensor.device_id();
    let result = run(&mut sensor, exchange).unwrap();
    assert_eq!(Output::Byte(0x21), result);
    destroy(sensor);
}

#[test]
fn can_read_hrs() {
    let transactions = [
        I2cTrans::write_read(DEV_ADDR, vec![0x09], vec![0b1001_0110, 0b1111_1010]),
        I2cTrans::write_read(DEV_ADDR, vec![0x0F], vec![0b1110_0101]),
    ];
    let mut sensor = new(&transactions);
    let exchange = sensor.read_hrs();
    let result = run(&mut sensor, exchange).unwrap();
    assert_eq!(Output::Reading(0b10_1001_0110_1010_0101), result);
    assert_eq!(Output::Reading(0x296A5), result);
    destroy(sensor);
}

#[test]
fn can_read_als() {
    let transactions = [
        I2cTrans::write_read(DEV_ADDR, vec![0x08], vec![0b1001_0110]),
        I2cTrans::write_read(DEV_ADDR, vec![0x0D], vec![0b1010_1010, 0b1111_1101]),
    ];
    let mut sensor = new(&transactions);
    let exchange = sensor.read_als();
    let result = run(&mut sensor, exchange).unwrap();
    assert_eq!(Output::Reading(0b01_0101_0100_1011_0101), result);
    destroy(sensor);
}

#[test]
fn can_write_register() {
    let transactions = [write(0x3A, 0xC5)];
    let mut sensor = new(&transactions);
    let exchange = sensor.write_register(0x3A, 0xC5);
    assert_eq!(Output::Done, run(&mut sensor, exchange).unwrap());
    destroy(sensor);
}

#[test]
fn can_read_register() {
    let transactions = [read(0x3A, 0xC5)];
    let mut sensor = new(&transactions);
    let exchange = sensor.read_register(0x3A);
    assert_eq!(Output::Byte(0xC5), run(&mut sensor, exchange).unwrap());
    destroy(sensor);
}

/// Runs `start` on a bus that performs `transactions`, of which the last
/// fails, and checks that the operation ends there with that failure. The
/// mock bus panics on any transaction beyond those.
fn check_failure(
    transactions: &[I2cTrans],
    error: ErrorKind,
    start: fn(&mut Hrs3300<I2cMock>) -> Exchange,
) {
    let mut sensor = new(transactions);
    let exchange = start(&mut sensor);
    match run(&mut sensor, exchange) {
        Err(Error::I2C(e)) => assert_eq!(error, e),
        Ok(output) => panic!("the failure was lost: {:?}", output),
    }
    destroy(sensor);
}

#[test]
fn failed_read_ends_setter_without_a_write() {
    check_failure(
        &[read(HGAIN, 0).with_error(ErrorKind::Bus)],
        ErrorKind::Bus,
        |s| s.set_gain(Gain::Four),
    );
    check_failure(
        &[read(ENABLE, 0).with_error(ErrorKind::ArbitrationLoss)],
        ErrorKind::ArbitrationLoss,
        |s| s.enable_hrs(),
    );
}

#[test]
fn failed_write_ends_setter() {
    check_failure(
        &[
            read(RESOLUTION, 0x66),
            write(RESOLUTION, 0x64).with_error(ErrorKind::Overrun),
        ],
        ErrorKind::Overrun,
        |s| s.set_als_resolution(Res::Bit12),
    );
}

#[test]
fn failure_anywhere_in_init_ends_it() {
    let all = [
        write(ENABLE, 0x68),
        write(PDRIVER, 0x0e),
        write(RESOLUTION, 0x66),
        write(HGAIN, 0x0d),
    ];
    for failing in 0..all.len() {
        let mut transactions = all[..failing].to_vec();
        transactions.push(all[failing].clone().with_error(ErrorKind::Other));
        check_failure(&transactions, ErrorKind::Other, |s| s.init());
    }
}

#[test]
fn failure_anywhere_in_set_led_current_ends_it() {
    let all = [
        read(ENABLE, 0x68),
        read(PDRIVER, 0x0e),
        write(ENABLE, 0x60),
        write(PDRIVER, 0x4e),
    ];
    for failing in 0..all.len() {
        let mut transactions = all[..failing].to_vec();
        transactions.push(all[failing].clone().with_error(ErrorKind::Bus));
        check_failure(&transactions, ErrorKind::Bus, |s| {
            s.set_led_current(LedCurrent::Ma20)
        });
    }
}

#[test]
fn failure_in_measurement_ends_it() {
    check_failure(
        &[I2cTrans::write_read(DEV_ADDR, vec![0x09], vec![0, 0]).with_error(ErrorKind::Other)],
        ErrorKind::Other,
        |s| s.read_hrs(),
    );
    check_failure(
        &[
            I2cTrans::write_read(DEV_ADDR, vec![0x09], vec![1, 2]),
            read(0x0F, 0).with_error(ErrorKind::Other),
        ],
        ErrorKind::Other,
        |s| s.read_hrs(),
    );
    check_failure(
        &[read(0x08, 0).with_error(ErrorKind::Bus)],
        ErrorKind::Bus,
        |s| s.read_als(),
    );
    check_failure(
        &[
            read(0x08, 7),
            I2cTrans::write_read(DEV_ADDR, vec![0x0D], vec![0, 0]).with_error(ErrorKind::Bus),
        ],
        ErrorKind::Bus,
        |s| s.read_als(),
    );
}

#[test]
fn failure_in_single_transaction_operations() {
    check_failure(
        &[read(ID, 0x21).with_error(ErrorKind::Other)],
        ErrorKind::Other,
        |s| s.device_id(),
    );
    check_failure(
        &[read(0x10, 0).with_error(ErrorKind::Other)],
        ErrorKind::Other,
        |s| s.read_register(0x10),
    );
    check_failure(
        &[write(0x10, 0x20).with_error(ErrorKind::Other)],
        ErrorKind::Other,
        |s| s.write_register(0x10, 0x20),
    );
}
