use icm20948::imu::{Action, IcmImu};
use icm20948::program::Reply;
use icm20948::registers::{
    AccLPF, AccSensitivity, GyroLPF, GyroSensitivity, IcmError, RegistersBank0, RegistersBank2,
    READ_REG, WRITE_REG,
};
use icm20948::sample::sample_from_bytes;

type Log = Vec<(Vec<u8>, bool, bool)>;

/// Serves every transfer that `first` leads to with `respond`, recording the
/// frames, and returns the operation's outcome.
fn drive(
    imu: &mut IcmImu,
    first: Action,
    log: &mut Log,
    mut respond: impl FnMut(usize, &[u8]) -> (Vec<u8>, bool),
) -> Result<Reply, IcmError> {
    let mut a = first;
    let mut n = 0;
    loop {
        match a {
            Action::Transfer(f) => {
                log.push((f.bytes.clone(), f.select, f.release));
                assert_eq!(imu.awaiting_len(), Some(f.bytes.len()));
                let (r, ok) = respond(n, &f.bytes);
                n += 1;
                a = imu.resume(&r, ok);
            }
            Action::Done(r) => {
                assert!(imu.is_idle());
                return r;
            }
        }
    }
}

/// A bus on which every byte received is `fill`.
fn filled(fill: u8) -> impl FnMut(usize, &[u8]) -> (Vec<u8>, bool) {
    move |_, sent: &[u8]| (vec![fill; sent.len()], true)
}

fn framed(bytes: &[u8]) -> (Vec<u8>, bool, bool) {
    (bytes.to_vec(), true, true)
}

fn ready() -> IcmImu {
    let (mut imu, a) = IcmImu::new();
    let mut log = Log::new();
    assert_eq!(drive(&mut imu, a, &mut log, filled(0)), Ok(Reply::Unit));
    imu
}

#[test]
fn new_wakes_the_chip() {
    let (mut imu, a) = IcmImu::new();
    let mut log = Log::new();
    assert_eq!(drive(&mut imu, a, &mut log, filled(0x55)), Ok(Reply::Unit));
    assert_eq!(log, vec![framed(&[0x06, 0x01])]);
    assert!(imu.acc_on());
    assert!(imu.gyro_on());
    assert!(!imu.mag_on());
    assert!(!imu.int_on());
    assert_eq!(imu.accel_sen(), 16384);
    assert_eq!(imu.gyro_sen(), GyroSensitivity::Sen250dps);
}

#[test]
fn register_addresses() {
    assert_eq!(RegistersBank0::Wai.get_addr(READ_REG), 0x80);
    assert_eq!(RegistersBank0::PwrMgmt2.get_addr(READ_REG), 0x87);
    assert_eq!(RegistersBank0::PwrMgmt2.get_addr(WRITE_REG), 0x07);
    assert_eq!(RegistersBank0::RegBankSel.get_addr(WRITE_REG), 0x7F);
    assert_eq!(RegistersBank2::AccelConfig.get_addr(READ_REG), 0x94);
    assert_eq!(RegistersBank2::GyroConfig1.get_addr(WRITE_REG), 0x01);
}

#[test]
fn wai_reports_the_register() {
    let mut imu = ready();
    let mut log = Log::new();
    let a = imu.wai();
    let r = drive(&mut imu, a, &mut log, |_, _| (vec![0x00, 0xEA], true));
    assert_eq!(r, Ok(Reply::Byte(0xEA)));
    assert_eq!(log, vec![framed(&[0x80, 0x00])]);
}

#[test]
fn interrupt_on_and_off() {
    let mut imu = ready();
    let mut log = Log::new();
    let a = imu.enable_int();
    assert_eq!(drive(&mut imu, a, &mut log, filled(0)), Ok(Reply::Unit));
    assert!(imu.int_on());
    let a = imu.disable_int();
    assert_eq!(drive(&mut imu, a, &mut log, filled(0)), Ok(Reply::Unit));
    assert!(!imu.int_on());
    assert_eq!(log, vec![framed(&[0x11, 0x01]), framed(&[0x11, 0x00])]);
}

#[test]
fn accelerometer_off_and_on() {
    let mut imu = ready();
    let mut log = Log::new();
    let a = imu.disable_acc();
    // PWR_MGMT_2 reads 0x07: gyro disabled, accelerometer enabled
    let r = drive(&mut imu, a, &mut log, |_, _| (vec![0x00, 0x07], true));
    assert_eq!(r, Ok(Reply::Unit));
    assert!(!imu.acc_on());
    assert!(imu.gyro_on());
    assert_eq!(log, vec![framed(&[0x87, 0x00]), framed(&[0x07, 0x3F])]);
    let mut log = Log::new();
    let a = imu.enable_acc();
    let r = drive(&mut imu, a, &mut log, |_, _| (vec![0x00, 0x3F], true));
    assert_eq!(r, Ok(Reply::Unit));
    assert!(imu.acc_on());
    // the second byte of the read is what the buffer last held
    assert_eq!(log, vec![framed(&[0x87, 0x07]), framed(&[0x07, 0x07])]);
}

#[test]
fn gyro_off_and_on() {
    let mut imu = ready();
    let mut log = Log::new();
    let a = imu.disable_gyro();
    let r = drive(&mut imu, a, &mut log, |_, _| (vec![0x00, 0x28], true));
    assert_eq!(r, Ok(Reply::Unit));
    assert!(!imu.gyro_on());
    assert!(imu.acc_on());
    assert_eq!(log, vec![framed(&[0x87, 0x00]), framed(&[0x07, 0x2F])]);
    let mut log = Log::new();
    let a = imu.enable_gyro();
    let r = drive(&mut imu, a, &mut log, |_, _| (vec![0x00, 0x2F], true));
    assert_eq!(r, Ok(Reply::Unit));
    assert!(imu.gyro_on());
    assert_eq!(log, vec![framed(&[0x87, 0x00]), framed(&[0x07, 0x28])]);
}

#[test]
fn failed_switch_changes_nothing() {
    let mut imu = ready();
    let mut log = Log::new();
    let a = imu.disable_acc();
    let r = drive(&mut imu, a, &mut log, |n, s: &[u8]| (vec![0; s.len()], n != 1));
    assert_eq!(r, Err(IcmError::BusError));
    assert!(imu.acc_on());
    let mut log = Log::new();
    let a = imu.enable_int();
    let r = drive(&mut imu, a, &mut log, |_, s: &[u8]| (vec![0; s.len()], false));
    assert_eq!(r, Err(IcmError::BusError));
    assert!(!imu.int_on());
}

#[test]
fn read_one_axis() {
    let mut imu = ready();
    let mut log = Log::new();
    let a = imu.read_acc_x();
    let r = drive(&mut imu, a, &mut log, |_, _| (vec![0x00, 0x12, 0x34], true));
    assert_eq!(r, Ok(Reply::Sample(0x1234)));
    assert_eq!(log, vec![framed(&[0xAD, 0xAE, 0x00])]);
    let mut log = Log::new();
    let a = imu.read_gyro_z();
    let r = drive(&mut imu, a, &mut log, |_, _| (vec![0x00, 0xFF, 0xFE], true));
    assert_eq!(r, Ok(Reply::Sample(-2)));
    assert_eq!(log, vec![framed(&[0xB7, 0xB8, 0x34])]);
}

#[test]
fn read_with_accelerometer_off_switches_it_on() {
    let mut imu = ready();
    let mut log = Log::new();
    let a = imu.disable_acc();
    drive(&mut imu, a, &mut log, filled(0)).unwrap();
    let mut log = Log::new();
    let a = imu.read_acc_y();
    let r = drive(&mut imu, a, &mut log, |n, _| {
        if n == 2 {
            (vec![0x00, 0x80, 0x00], true)
        } else {
            (vec![0x00, 0x38], true)
        }
    });
    assert_eq!(r, Ok(Reply::Sample(-32768)));
    assert!(imu.acc_on());
    assert_eq!(
        log,
        vec![framed(&[0x87, 0x00]), framed(&[0x07, 0x00]), framed(&[0xAF, 0xB0, 0x00])]
    );
}

#[test]
fn read_all_three_axes() {
    let mut imu = ready();
    let mut log = Log::new();
    let a = imu.read_acc();
    let r = drive(&mut imu, a, &mut log, |n, _| (vec![0x00, 0x00, n as u8 + 1], true));
    assert_eq!(r, Ok(Reply::Samples(1, 2, 3)));
    assert_eq!(
        log,
        vec![framed(&[0xAD, 0xAE, 0x00]), framed(&[0xAF, 0xB0, 0x01]), framed(&[0xB1, 0xB2, 0x02])]
    );
}

#[test]
fn gyro_read_with_gyro_off_switches_the_gyro_on() {
    let mut imu = ready();
    let mut log = Log::new();
    let a = imu.disable_gyro();
    drive(&mut imu, a, &mut log, |_, _| (vec![0x00, 0x07], true)).unwrap();
    assert!(!imu.gyro_on());
    let mut log = Log::new();
    let a = imu.read_gyro_x();
    let r = drive(&mut imu, a, &mut log, |n, s: &[u8]| {
        if n == 0 {
            (vec![0x00, 0x07], true)
        } else {
            (vec![0x00; s.len()], true)
        }
    });
    assert_eq!(r, Ok(Reply::Sample(0)));
    assert!(imu.gyro_on());
    assert!(imu.acc_on());
    assert_eq!(
        log,
        vec![framed(&[0x87, 0x00]), framed(&[0x07, 0x00]), framed(&[0xB3, 0xB4, 0x00])]
    );
}

#[test]
fn gyro_read_of_three_axes_switches_the_gyro_on_once() {
    let mut imu = ready();
    let mut log = Log::new();
    let a = imu.disable_gyro();
    drive(&mut imu, a, &mut log, filled(0)).unwrap();
    let mut log = Log::new();
    let a = imu.read_gyro();
    let r = drive(&mut imu, a, &mut log, filled(0));
    assert_eq!(r, Ok(Reply::Samples(0, 0, 0)));
    assert_eq!(
        log,
        vec![
            framed(&[0x87, 0x00]),
            framed(&[0x07, 0x00]),
            framed(&[0xB3, 0xB4, 0x00]),
            framed(&[0xB5, 0xB6, 0x00]),
            framed(&[0xB7, 0xB8, 0x00]),
        ]
    );
    assert!(imu.gyro_on());
}

#[test]
fn three_axis_read_is_three_single_reads() {
    let replies = |n: usize, s: &[u8]| -> (Vec<u8>, bool) {
        let mut v = vec![0x10 + n as u8; s.len()];
        v[0] = 0;
        (v, true)
    };
    for acc in [true, false] {
        let mut whole = ready();
        let mut single = ready();
        if !acc {
            let mut log = Log::new();
            let a = whole.disable_acc();
            drive(&mut whole, a, &mut log, filled(0)).unwrap();
            let a = single.disable_acc();
            drive(&mut single, a, &mut log, filled(0)).unwrap();
        }
        let mut log_whole = Log::new();
        let a = whole.read_acc();
        let r = drive(&mut whole, a, &mut log_whole, replies);
        let mut log_single = Log::new();
        let mut n = 0;
        let mut values = Vec::new();
        for axis in 0..3 {
            let a = match axis {
                0 => single.read_acc_x(),
                1 => single.read_acc_y(),
                _ => single.read_acc_z(),
            };
            let start = n;
            let out = drive(&mut single, a, &mut log_single, |k, s: &[u8]| replies(start + k, s));
            n = log_single.len();
            match out {
                Ok(Reply::Sample(v)) => values.push(v),
                other => panic!("unexpected {:?}", other),
            }
        }
        assert_eq!(log_whole, log_single);
        assert_eq!(r, Ok(Reply::Samples(values[0], values[1], values[2])));
        assert_eq!(whole.acc_on(), single.acc_on());
    }
}

#[test]
fn accelerometer_range() {
    let mut imu = ready();
    let mut log = Log::new();
    let a = imu.set_acc_sen(AccSensitivity::Sen8g);
    let r = drive(&mut imu, a, &mut log, |_, _| (vec![0x00, 0xFF], true));
    assert_eq!(r, Ok(Reply::Unit));
    assert_eq!(imu.accel_sen(), 4096);
    assert_eq!(
        log,
        vec![
            framed(&[0x7F, 0x20]),
            framed(&[0x94, 0x00]),
            framed(&[0x14, 0xFD]),
            framed(&[0x7F, 0x00]),
        ]
    );
}

#[test]
fn gyro_range() {
    let mut imu = ready();
    let mut log = Log::new();
    let a = imu.set_gyro_sen(GyroSensitivity::Sen2000dps);
    let r = drive(&mut imu, a, &mut log, |_, _| (vec![0x00, 0x01], true));
    assert_eq!(r, Ok(Reply::Unit));
    assert_eq!(imu.gyro_sen(), GyroSensitivity::Sen2000dps);
    assert_eq!(log[2], framed(&[0x01, 0x07]));
}

#[test]
fn low_pass_filters() {
    let mut imu = ready();
    let mut log = Log::new();
    let a = imu.config_acc_lpf(AccLPF::BW50);
    let r = drive(&mut imu, a, &mut log, |_, _| (vec![0x00, 0xFF], true));
    assert_eq!(r, Ok(Reply::Unit));
    assert_eq!(
        log,
        vec![
            framed(&[0x7F, 0x20]),
            framed(&[0x94, 0xFF]),
            framed(&[0x14, 0xDF]),
            framed(&[0x7F, 0x00]),
        ]
    );
    let mut log = Log::new();
    let a = imu.config_gyro_lpf(GyroLPF::BW197);
    drive(&mut imu, a, &mut log, |_, _| (vec![0x00, 0x3E], true)).unwrap();
    assert_eq!(log[2], framed(&[0x01, 0x07]));
    let mut log = Log::new();
    let a = imu.disable_gyro_lpf();
    drive(&mut imu, a, &mut log, |_, _| (vec![0x00, 0x3F], true)).unwrap();
    assert_eq!(log[1], framed(&[0x81, 0x3F]));
    assert_eq!(log[2], framed(&[0x01, 0x3E]));
    let mut log = Log::new();
    let a = imu.disable_acc_lpf();
    drive(&mut imu, a, &mut log, |_, _| (vec![0x00, 0x01], true)).unwrap();
    assert_eq!(log[2], framed(&[0x14, 0x00]));
}

#[test]
fn accelerometer_rate() {
    let mut imu = ready();
    let mut log = Log::new();
    let a = imu.config_acc_rate(100);
    assert_eq!(drive(&mut imu, a, &mut log, filled(0)), Ok(Reply::Unit));
    assert_eq!(
        log,
        vec![
            framed(&[0x7F, 0x20]),
            framed(&[0x09, 0x01]),
            framed(&[0x10, 0x00]),
            framed(&[0x11, 0x0A]),
            framed(&[0x7F, 0x00]),
        ]
    );
    let mut log = Log::new();
    let a = imu.config_acc_rate(1);
    drive(&mut imu, a, &mut log, filled(0)).unwrap();
    assert_eq!(log[2], framed(&[0x10, 0x04]));
    assert_eq!(log[3], framed(&[0x11, 0x64]));
    let mut log = Log::new();
    let a = imu.config_acc_rate(1125);
    assert_eq!(drive(&mut imu, a, &mut log, filled(0)), Err(IcmError::InvalidInput));
    assert!(log.is_empty());
}

#[test]
fn gyro_rate() {
    let mut imu = ready();
    let mut log = Log::new();
    let a = imu.config_gyro_rate(100);
    assert_eq!(drive(&mut imu, a, &mut log, filled(0)), Ok(Reply::Unit));
    assert_eq!(
        log,
        vec![
            framed(&[0x7F, 0x20]),
            framed(&[0x09, 0x01]),
            framed(&[0x00, 0x0A]),
            framed(&[0x7F, 0x00]),
        ]
    );
    let mut log = Log::new();
    let a = imu.config_gyro_rate(5);
    drive(&mut imu, a, &mut log, filled(0)).unwrap();
    assert_eq!(log[2], framed(&[0x00, 224]));
    let mut log = Log::new();
    let a = imu.config_gyro_rate(1100);
    drive(&mut imu, a, &mut log, filled(0)).unwrap();
    assert_eq!(log[2], framed(&[0x00, 0x00]));
    for rate in [0u16, 4, 1101, 1125, 1126, 2000] {
        let mut log = Log::new();
        let a = imu.config_gyro_rate(rate);
        assert_eq!(drive(&mut imu, a, &mut log, filled(0)), Err(IcmError::InvalidInput));
        assert!(log.is_empty());
    }
}

#[test]
fn rate_dividers() {
    let mut imu = ready();
    let mut log = Log::new();
    let a = imu.config_acc_rate_div(0x123);
    drive(&mut imu, a, &mut log, filled(0)).unwrap();
    assert_eq!(log[2], framed(&[0x10, 0x01]));
    assert_eq!(log[3], framed(&[0x11, 0x22]));
    let mut log = Log::new();
    let a = imu.config_acc_rate_div(4096);
    assert_eq!(drive(&mut imu, a, &mut log, filled(0)), Err(IcmError::InvalidInput));
    assert!(log.is_empty());
    let mut log = Log::new();
    let a = imu.config_gyro_rate_div(1);
    drive(&mut imu, a, &mut log, filled(0)).unwrap();
    assert_eq!(log[2], framed(&[0x00, 0x00]));
}

#[test]
fn reset_then_wake() {
    let mut imu = ready();
    let mut log = Log::new();
    let a = imu.reset();
    assert_eq!(drive(&mut imu, a, &mut log, filled(0)), Ok(Reply::Unit));
    assert_eq!(log, vec![framed(&[0x06, 0x80]), framed(&[0x06, 0x01])]);
}

#[test]
fn bus_error_ends_the_operation() {
    let mut imu = ready();
    let mut log = Log::new();
    let a = imu.set_acc_sen(AccSensitivity::Sen16g);
    let r = drive(&mut imu, a, &mut log, |n, s: &[u8]| (vec![0; s.len()], n != 1));
    assert_eq!(r, Err(IcmError::BusError));
    assert_eq!(log.len(), 2);
    assert_eq!(imu.accel_sen(), 16384);
    let mut log = Log::new();
    let a = imu.wai();
    assert_eq!(drive(&mut imu, a, &mut log, |_, _| (vec![0, 0xEA], true)), Ok(Reply::Byte(0xEA)));
}

#[test]
fn magnetometer_stays_off() {
    let mut imu = ready();
    let mut log = Log::new();
    let a = imu.reset();
    drive(&mut imu, a, &mut log, filled(0xFF)).unwrap();
    let a = imu.read_gyro();
    drive(&mut imu, a, &mut log, filled(0xFF)).unwrap();
    assert!(!imu.mag_on());
}

#[test]
fn samples_are_twos_complement() {
    assert_eq!(sample_from_bytes(0x00, 0x00), 0);
    assert_eq!(sample_from_bytes(0x7F, 0xFF), 32767);
    assert_eq!(sample_from_bytes(0x80, 0x00), -32768);
    assert_eq!(sample_from_bytes(0xFF, 0xFF), -1);
    assert_eq!(sample_from_bytes(0x01, 0x02), 258);
}

#[test]
fn settings_follow_the_last_step_that_ran_over_a_session() {
    let mut imu = ready();
    let mut log = Log::new();
    // the interrupt goes on
    let a = imu.enable_int();
    drive(&mut imu, a, &mut log, filled(0)).unwrap();
    // the accelerometer goes off
    let a = imu.disable_acc();
    drive(&mut imu, a, &mut log, filled(0)).unwrap();
    assert!(!imu.acc_on());
    // a read that finds it off switches it on; the read itself then fails,
    // and the switch stays
    let a = imu.read_acc_z();
    let r = drive(&mut imu, a, &mut log, |n, s: &[u8]| (vec![0; s.len()], n != 2));
    assert_eq!(r, Err(IcmError::BusError));
    assert!(imu.acc_on());
    // a full scale setting whose last transfer fails records nothing
    let a = imu.set_acc_sen(AccSensitivity::Sen16g);
    let r = drive(&mut imu, a, &mut log, |n, s: &[u8]| (vec![0; s.len()], n != 3));
    assert_eq!(r, Err(IcmError::BusError));
    assert_eq!(imu.accel_sen(), 16384);
    // a failed interrupt switch keeps the flag; nothing touches the rest
    let a = imu.disable_int();
    let r = drive(&mut imu, a, &mut log, |_, s: &[u8]| (vec![0; s.len()], false));
    assert_eq!(r, Err(IcmError::BusError));
    assert!(imu.int_on());
    assert!(imu.gyro_on());
    assert!(!imu.mag_on());
    assert_eq!(imu.gyro_sen(), GyroSensitivity::Sen250dps);
}
