//! The driver's operations. Each one starts the program of the operation
//! and returns the first thing the bus owner has to do; `resume` carries it
//! on from there.
use vstd::prelude::*;
use crate::registers::{
    RegistersBank0, RegistersBank2, AccStates, GyroStates, AccSensitivity, GyroSensitivity, AccLPF,
    GyroLPF, IcmError, INT_ENABLED, INT_NOT_ENABLED,
};
use crate::program::{Step, ReplyKind, ActionModel, launch};
use crate::imu::{IcmImu, Action};
use crate::laws::{
    wai_run, interrupt_run, pwr_mgmt_2_run, read_axis_run, read_axis_guarded_run, read_three_run,
    read_three_guarded_run, sensitivity_run, low_pass_filter_run, low_pass_filter_off_run,
    acc_divider_run, gyro_divider_run, reset_run, law_wai, law_interrupt, law_pwr_mgmt_2,
    law_read_axis, law_read_axis_guarded, law_read_three, law_read_three_guarded, law_read_programs,
    law_sensitivity, law_low_pass_filter, law_low_pass_filter_off, law_acc_divider,
    law_gyro_divider, law_reset,
};
use crate::ops::{
    BASE_RATE, wai_prog, int_prog, enable_acc_prog, disable_acc_prog, enable_gyro_prog,
    disable_gyro_prog, read_axis_prog, acc_guard, gyro_guard, acc_x_pair, acc_y_pair, acc_z_pair, gyro_x_pair,
    gyro_y_pair, gyro_z_pair, read_acc_prog, read_gyro_prog, set_acc_sen_prog, set_gyro_sen_prog,
    lpf_prog, lpf_off_prog, acc_div_prog, gyro_div_prog, acc_rate_div, gyro_rate_div, reset_prog,
    wai_steps, int_steps, enable_acc_steps, enable_gyro_steps, pwr_mgmt_2_steps, concat, acc_guard_steps,
    gyro_guard_steps,
    read_pair_steps, sensitivity_steps, fs_mask_values, acc_sen_values, gyro_sen_code, lpf_steps,
    lpf_off_steps, acc_div_steps, gyro_div_steps, reset_steps, read_pair_prog, fs_masks,
};

verus! {

/// Accepted accelerometer output rates: below 1125 Hz.
pub open spec fn acc_rate_ok(rate: u16) -> bool {
    rate < BASE_RATE
}

/// Highest accepted gyro output rate, in Hz.
pub const GYRO_RATE_MAX: u16 = 1100;

/// Accepted gyro output rates: above 4 Hz (the divider has 8 bits) and at
/// most 1.1 kHz.
pub open spec fn gyro_rate_ok(rate: u16) -> bool {
    4 < rate <= GYRO_RATE_MAX
}

/// Accepted accelerometer dividers: below 4096 (the register is 12 bits).
pub open spec fn acc_div_ok(div: u16) -> bool {
    div < 4096
}

impl IcmImu {
    /// Who Am I? Reads `WHO_AM_I`; the reply is the register's value.
    pub fn wai(&mut self) -> (a: Action)
        requires
            old(self).wf(),
            old(self)@.idle(),
        ensures
            final(self).wf(),
            (final(self)@, a@) == launch(old(self)@.with_job(wai_prog(), ReplyKind::Byte)),
            forall|r: Seq<u8>| r.len() == 2 ==> #[trigger] wai_run(old(self)@, r),
    {
        let ghost m0 = self@;
        proof {
            assert forall|r: Seq<u8>| r.len() == 2 implies #[trigger] wai_run(m0, r) by {
                law_wai(m0, r);
            }
        }
        self.start(wai_steps(), ReplyKind::Byte)
    }

    /// Enables the raw data ready interrupt: `INT_ENABLE_1 = 0x01`.
    pub fn enable_int(&mut self) -> (a: Action)
        requires
            old(self).wf(),
            old(self)@.idle(),
        ensures
            final(self).wf(),
            (final(self)@, a@) == launch(
                old(self)@.with_job(int_prog(0x01, INT_ENABLED), ReplyKind::Unit),
            ),
            forall|r: Seq<u8>| r.len() == 2 ==> #[trigger] interrupt_run(old(self)@, 0x01, INT_ENABLED, r),
    {
        let ghost m0 = self@;
        proof {
            assert forall|r: Seq<u8>| r.len() == 2 implies #[trigger] interrupt_run(m0, 0x01, INT_ENABLED, r) by {
                law_interrupt(m0, 0x01, INT_ENABLED, r);
            }
        }
        self.start(int_steps(0x01, INT_ENABLED), ReplyKind::Unit)
    }

    /// Disables the raw data ready interrupt: `INT_ENABLE_1 = 0x00`.
    pub fn disable_int(&mut self) -> (a: Action)
        requires
            old(self).wf(),
            old(self)@.idle(),
        ensures
            final(self).wf(),
            (final(self)@, a@) == launch(
                old(self)@.with_job(int_prog(0x00, INT_NOT_ENABLED), ReplyKind::Unit),
            ),
            forall|r: Seq<u8>| r.len() == 2 ==> #[trigger] interrupt_run(old(self)@, 0x00, INT_NOT_ENABLED, r),
    {
        let ghost m0 = self@;
        proof {
            assert forall|r: Seq<u8>| r.len() == 2 implies #[trigger] interrupt_run(m0, 0x00, INT_NOT_ENABLED, r) by {
                law_interrupt(m0, 0x00, INT_NOT_ENABLED, r);
            }
        }
        self.start(int_steps(0x00, INT_NOT_ENABLED), ReplyKind::Unit)
    }

    /// Enables the accelerometer: clears `DISABLE_ACCEL` in `PWR_MGMT_2`.
    pub fn enable_acc(&mut self) -> (a: Action)
        requires
            old(self).wf(),
            old(self)@.idle(),
        ensures
            final(self).wf(),
            (final(self)@, a@) == launch(old(self)@.with_job(enable_acc_prog(), ReplyKind::Unit)),
            forall|r1: Seq<u8>, r2: Seq<u8>| r1.len() == 2 && r2.len() == 2 ==> #[trigger] pwr_mgmt_2_run(old(self)@, false, 0x07, 0, Step::SetAcc { acc: AccStates::AccOn }, r1, r2),
    {
        let ghost m0 = self@;
        proof {
            assert forall|r1: Seq<u8>, r2: Seq<u8>| r1.len() == 2 && r2.len() == 2 implies #[trigger] pwr_mgmt_2_run(m0, false, 0x07, 0, Step::SetAcc { acc: AccStates::AccOn }, r1, r2) by {
                law_pwr_mgmt_2(m0, false, 0x07, 0, Step::SetAcc { acc: AccStates::AccOn }, r1, r2);
            }
        }
        self.start(enable_acc_steps(), ReplyKind::Unit)
    }

    /// Disables the accelerometer: sets `DISABLE_ACCEL` in `PWR_MGMT_2`.
    pub fn disable_acc(&mut self) -> (a: Action)
        requires
            old(self).wf(),
            old(self)@.idle(),
        ensures
            final(self).wf(),
            (final(self)@, a@) == launch(old(self)@.with_job(disable_acc_prog(), ReplyKind::Unit)),
            forall|r1: Seq<u8>, r2: Seq<u8>| r1.len() == 2 && r2.len() == 2 ==> #[trigger] pwr_mgmt_2_run(old(self)@, false, 0xFF, 0x38, Step::SetAcc { acc: AccStates::AccOff }, r1, r2),
    {
        let ghost m0 = self@;
        proof {
            assert forall|r1: Seq<u8>, r2: Seq<u8>| r1.len() == 2 && r2.len() == 2 implies #[trigger] pwr_mgmt_2_run(m0, false, 0xFF, 0x38, Step::SetAcc { acc: AccStates::AccOff }, r1, r2) by {
                law_pwr_mgmt_2(m0, false, 0xFF, 0x38, Step::SetAcc { acc: AccStates::AccOff }, r1, r2);
            }
        }
        self.start(
            pwr_mgmt_2_steps(false, 0xFF, 0x38, Step::SetAcc { acc: AccStates::AccOff }),
            ReplyKind::Unit,
        )
    }

    /// Enables the gyro: clears `DISABLE_GYRO` in `PWR_MGMT_2`.
    pub fn enable_gyro(&mut self) -> (a: Action)
        requires
            old(self).wf(),
            old(self)@.idle(),
        ensures
            final(self).wf(),
            (final(self)@, a@) == launch(old(self)@.with_job(enable_gyro_prog(), ReplyKind::Unit)),
            forall|r1: Seq<u8>, r2: Seq<u8>| r1.len() == 2 && r2.len() == 2 ==> #[trigger] pwr_mgmt_2_run(old(self)@, true, 0x38, 0, Step::SetGyro { gyro: GyroStates::GyroOn }, r1, r2),
    {
        let ghost m0 = self@;
        proof {
            assert forall|r1: Seq<u8>, r2: Seq<u8>| r1.len() == 2 && r2.len() == 2 implies #[trigger] pwr_mgmt_2_run(m0, true, 0x38, 0, Step::SetGyro { gyro: GyroStates::GyroOn }, r1, r2) by {
                law_pwr_mgmt_2(m0, true, 0x38, 0, Step::SetGyro { gyro: GyroStates::GyroOn }, r1, r2);
            }
        }
        self.start(enable_gyro_steps(), ReplyKind::Unit)
    }

    /// Disables the gyro: sets `DISABLE_GYRO` in `PWR_MGMT_2`.
    pub fn disable_gyro(&mut self) -> (a: Action)
        requires
            old(self).wf(),
            old(self)@.idle(),
        ensures
            final(self).wf(),
            (final(self)@, a@) == launch(
                old(self)@.with_job(disable_gyro_prog(), ReplyKind::Unit),
            ),
            forall|r1: Seq<u8>, r2: Seq<u8>| r1.len() == 2 && r2.len() == 2 ==> #[trigger] pwr_mgmt_2_run(old(self)@, false, 0xFF, 0x07, Step::SetGyro { gyro: GyroStates::GyroOff }, r1, r2),
    {
        let ghost m0 = self@;
        proof {
            assert forall|r1: Seq<u8>, r2: Seq<u8>| r1.len() == 2 && r2.len() == 2 implies #[trigger] pwr_mgmt_2_run(m0, false, 0xFF, 0x07, Step::SetGyro { gyro: GyroStates::GyroOff }, r1, r2) by {
                law_pwr_mgmt_2(m0, false, 0xFF, 0x07, Step::SetGyro { gyro: GyroStates::GyroOff }, r1, r2);
            }
        }
        self.start(
            pwr_mgmt_2_steps(false, 0xFF, 0x07, Step::SetGyro { gyro: GyroStates::GyroOff }),
            ReplyKind::Unit,
        )
    }

    /// Raw accelerometer reading in the X direction; switches the
    /// accelerometer on first if it is off.
    pub fn read_acc_x(&mut self) -> (a: Action)
        requires
            old(self).wf(),
            old(self)@.idle(),
        ensures
            final(self).wf(),
            (final(self)@, a@) == launch(
                old(self)@.with_job(
                    read_axis_prog(
                        acc_guard(old(self)@.acc_en == AccStates::AccOn),
                        acc_x_pair(0)),
                    ReplyKind::Sample,
                ),
            ),
            forall|r: Seq<u8>| old(self)@.acc_en == AccStates::AccOn && r.len() == 3 ==> #[trigger] read_axis_run(old(self)@, RegistersBank0::AccelXOutH, RegistersBank0::AccelXOutL, r),
            forall|g1: Seq<u8>, g2: Seq<u8>, r: Seq<u8>| !(old(self)@.acc_en == AccStates::AccOn) && g1.len() == 2 && g2.len() == 2 && r.len() == 3 ==> #[trigger] read_axis_guarded_run(old(self)@, false, 0x07, 0, Step::SetAcc { acc: AccStates::AccOn }, RegistersBank0::AccelXOutH, RegistersBank0::AccelXOutL, g1, g2, r),
    {
        let ghost m0 = self@;
        proof {
            assert forall|r: Seq<u8>| m0.acc_en == AccStates::AccOn && r.len() == 3 implies #[trigger] read_axis_run(m0, RegistersBank0::AccelXOutH, RegistersBank0::AccelXOutL, r) by {
                law_read_axis(m0, RegistersBank0::AccelXOutH, RegistersBank0::AccelXOutL, r);
            }
            assert forall|g1: Seq<u8>, g2: Seq<u8>, r: Seq<u8>| !(m0.acc_en == AccStates::AccOn) && g1.len() == 2 && g2.len() == 2 && r.len() == 3 implies #[trigger] read_axis_guarded_run(m0, false, 0x07, 0, Step::SetAcc { acc: AccStates::AccOn }, RegistersBank0::AccelXOutH, RegistersBank0::AccelXOutL, g1, g2, r) by {
                law_read_axis_guarded(m0, false, 0x07, 0, Step::SetAcc { acc: AccStates::AccOn }, RegistersBank0::AccelXOutH, RegistersBank0::AccelXOutL, g1, g2, r);
            }
        }
        let on = self.acc_on();
        let p = concat(
            acc_guard_steps(on),
            read_pair_steps(RegistersBank0::AccelXOutH, RegistersBank0::AccelXOutL, 0),
        );
        self.start(p, ReplyKind::Sample)
    }

    /// Raw accelerometer reading in the Y direction; switches the
    /// accelerometer on first if it is off.
    pub fn read_acc_y(&mut self) -> (a: Action)
        requires
            old(self).wf(),
            old(self)@.idle(),
        ensures
            final(self).wf(),
            (final(self)@, a@) == launch(
                old(self)@.with_job(
                    read_axis_prog(
                        acc_guard(old(self)@.acc_en == AccStates::AccOn),
                        acc_y_pair(0)),
                    ReplyKind::Sample,
                ),
            ),
            forall|r: Seq<u8>| old(self)@.acc_en == AccStates::AccOn && r.len() == 3 ==> #[trigger] read_axis_run(old(self)@, RegistersBank0::AccelYOutH, RegistersBank0::AccelYOutL, r),
            forall|g1: Seq<u8>, g2: Seq<u8>, r: Seq<u8>| !(old(self)@.acc_en == AccStates::AccOn) && g1.len() == 2 && g2.len() == 2 && r.len() == 3 ==> #[trigger] read_axis_guarded_run(old(self)@, false, 0x07, 0, Step::SetAcc { acc: AccStates::AccOn }, RegistersBank0::AccelYOutH, RegistersBank0::AccelYOutL, g1, g2, r),
    {
        let ghost m0 = self@;
        proof {
            assert forall|r: Seq<u8>| m0.acc_en == AccStates::AccOn && r.len() == 3 implies #[trigger] read_axis_run(m0, RegistersBank0::AccelYOutH, RegistersBank0::AccelYOutL, r) by {
                law_read_axis(m0, RegistersBank0::AccelYOutH, RegistersBank0::AccelYOutL, r);
            }
            assert forall|g1: Seq<u8>, g2: Seq<u8>, r: Seq<u8>| !(m0.acc_en == AccStates::AccOn) && g1.len() == 2 && g2.len() == 2 && r.len() == 3 implies #[trigger] read_axis_guarded_run(m0, false, 0x07, 0, Step::SetAcc { acc: AccStates::AccOn }, RegistersBank0::AccelYOutH, RegistersBank0::AccelYOutL, g1, g2, r) by {
                law_read_axis_guarded(m0, false, 0x07, 0, Step::SetAcc { acc: AccStates::AccOn }, RegistersBank0::AccelYOutH, RegistersBank0::AccelYOutL, g1, g2, r);
            }
        }
        let on = self.acc_on();
        let p = concat(
            acc_guard_steps(on),
            read_pair_steps(RegistersBank0::AccelYOutH, RegistersBank0::AccelYOutL, 0),
        );
        self.start(p, ReplyKind::Sample)
    }

    /// Raw accelerometer reading in the Z direction; switches the
    /// accelerometer on first if it is off.
    pub fn read_acc_z(&mut self) -> (a: Action)
        requires
            old(self).wf(),
            old(self)@.idle(),
        ensures
            final(self).wf(),
            (final(self)@, a@) == launch(
                old(self)@.with_job(
                    read_axis_prog(
                        acc_guard(old(self)@.acc_en == AccStates::AccOn),
                        acc_z_pair(0)),
                    ReplyKind::Sample,
                ),
            ),
            forall|r: Seq<u8>| old(self)@.acc_en == AccStates::AccOn && r.len() == 3 ==> #[trigger] read_axis_run(old(self)@, RegistersBank0::AccelZOutH, RegistersBank0::AccelZOutL, r),
            forall|g1: Seq<u8>, g2: Seq<u8>, r: Seq<u8>| !(old(self)@.acc_en == AccStates::AccOn) && g1.len() == 2 && g2.len() == 2 && r.len() == 3 ==> #[trigger] read_axis_guarded_run(old(self)@, false, 0x07, 0, Step::SetAcc { acc: AccStates::AccOn }, RegistersBank0::AccelZOutH, RegistersBank0::AccelZOutL, g1, g2, r),
    {
        let ghost m0 = self@;
        proof {
            assert forall|r: Seq<u8>| m0.acc_en == AccStates::AccOn && r.len() == 3 implies #[trigger] read_axis_run(m0, RegistersBank0::AccelZOutH, RegistersBank0::AccelZOutL, r) by {
                law_read_axis(m0, RegistersBank0::AccelZOutH, RegistersBank0::AccelZOutL, r);
            }
            assert forall|g1: Seq<u8>, g2: Seq<u8>, r: Seq<u8>| !(m0.acc_en == AccStates::AccOn) && g1.len() == 2 && g2.len() == 2 && r.len() == 3 implies #[trigger] read_axis_guarded_run(m0, false, 0x07, 0, Step::SetAcc { acc: AccStates::AccOn }, RegistersBank0::AccelZOutH, RegistersBank0::AccelZOutL, g1, g2, r) by {
                law_read_axis_guarded(m0, false, 0x07, 0, Step::SetAcc { acc: AccStates::AccOn }, RegistersBank0::AccelZOutH, RegistersBank0::AccelZOutL, g1, g2, r);
            }
        }
        let on = self.acc_on();
        let p = concat(
            acc_guard_steps(on),
            read_pair_steps(RegistersBank0::AccelZOutH, RegistersBank0::AccelZOutL, 0),
        );
        self.start(p, ReplyKind::Sample)
    }

    /// All three raw accelerometer readings, x, y, z; switches the
    /// accelerometer on first if it is off.
    pub fn read_acc(&mut self) -> (a: Action)
        requires
            old(self).wf(),
            old(self)@.idle(),
        ensures
            final(self).wf(),
            (final(self)@, a@) == launch(
                old(self)@.with_job(
                    read_acc_prog(old(self)@.acc_en == AccStates::AccOn),
                    ReplyKind::Samples,
                ),
            ),
            forall|r1: Seq<u8>, r2: Seq<u8>, r3: Seq<u8>| old(self)@.acc_en == AccStates::AccOn && r1.len() == 3 && r2.len() == 3 && r3.len() == 3 ==> #[trigger] read_three_run(old(self)@, read_acc_prog(true), (RegistersBank0::AccelXOutH, RegistersBank0::AccelXOutL), (RegistersBank0::AccelYOutH, RegistersBank0::AccelYOutL), (RegistersBank0::AccelZOutH, RegistersBank0::AccelZOutL), r1, r2, r3),
            forall|g1: Seq<u8>, g2: Seq<u8>, r1: Seq<u8>, r2: Seq<u8>, r3: Seq<u8>| !(old(self)@.acc_en == AccStates::AccOn) && g1.len() == 2 && g2.len() == 2 && r1.len() == 3 && r2.len() == 3 && r3.len() == 3 ==> #[trigger] read_three_guarded_run(old(self)@, false, 0x07, 0, Step::SetAcc { acc: AccStates::AccOn }, (RegistersBank0::AccelXOutH, RegistersBank0::AccelXOutL), (RegistersBank0::AccelYOutH, RegistersBank0::AccelYOutL), (RegistersBank0::AccelZOutH, RegistersBank0::AccelZOutL), g1, g2, r1, r2, r3),
    {
        let ghost m0 = self@;
        proof {
            assert forall|r1: Seq<u8>, r2: Seq<u8>, r3: Seq<u8>| m0.acc_en == AccStates::AccOn && r1.len() == 3 && r2.len() == 3 && r3.len() == 3 implies #[trigger] read_three_run(m0, read_acc_prog(true), (RegistersBank0::AccelXOutH, RegistersBank0::AccelXOutL), (RegistersBank0::AccelYOutH, RegistersBank0::AccelYOutL), (RegistersBank0::AccelZOutH, RegistersBank0::AccelZOutL), r1, r2, r3) by {
                law_read_programs();
                assert(read_acc_prog(true) =~= read_pair_prog((RegistersBank0::AccelXOutH, RegistersBank0::AccelXOutL).0, (RegistersBank0::AccelXOutH, RegistersBank0::AccelXOutL).1, 0) + read_pair_prog((RegistersBank0::AccelYOutH, RegistersBank0::AccelYOutL).0, (RegistersBank0::AccelYOutH, RegistersBank0::AccelYOutL).1, 2) + read_pair_prog((RegistersBank0::AccelZOutH, RegistersBank0::AccelZOutL).0, (RegistersBank0::AccelZOutH, RegistersBank0::AccelZOutL).1, 4));
                law_read_three(m0, read_acc_prog(true), (RegistersBank0::AccelXOutH, RegistersBank0::AccelXOutL), (RegistersBank0::AccelYOutH, RegistersBank0::AccelYOutL), (RegistersBank0::AccelZOutH, RegistersBank0::AccelZOutL), r1, r2, r3);
            }
            assert forall|g1: Seq<u8>, g2: Seq<u8>, r1: Seq<u8>, r2: Seq<u8>, r3: Seq<u8>| !(m0.acc_en == AccStates::AccOn) && g1.len() == 2 && g2.len() == 2 && r1.len() == 3 && r2.len() == 3 && r3.len() == 3 implies #[trigger] read_three_guarded_run(m0, false, 0x07, 0, Step::SetAcc { acc: AccStates::AccOn }, (RegistersBank0::AccelXOutH, RegistersBank0::AccelXOutL), (RegistersBank0::AccelYOutH, RegistersBank0::AccelYOutL), (RegistersBank0::AccelZOutH, RegistersBank0::AccelZOutL), g1, g2, r1, r2, r3) by {
                law_read_three_guarded(m0, false, 0x07, 0, Step::SetAcc { acc: AccStates::AccOn }, (RegistersBank0::AccelXOutH, RegistersBank0::AccelXOutL), (RegistersBank0::AccelYOutH, RegistersBank0::AccelYOutL), (RegistersBank0::AccelZOutH, RegistersBank0::AccelZOutL), g1, g2, r1, r2, r3);
            }
        }
        let on = self.acc_on();
        let p = concat(
            concat(
                concat(
                    acc_guard_steps(on),
                    read_pair_steps(RegistersBank0::AccelXOutH, RegistersBank0::AccelXOutL, 0),
                ),
                read_pair_steps(RegistersBank0::AccelYOutH, RegistersBank0::AccelYOutL, 2),
            ),
            read_pair_steps(RegistersBank0::AccelZOutH, RegistersBank0::AccelZOutL, 4),
        );
        self.start(p, ReplyKind::Samples)
    }

    /// Raw gyro reading in the X direction; switches the gyro on
    /// first if it is off.
    pub fn read_gyro_x(&mut self) -> (a: Action)
        requires
            old(self).wf(),
            old(self)@.idle(),
        ensures
            final(self).wf(),
            (final(self)@, a@) == launch(
                old(self)@.with_job(
                    read_axis_prog(
                        gyro_guard(old(self)@.gyro_en == GyroStates::GyroOn),
                        gyro_x_pair(0)),
                    ReplyKind::Sample,
                ),
            ),
            forall|r: Seq<u8>| old(self)@.gyro_en == GyroStates::GyroOn && r.len() == 3 ==> #[trigger] read_axis_run(old(self)@, RegistersBank0::GyroXOutH, RegistersBank0::GyroXOutL, r),
            forall|g1: Seq<u8>, g2: Seq<u8>, r: Seq<u8>| !(old(self)@.gyro_en == GyroStates::GyroOn) && g1.len() == 2 && g2.len() == 2 && r.len() == 3 ==> #[trigger] read_axis_guarded_run(old(self)@, true, 0x38, 0, Step::SetGyro { gyro: GyroStates::GyroOn }, RegistersBank0::GyroXOutH, RegistersBank0::GyroXOutL, g1, g2, r),
    {
        let ghost m0 = self@;
        proof {
            assert forall|r: Seq<u8>| m0.gyro_en == GyroStates::GyroOn && r.len() == 3 implies #[trigger] read_axis_run(m0, RegistersBank0::GyroXOutH, RegistersBank0::GyroXOutL, r) by {
                law_read_axis(m0, RegistersBank0::GyroXOutH, RegistersBank0::GyroXOutL, r);
            }
            assert forall|g1: Seq<u8>, g2: Seq<u8>, r: Seq<u8>| !(m0.gyro_en == GyroStates::GyroOn) && g1.len() == 2 && g2.len() == 2 && r.len() == 3 implies #[trigger] read_axis_guarded_run(m0, true, 0x38, 0, Step::SetGyro { gyro: GyroStates::GyroOn }, RegistersBank0::GyroXOutH, RegistersBank0::GyroXOutL, g1, g2, r) by {
                law_read_axis_guarded(m0, true, 0x38, 0, Step::SetGyro { gyro: GyroStates::GyroOn }, RegistersBank0::GyroXOutH, RegistersBank0::GyroXOutL, g1, g2, r);
            }
        }
        let on = self.gyro_on();
        let p = concat(
            gyro_guard_steps(on),
            read_pair_steps(RegistersBank0::GyroXOutH, RegistersBank0::GyroXOutL, 0),
        );
        self.start(p, ReplyKind::Sample)
    }

    /// Raw gyro reading in the Y direction; switches the gyro on
    /// first if it is off.
    pub fn read_gyro_y(&mut self) -> (a: Action)
        requires
            old(self).wf(),
            old(self)@.idle(),
        ensures
            final(self).wf(),
            (final(self)@, a@) == launch(
                old(self)@.with_job(
                    read_axis_prog(
                        gyro_guard(old(self)@.gyro_en == GyroStates::GyroOn),
                        gyro_y_pair(0)),
                    ReplyKind::Sample,
                ),
            ),
            forall|r: Seq<u8>| old(self)@.gyro_en == GyroStates::GyroOn && r.len() == 3 ==> #[trigger] read_axis_run(old(self)@, RegistersBank0::GyroYOutH, RegistersBank0::GyroYOutL, r),
            forall|g1: Seq<u8>, g2: Seq<u8>, r: Seq<u8>| !(old(self)@.gyro_en == GyroStates::GyroOn) && g1.len() == 2 && g2.len() == 2 && r.len() == 3 ==> #[trigger] read_axis_guarded_run(old(self)@, true, 0x38, 0, Step::SetGyro { gyro: GyroStates::GyroOn }, RegistersBank0::GyroYOutH, RegistersBank0::GyroYOutL, g1, g2, r),
    {
        let ghost m0 = self@;
        proof {
            assert forall|r: Seq<u8>| m0.gyro_en == GyroStates::GyroOn && r.len() == 3 implies #[trigger] read_axis_run(m0, RegistersBank0::GyroYOutH, RegistersBank0::GyroYOutL, r) by {
                law_read_axis(m0, RegistersBank0::GyroYOutH, RegistersBank0::GyroYOutL, r);
            }
            assert forall|g1: Seq<u8>, g2: Seq<u8>, r: Seq<u8>| !(m0.gyro_en == GyroStates::GyroOn) && g1.len() == 2 && g2.len() == 2 && r.len() == 3 implies #[trigger] read_axis_guarded_run(m0, true, 0x38, 0, Step::SetGyro { gyro: GyroStates::GyroOn }, RegistersBank0::GyroYOutH, RegistersBank0::GyroYOutL, g1, g2, r) by {
                law_read_axis_guarded(m0, true, 0x38, 0, Step::SetGyro { gyro: GyroStates::GyroOn }, RegistersBank0::GyroYOutH, RegistersBank0::GyroYOutL, g1, g2, r);
            }
        }
        let on = self.gyro_on();
        let p = concat(
            gyro_guard_steps(on),
            read_pair_steps(RegistersBank0::GyroYOutH, RegistersBank0::GyroYOutL, 0),
        );
        self.start(p, ReplyKind::Sample)
    }

    /// Raw gyro reading in the Z direction; switches the gyro on
    /// first if it is off.
    pub fn read_gyro_z(&mut self) -> (a: Action)
        requires
            old(self).wf(),
            old(self)@.idle(),
        ensures
            final(self).wf(),
            (final(self)@, a@) == launch(
                old(self)@.with_job(
                    read_axis_prog(
                        gyro_guard(old(self)@.gyro_en == GyroStates::GyroOn),
                        gyro_z_pair(0)),
                    ReplyKind::Sample,
                ),
            ),
            forall|r: Seq<u8>| old(self)@.gyro_en == GyroStates::GyroOn && r.len() == 3 ==> #[trigger] read_axis_run(old(self)@, RegistersBank0::GyroZOutH, RegistersBank0::GyroZOutL, r),
            forall|g1: Seq<u8>, g2: Seq<u8>, r: Seq<u8>| !(old(self)@.gyro_en == GyroStates::GyroOn) && g1.len() == 2 && g2.len() == 2 && r.len() == 3 ==> #[trigger] read_axis_guarded_run(old(self)@, true, 0x38, 0, Step::SetGyro { gyro: GyroStates::GyroOn }, RegistersBank0::GyroZOutH, RegistersBank0::GyroZOutL, g1, g2, r),
    {
        let ghost m0 = self@;
        proof {
            assert forall|r: Seq<u8>| m0.gyro_en == GyroStates::GyroOn && r.len() == 3 implies #[trigger] read_axis_run(m0, RegistersBank0::GyroZOutH, RegistersBank0::GyroZOutL, r) by {
                law_read_axis(m0, RegistersBank0::GyroZOutH, RegistersBank0::GyroZOutL, r);
            }
            assert forall|g1: Seq<u8>, g2: Seq<u8>, r: Seq<u8>| !(m0.gyro_en == GyroStates::GyroOn) && g1.len() == 2 && g2.len() == 2 && r.len() == 3 implies #[trigger] read_axis_guarded_run(m0, true, 0x38, 0, Step::SetGyro { gyro: GyroStates::GyroOn }, RegistersBank0::GyroZOutH, RegistersBank0::GyroZOutL, g1, g2, r) by {
                law_read_axis_guarded(m0, true, 0x38, 0, Step::SetGyro { gyro: GyroStates::GyroOn }, RegistersBank0::GyroZOutH, RegistersBank0::GyroZOutL, g1, g2, r);
            }
        }
        let on = self.gyro_on();
        let p = concat(
            gyro_guard_steps(on),
            read_pair_steps(RegistersBank0::GyroZOutH, RegistersBank0::GyroZOutL, 0),
        );
        self.start(p, ReplyKind::Sample)
    }

    /// All three raw gyro readings, x, y, z; switches the gyro on first if it
    /// is off.
    pub fn read_gyro(&mut self) -> (a: Action)
        requires
            old(self).wf(),
            old(self)@.idle(),
        ensures
            final(self).wf(),
            (final(self)@, a@) == launch(
                old(self)@.with_job(
                    read_gyro_prog(old(self)@.gyro_en == GyroStates::GyroOn),
                    ReplyKind::Samples,
                ),
            ),
            forall|r1: Seq<u8>, r2: Seq<u8>, r3: Seq<u8>| old(self)@.gyro_en == GyroStates::GyroOn && r1.len() == 3 && r2.len() == 3 && r3.len() == 3 ==> #[trigger] read_three_run(old(self)@, read_gyro_prog(true), (RegistersBank0::GyroXOutH, RegistersBank0::GyroXOutL), (RegistersBank0::GyroYOutH, RegistersBank0::GyroYOutL), (RegistersBank0::GyroZOutH, RegistersBank0::GyroZOutL), r1, r2, r3),
            forall|g1: Seq<u8>, g2: Seq<u8>, r1: Seq<u8>, r2: Seq<u8>, r3: Seq<u8>| !(old(self)@.gyro_en == GyroStates::GyroOn) && g1.len() == 2 && g2.len() == 2 && r1.len() == 3 && r2.len() == 3 && r3.len() == 3 ==> #[trigger] read_three_guarded_run(old(self)@, true, 0x38, 0, Step::SetGyro { gyro: GyroStates::GyroOn }, (RegistersBank0::GyroXOutH, RegistersBank0::GyroXOutL), (RegistersBank0::GyroYOutH, RegistersBank0::GyroYOutL), (RegistersBank0::GyroZOutH, RegistersBank0::GyroZOutL), g1, g2, r1, r2, r3),
    {
        let ghost m0 = self@;
        proof {
            assert forall|r1: Seq<u8>, r2: Seq<u8>, r3: Seq<u8>| m0.gyro_en == GyroStates::GyroOn && r1.len() == 3 && r2.len() == 3 && r3.len() == 3 implies #[trigger] read_three_run(m0, read_gyro_prog(true), (RegistersBank0::GyroXOutH, RegistersBank0::GyroXOutL), (RegistersBank0::GyroYOutH, RegistersBank0::GyroYOutL), (RegistersBank0::GyroZOutH, RegistersBank0::GyroZOutL), r1, r2, r3) by {
                law_read_programs();
                assert(read_gyro_prog(true) =~= read_pair_prog((RegistersBank0::GyroXOutH, RegistersBank0::GyroXOutL).0, (RegistersBank0::GyroXOutH, RegistersBank0::GyroXOutL).1, 0) + read_pair_prog((RegistersBank0::GyroYOutH, RegistersBank0::GyroYOutL).0, (RegistersBank0::GyroYOutH, RegistersBank0::GyroYOutL).1, 2) + read_pair_prog((RegistersBank0::GyroZOutH, RegistersBank0::GyroZOutL).0, (RegistersBank0::GyroZOutH, RegistersBank0::GyroZOutL).1, 4));
                law_read_three(m0, read_gyro_prog(true), (RegistersBank0::GyroXOutH, RegistersBank0::GyroXOutL), (RegistersBank0::GyroYOutH, RegistersBank0::GyroYOutL), (RegistersBank0::GyroZOutH, RegistersBank0::GyroZOutL), r1, r2, r3);
            }
            assert forall|g1: Seq<u8>, g2: Seq<u8>, r1: Seq<u8>, r2: Seq<u8>, r3: Seq<u8>| !(m0.gyro_en == GyroStates::GyroOn) && g1.len() == 2 && g2.len() == 2 && r1.len() == 3 && r2.len() == 3 && r3.len() == 3 implies #[trigger] read_three_guarded_run(m0, true, 0x38, 0, Step::SetGyro { gyro: GyroStates::GyroOn }, (RegistersBank0::GyroXOutH, RegistersBank0::GyroXOutL), (RegistersBank0::GyroYOutH, RegistersBank0::GyroYOutL), (RegistersBank0::GyroZOutH, RegistersBank0::GyroZOutL), g1, g2, r1, r2, r3) by {
                law_read_three_guarded(m0, true, 0x38, 0, Step::SetGyro { gyro: GyroStates::GyroOn }, (RegistersBank0::GyroXOutH, RegistersBank0::GyroXOutL), (RegistersBank0::GyroYOutH, RegistersBank0::GyroYOutL), (RegistersBank0::GyroZOutH, RegistersBank0::GyroZOutL), g1, g2, r1, r2, r3);
            }
        }
        let on = self.gyro_on();
        let p = concat(
            concat(
                concat(
                    gyro_guard_steps(on),
                    read_pair_steps(RegistersBank0::GyroXOutH, RegistersBank0::GyroXOutL, 0),
                ),
                read_pair_steps(RegistersBank0::GyroYOutH, RegistersBank0::GyroYOutL, 2),
            ),
            read_pair_steps(RegistersBank0::GyroZOutH, RegistersBank0::GyroZOutL, 4),
        );
        self.start(p, ReplyKind::Samples)
    }

    /// Sets the accelerometer's full scale range (`ACCEL_FS_SEL`, bits 2:1
    /// of `ACCEL_CONFIG`) and records its counts per g.
    pub fn set_acc_sen(&mut self, acc_sen: AccSensitivity) -> (a: Action)
        requires
            old(self).wf(),
            old(self)@.idle(),
        ensures
            final(self).wf(),
            (final(self)@, a@) == launch(
                old(self)@.with_job(set_acc_sen_prog(acc_sen), ReplyKind::Unit),
            ),
            forall|r1: Seq<u8>, r2: Seq<u8>, r3: Seq<u8>, r4: Seq<u8>| r1.len() == 2 && r2.len() == 2 && r3.len() == 2 && r4.len() == 2 ==> #[trigger] sensitivity_run(old(self)@, RegistersBank2::AccelConfig, fs_masks(acc_sen.spec_code()).0, fs_masks(acc_sen.spec_code()).1, Step::SetAccelSen { counts: acc_sen.spec_counts() }, r1, r2, r3, r4),
    {
        let ghost m0 = self@;
        proof {
            assert forall|r1: Seq<u8>, r2: Seq<u8>, r3: Seq<u8>, r4: Seq<u8>| r1.len() == 2 && r2.len() == 2 && r3.len() == 2 && r4.len() == 2 implies #[trigger] sensitivity_run(m0, RegistersBank2::AccelConfig, fs_masks(acc_sen.spec_code()).0, fs_masks(acc_sen.spec_code()).1, Step::SetAccelSen { counts: acc_sen.spec_counts() }, r1, r2, r3, r4) by {
                law_sensitivity(m0, RegistersBank2::AccelConfig, fs_masks(acc_sen.spec_code()).0, fs_masks(acc_sen.spec_code()).1, Step::SetAccelSen { counts: acc_sen.spec_counts() }, r1, r2, r3, r4);
            }
        }
        let (code, counts) = acc_sen_values(acc_sen);
        let (keep, set) = fs_mask_values(code);
        let p = sensitivity_steps(
            RegistersBank2::AccelConfig,
            keep,
            set,
            Step::SetAccelSen { counts },
        );
        self.start(p, ReplyKind::Unit)
    }

    /// Sets the gyro's full scale range (`GYRO_FS_SEL`, bits 2:1 of
    /// `GYRO_CONFIG_1`) and records it.
    pub fn set_gyro_sen(&mut self, gyro_sen: GyroSensitivity) -> (a: Action)
        requires
            old(self).wf(),
            old(self)@.idle(),
        ensures
            final(self).wf(),
            (final(self)@, a@) == launch(
                old(self)@.with_job(set_gyro_sen_prog(gyro_sen), ReplyKind::Unit),
            ),
            forall|r1: Seq<u8>, r2: Seq<u8>, r3: Seq<u8>, r4: Seq<u8>| r1.len() == 2 && r2.len() == 2 && r3.len() == 2 && r4.len() == 2 ==> #[trigger] sensitivity_run(old(self)@, RegistersBank2::GyroConfig1, fs_masks(gyro_sen.spec_code()).0, fs_masks(gyro_sen.spec_code()).1, Step::SetGyroSen { sen: gyro_sen }, r1, r2, r3, r4),
    {
        let ghost m0 = self@;
        proof {
            assert forall|r1: Seq<u8>, r2: Seq<u8>, r3: Seq<u8>, r4: Seq<u8>| r1.len() == 2 && r2.len() == 2 && r3.len() == 2 && r4.len() == 2 implies #[trigger] sensitivity_run(m0, RegistersBank2::GyroConfig1, fs_masks(gyro_sen.spec_code()).0, fs_masks(gyro_sen.spec_code()).1, Step::SetGyroSen { sen: gyro_sen }, r1, r2, r3, r4) by {
                law_sensitivity(m0, RegistersBank2::GyroConfig1, fs_masks(gyro_sen.spec_code()).0, fs_masks(gyro_sen.spec_code()).1, Step::SetGyroSen { sen: gyro_sen }, r1, r2, r3, r4);
            }
        }
        let (keep, set) = fs_mask_values(gyro_sen_code(gyro_sen));
        let p = sensitivity_steps(
            RegistersBank2::GyroConfig1,
            keep,
            set,
            Step::SetGyroSen { sen: gyro_sen },
        );
        self.start(p, ReplyKind::Unit)
    }

    /// Configures the accelerometer's low pass filter with 3dB bandwidth
    /// `bw` and turns it on.
    pub fn config_acc_lpf(&mut self, bw: AccLPF) -> (a: Action)
        requires
            old(self).wf(),
            old(self)@.idle(),
        ensures
            final(self).wf(),
            (final(self)@, a@) == launch(
                old(self)@.with_job(
                    lpf_prog(RegistersBank2::AccelConfig, bw.spec_code()),
                    ReplyKind::Unit,
                ),
            ),
            forall|r1: Seq<u8>, r2: Seq<u8>, r3: Seq<u8>, r4: Seq<u8>| r1.len() == 2 && r2.len() == 2 && r3.len() == 2 && r4.len() == 2 ==> #[trigger] low_pass_filter_run(old(self)@, RegistersBank2::AccelConfig, bw.spec_code(), r1, r2, r3, r4),
    {
        let ghost m0 = self@;
        proof {
            assert forall|r1: Seq<u8>, r2: Seq<u8>, r3: Seq<u8>, r4: Seq<u8>| r1.len() == 2 && r2.len() == 2 && r3.len() == 2 && r4.len() == 2 implies #[trigger] low_pass_filter_run(m0, RegistersBank2::AccelConfig, bw.spec_code(), r1, r2, r3, r4) by {
                law_low_pass_filter(m0, RegistersBank2::AccelConfig, bw.spec_code(), r1, r2, r3, r4);
            }
        }
        self.start(lpf_steps(RegistersBank2::AccelConfig, bw.code()), ReplyKind::Unit)
    }

    /// Configures the gyro's low pass filter with 3dB bandwidth `bw` and
    /// turns it on.
    pub fn config_gyro_lpf(&mut self, bw: GyroLPF) -> (a: Action)
        requires
            old(self).wf(),
            old(self)@.idle(),
        ensures
            final(self).wf(),
            (final(self)@, a@) == launch(
                old(self)@.with_job(
                    lpf_prog(RegistersBank2::GyroConfig1, bw.spec_code()),
                    ReplyKind::Unit,
                ),
            ),
            forall|r1: Seq<u8>, r2: Seq<u8>, r3: Seq<u8>, r4: Seq<u8>| r1.len() == 2 && r2.len() == 2 && r3.len() == 2 && r4.len() == 2 ==> #[trigger] low_pass_filter_run(old(self)@, RegistersBank2::GyroConfig1, bw.spec_code(), r1, r2, r3, r4),
    {
        let ghost m0 = self@;
        proof {
            assert forall|r1: Seq<u8>, r2: Seq<u8>, r3: Seq<u8>, r4: Seq<u8>| r1.len() == 2 && r2.len() == 2 && r3.len() == 2 && r4.len() == 2 implies #[trigger] low_pass_filter_run(m0, RegistersBank2::GyroConfig1, bw.spec_code(), r1, r2, r3, r4) by {
                law_low_pass_filter(m0, RegistersBank2::GyroConfig1, bw.spec_code(), r1, r2, r3, r4);
            }
        }
        self.start(lpf_steps(RegistersBank2::GyroConfig1, bw.code()), ReplyKind::Unit)
    }

    /// Turns the accelerometer's low pass filter off.
    pub fn disable_acc_lpf(&mut self) -> (a: Action)
        requires
            old(self).wf(),
            old(self)@.idle(),
        ensures
            final(self).wf(),
            (final(self)@, a@) == launch(
                old(self)@.with_job(lpf_off_prog(RegistersBank2::AccelConfig), ReplyKind::Unit),
            ),
            forall|r1: Seq<u8>, r2: Seq<u8>, r3: Seq<u8>, r4: Seq<u8>| r1.len() == 2 && r2.len() == 2 && r3.len() == 2 && r4.len() == 2 ==> #[trigger] low_pass_filter_off_run(old(self)@, RegistersBank2::AccelConfig, r1, r2, r3, r4),
    {
        let ghost m0 = self@;
        proof {
            assert forall|r1: Seq<u8>, r2: Seq<u8>, r3: Seq<u8>, r4: Seq<u8>| r1.len() == 2 && r2.len() == 2 && r3.len() == 2 && r4.len() == 2 implies #[trigger] low_pass_filter_off_run(m0, RegistersBank2::AccelConfig, r1, r2, r3, r4) by {
                law_low_pass_filter_off(m0, RegistersBank2::AccelConfig, r1, r2, r3, r4);
            }
        }
        self.start(lpf_off_steps(RegistersBank2::AccelConfig), ReplyKind::Unit)
    }

    /// Turns the gyro's low pass filter off.
    pub fn disable_gyro_lpf(&mut self) -> (a: Action)
        requires
            old(self).wf(),
            old(self)@.idle(),
        ensures
            final(self).wf(),
            (final(self)@, a@) == launch(
                old(self)@.with_job(lpf_off_prog(RegistersBank2::GyroConfig1), ReplyKind::Unit),
            ),
            forall|r1: Seq<u8>, r2: Seq<u8>, r3: Seq<u8>, r4: Seq<u8>| r1.len() == 2 && r2.len() == 2 && r3.len() == 2 && r4.len() == 2 ==> #[trigger] low_pass_filter_off_run(old(self)@, RegistersBank2::GyroConfig1, r1, r2, r3, r4),
    {
        let ghost m0 = self@;
        proof {
            assert forall|r1: Seq<u8>, r2: Seq<u8>, r3: Seq<u8>, r4: Seq<u8>| r1.len() == 2 && r2.len() == 2 && r3.len() == 2 && r4.len() == 2 implies #[trigger] low_pass_filter_off_run(m0, RegistersBank2::GyroConfig1, r1, r2, r3, r4) by {
                law_low_pass_filter_off(m0, RegistersBank2::GyroConfig1, r1, r2, r3, r4);
            }
        }
        self.start(lpf_off_steps(RegistersBank2::GyroConfig1), ReplyKind::Unit)
    }

    /// Configures the accelerometer's output data rate, in Hz. The rate
    /// must be below 1125 Hz; otherwise the reply is `InvalidInput` and
    /// nothing is sent. The divider is `1125 / rate - 1`, so the rate met
    /// may be higher than asked when `1125 / rate` is not whole.
    pub fn config_acc_rate(&mut self, rate: u16) -> (a: Action)
        requires
            old(self).wf(),
            old(self)@.idle(),
            rate > 0,
        ensures
            final(self).wf(),
            acc_rate_ok(rate) ==> (final(self)@, a@) == launch(
                old(self)@.with_job(acc_div_prog(acc_rate_div(rate)), ReplyKind::Unit),
            ),
            !acc_rate_ok(rate) ==> final(self)@ == old(self)@ && a@ == (ActionModel::Done {
                result: Err(IcmError::InvalidInput),
            }),
            forall|r1: Seq<u8>, r2: Seq<u8>, r3: Seq<u8>, r4: Seq<u8>, r5: Seq<u8>| acc_rate_ok(rate) && r1.len() == 2 && r2.len() == 2 && r3.len() == 2 && r4.len() == 2 && r5.len() == 2 ==> #[trigger] acc_divider_run(old(self)@, acc_rate_div(rate), r1, r2, r3, r4, r5),
    {
        let ghost m0 = self@;
        proof {
            assert forall|r1: Seq<u8>, r2: Seq<u8>, r3: Seq<u8>, r4: Seq<u8>, r5: Seq<u8>| acc_rate_ok(rate) && r1.len() == 2 && r2.len() == 2 && r3.len() == 2 && r4.len() == 2 && r5.len() == 2 implies #[trigger] acc_divider_run(m0, acc_rate_div(rate), r1, r2, r3, r4, r5) by {
                law_acc_divider(m0, acc_rate_div(rate), r1, r2, r3, r4, r5);
            }
        }
        if rate < BASE_RATE {
            assert(BASE_RATE / rate >= 1) by (nonlinear_arith)
                requires
                    0 < rate < BASE_RATE,
            ;
            let div: u16 = BASE_RATE / rate - 1;
            self.start(acc_div_steps(div), ReplyKind::Unit)
        } else {
            Action::Done(Err(IcmError::InvalidInput))
        }
    }

    /// Configures the gyro's output data rate, in Hz. The rate must be
    /// above 4 Hz (the divider is 8 bits) and at most 1.1 kHz; otherwise the
    /// reply is `InvalidInput` and nothing is sent. The divider is
    /// `1125 / rate - 1`.
    pub fn config_gyro_rate(&mut self, rate: u16) -> (a: Action)
        requires
            old(self).wf(),
            old(self)@.idle(),
        ensures
            final(self).wf(),
            gyro_rate_ok(rate) ==> (final(self)@, a@) == launch(
                old(self)@.with_job(gyro_div_prog(gyro_rate_div(rate)), ReplyKind::Unit),
            ),
            !gyro_rate_ok(rate) ==> final(self)@ == old(self)@ && a@ == (ActionModel::Done {
                result: Err(IcmError::InvalidInput),
            }),
            forall|r1: Seq<u8>, r2: Seq<u8>, r3: Seq<u8>, r4: Seq<u8>| gyro_rate_ok(rate) && r1.len() == 2 && r2.len() == 2 && r3.len() == 2 && r4.len() == 2 ==> #[trigger] gyro_divider_run(old(self)@, gyro_rate_div(rate), r1, r2, r3, r4),
    {
        let ghost m0 = self@;
        proof {
            assert forall|r1: Seq<u8>, r2: Seq<u8>, r3: Seq<u8>, r4: Seq<u8>| gyro_rate_ok(rate) && r1.len() == 2 && r2.len() == 2 && r3.len() == 2 && r4.len() == 2 implies #[trigger] gyro_divider_run(m0, gyro_rate_div(rate), r1, r2, r3, r4) by {
                law_gyro_divider(m0, gyro_rate_div(rate), r1, r2, r3, r4);
            }
        }
        if rate > 4 && rate <= GYRO_RATE_MAX {
            assert(1 <= BASE_RATE / rate <= 225) by (nonlinear_arith)
                requires
                    4 < rate <= GYRO_RATE_MAX,
            ;
            let div: u8 = (BASE_RATE / rate - 1) as u8;
            self.start(gyro_div_steps(div), ReplyKind::Unit)
        } else {
            Action::Done(Err(IcmError::InvalidInput))
        }
    }

    /// Configures the accelerometer's sample rate divider directly; the
    /// register gets `div - 1`. `div` must be below 4096; otherwise the
    /// reply is `InvalidInput` and nothing is sent.
    pub fn config_acc_rate_div(&mut self, div: u16) -> (a: Action)
        requires
            old(self).wf(),
            old(self)@.idle(),
            div > 0,
        ensures
            final(self).wf(),
            acc_div_ok(div) ==> (final(self)@, a@) == launch(
                old(self)@.with_job(acc_div_prog((div - 1) as u16), ReplyKind::Unit),
            ),
            !acc_div_ok(div) ==> final(self)@ == old(self)@ && a@ == (ActionModel::Done {
                result: Err(IcmError::InvalidInput),
            }),
            forall|r1: Seq<u8>, r2: Seq<u8>, r3: Seq<u8>, r4: Seq<u8>, r5: Seq<u8>| acc_div_ok(div) && r1.len() == 2 && r2.len() == 2 && r3.len() == 2 && r4.len() == 2 && r5.len() == 2 ==> #[trigger] acc_divider_run(old(self)@, (div - 1) as u16, r1, r2, r3, r4, r5),
    {
        let ghost m0 = self@;
        proof {
            assert forall|r1: Seq<u8>, r2: Seq<u8>, r3: Seq<u8>, r4: Seq<u8>, r5: Seq<u8>| acc_div_ok(div) && r1.len() == 2 && r2.len() == 2 && r3.len() == 2 && r4.len() == 2 && r5.len() == 2 implies #[trigger] acc_divider_run(m0, (div - 1) as u16, r1, r2, r3, r4, r5) by {
                law_acc_divider(m0, (div - 1) as u16, r1, r2, r3, r4, r5);
            }
        }
        if div < 4096 {
            let d: u16 = div - 1;
            self.start(acc_div_steps(d), ReplyKind::Unit)
        } else {
            Action::Done(Err(IcmError::InvalidInput))
        }
    }

    /// Configures the gyro's sample rate divider directly; the register
    /// gets `div - 1`.
    pub fn config_gyro_rate_div(&mut self, div: u8) -> (a: Action)
        requires
            old(self).wf(),
            old(self)@.idle(),
            div > 0,
        ensures
            final(self).wf(),
            (final(self)@, a@) == launch(
                old(self)@.with_job(gyro_div_prog((div - 1) as u8), ReplyKind::Unit),
            ),
            forall|r1: Seq<u8>, r2: Seq<u8>, r3: Seq<u8>, r4: Seq<u8>| r1.len() == 2 && r2.len() == 2 && r3.len() == 2 && r4.len() == 2 ==> #[trigger] gyro_divider_run(old(self)@, (div - 1) as u8, r1, r2, r3, r4),
    {
        let ghost m0 = self@;
        proof {
            assert forall|r1: Seq<u8>, r2: Seq<u8>, r3: Seq<u8>, r4: Seq<u8>| r1.len() == 2 && r2.len() == 2 && r3.len() == 2 && r4.len() == 2 implies #[trigger] gyro_divider_run(m0, (div - 1) as u8, r1, r2, r3, r4) by {
                law_gyro_divider(m0, (div - 1) as u8, r1, r2, r3, r4);
            }
        }
        let d: u8 = div - 1;
        self.start(gyro_div_steps(d), ReplyKind::Unit)
    }

    /// Resets the chip and wakes it up from sleep. After the reset a 20ms
    /// sleep is suggested.
    pub fn reset(&mut self) -> (a: Action)
        requires
            old(self).wf(),
            old(self)@.idle(),
        ensures
            final(self).wf(),
            (final(self)@, a@) == launch(old(self)@.with_job(reset_prog(), ReplyKind::Unit)),
            forall|r1: Seq<u8>, r2: Seq<u8>| r1.len() == 2 && r2.len() == 2 ==> #[trigger] reset_run(old(self)@, r1, r2),
    {
        let ghost m0 = self@;
        proof {
            assert forall|r1: Seq<u8>, r2: Seq<u8>| r1.len() == 2 && r2.len() == 2 implies #[trigger] reset_run(m0, r1, r2) by {
                law_reset(m0, r1, r2);
            }
        }
        self.start(reset_steps(), ReplyKind::Unit)
    }
}

} // verus!
