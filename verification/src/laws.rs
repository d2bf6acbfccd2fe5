//! What the driver's operations do from start to end, on every input: the
//! frames they send, the replies they give and the state they leave.
use vstd::prelude::*;
use crate::registers::{
    AccSensitivity, GyroSensitivity, RegistersBank0, RegistersBank2, AccStates, GyroStates, MagStates, IcmError, REG_BANK_0, REG_BANK_2,
};
use crate::sample::{spec_high_byte, spec_low_byte, spec_sample};
use crate::program::{
    Step, ReplyKind, Reply, ImuModel, JobModel, ActionModel, launch, deliver, settle, run_step,
    splice, lemma_settle,
};
use crate::ops::{
    pwr_mgmt_2_prog, read0, write0, read2, write2, new_prog, wai_prog, int_prog, reset_prog,
    sensitivity_prog, enable_acc_prog, enable_gyro_prog, lpf_prog, lpf_off_prog, read_axis_prog,
    read_pair_prog, read_acc_prog, read_gyro_prog, disable_acc_prog, disable_gyro_prog,
    set_acc_sen_prog, set_gyro_sen_prog, acc_guard, gyro_guard, acc_x_pair, acc_y_pair,
    acc_z_pair, gyro_x_pair, gyro_y_pair, gyro_z_pair, acc_div_prog, gyro_div_prog, lpf_bits,
    LPF_MASK, fs_masks, acc_rate_div, gyro_rate_div, BASE_RATE,
};
use crate::shapes::{
    shape_sensitivity, shape_lpf, shape_lpf_off, shape_acc_div, shape_gyro_div, shape_read_three,
    shape_pwr_mgmt_2, shape_guarded_read, shape_guarded_three, shape_read_axis,
};
use crate::imu::{IcmImu, initial_model};

verus! {

/// `m` with the setting that `flag` records.
pub open spec fn note(m: ImuModel, flag: Step) -> ImuModel {
    match flag {
        Step::SetAcc { acc } => ImuModel { acc_en: acc, ..m },
        Step::SetGyro { gyro } => ImuModel { gyro_en: gyro, ..m },
        Step::SetInt { enabled } => ImuModel { int_enabled: enabled, ..m },
        Step::SetAccelSen { counts } => ImuModel { accel_sen: counts, ..m },
        Step::SetGyroSen { sen } => ImuModel { gyro_sen: sen, ..m },
        _ => m,
    }
}

/// A step that records a setting.
pub open spec fn is_note(flag: Step) -> bool {
    flag is SetAcc || flag is SetGyro || flag is SetInt || flag is SetAccelSen || flag is SetGyroSen
}

/// What `law_pwr_mgmt_2` states, for these arguments.
pub open spec fn pwr_mgmt_2_run(m: ImuModel,
    clear: bool,
    keep: u8,
    set: u8,
    flag: Step,
    r1: Seq<u8>,
    r2: Seq<u8>) -> bool {
    let (m1, a1) = launch(
        m.with_job(pwr_mgmt_2_prog(clear, keep, set, flag), ReplyKind::Unit),
    );
    let (m2, a2) = deliver(m1, r1, true);
    let (m3, a3) = deliver(m2, r2, true);
    &&& a1 == pair_frame(
        read0(RegistersBank0::PwrMgmt2),
        if clear {
            0
        } else {
            m.databuf[1]
        },
    )
    &&& a2 == pair_frame(write0(RegistersBank0::PwrMgmt2), (r1[1] & keep) | set)
    &&& a3 == ActionModel::Done { result: Ok(Reply::Unit) }
    &&& m3 == ImuModel {
        databuf: m.databuf.update(0, r2[0]).update(1, r2[1]),
        ..note(m, flag)
    }
    &&& same_settings(deliver(m1, r1, false).0, m)
    &&& same_settings(deliver(m2, r2, false).0, m)
}

/// Switching the accelerometer or the gyro on or off is a framed read of
/// `PWR_MGMT_2` and a framed write of the register's value (the second byte
/// that came back) with `keep` and `set` applied; once both transfers have
/// gone through the setting is recorded and the last bytes received stay in
/// the buffer. If either transfer fails, no setting changes.
#[verifier::spinoff_prover]
#[verifier::rlimit(40)]
pub proof fn law_pwr_mgmt_2(
    m: ImuModel,
    clear: bool,
    keep: u8,
    set: u8,
    flag: Step,
    r1: Seq<u8>,
    r2: Seq<u8>,
)
    requires
        m.wf(),
        m.idle(),
        is_note(flag),
        r1.len() == 2,
        r2.len() == 2,
    ensures
        pwr_mgmt_2_run(m, clear, keep, set, flag, r1, r2),
{
    reveal_with_fuel(settle, 4);
    let p = pwr_mgmt_2_prog(clear, keep, set, flag);
    shape_pwr_mgmt_2(clear, keep, set, flag);
    lemma_second_byte(m.databuf[1]);
    let (m1, a1) = launch(m.with_job(p, ReplyKind::Unit));
    let (m2, a2) = deliver(m1, r1, true);
    let (m3, a3) = deliver(m2, r2, true);
    assert(m1.databuf.subrange(0, 2) =~= seq![
        read0(RegistersBank0::PwrMgmt2),
        if clear {
            0
        } else {
            m.databuf[1]
        },
    ]);
    assert(m2.databuf.subrange(0, 2) =~= seq![write0(RegistersBank0::PwrMgmt2), (r1[1] & keep) | set]);
    assert(m3.databuf =~= m.databuf.update(0, r2[0]).update(1, r2[1]));
}

/// Clearing the second byte with mask `0x00` gives 0; keeping it with
/// mask `0xFF` gives it back.
pub proof fn lemma_second_byte(v: u8)
    ensures
        (v & 0x00) | 0 == 0,
        (v & 0xFF) | 0 == v,
{
    assert((v & 0x00) | 0 == 0 && (v & 0xFF) | 0 == v) by (bit_vector);
}

/// The driver waits at a transfer that starts at the first byte of its
/// buffer, holding `buf`, with the settings of `base`.
pub open spec fn waits_with(c: ImuModel, base: ImuModel, buf: Seq<u8>) -> bool {
    &&& c.awaiting()
    &&& c.current()->Transfer_start == 0
    &&& c.databuf == buf
    &&& same_settings(c, base)
}

/// Two states that wait at alike transfers end alike when the transfer
/// fails: with a bus error, idle, with the same settings and buffer.
pub proof fn lemma_fail_alike(c1: ImuModel, c2: ImuModel, base: ImuModel, buf: Seq<u8>, f: Seq<u8>)
    requires
        waits_with(c1, base, buf),
        waits_with(c2, base, buf),
    ensures
        deliver(c1, f, false) == deliver(c2, f, false),
        deliver(c1, f, false).1 == (ActionModel::Done { result: Err(IcmError::BusError) }),
{
    assert(deliver(c1, f, false).0 == deliver(c2, f, false).0);
}

/// The settings that the driver records are the same in `a` and `b`.
pub open spec fn same_settings(a: ImuModel, b: ImuModel) -> bool {
    &&& a.acc_en == b.acc_en
    &&& a.gyro_en == b.gyro_en
    &&& a.mag_en == b.mag_en
    &&& a.accel_sen == b.accel_sen
    &&& a.gyro_sen == b.gyro_sen
    &&& a.int_enabled == b.int_enabled
}

/// The request that follows a step of the machine can always be served: a
/// transfer is asked for only while the driver waits for the bytes of
/// exactly that frame, and an operation reports its end only once the
/// driver is idle again. The state stays well formed.
pub open spec fn serves(m: ImuModel, a: ActionModel) -> bool {
    &&& m.wf()
    &&& match a {
        ActionModel::Transfer { bytes, .. } => m.awaiting() && bytes.len()
            == IcmImu::spec_pending_len(m),
        ActionModel::Done { .. } => m.idle(),
    }
}

/// Starting or resuming a program leads to a request that can be served.
pub proof fn law_requests_can_be_served(m: ImuModel, received: Seq<u8>, ok: bool)
    requires
        m.wf(),
        m.job is Some,
    ensures
        serves(launch(m).0, launch(m).1),
        m.awaiting() && received.len() == IcmImu::spec_pending_len(m) ==> serves(
            deliver(m, received, ok).0,
            deliver(m, received, ok).1,
        ),
{
    lemma_launch_serves(m);
    if m.awaiting() && received.len() == IcmImu::spec_pending_len(m) {
        let j = m.job.unwrap();
        let start = m.current()->Transfer_start;
        let m2 = ImuModel {
            databuf: splice(m.databuf, start as int, received),
            job: Some(JobModel { pc: j.pc + 1, ..j }),
            ..m
        };
        assert(j.prog[j.pc].wf());
        lemma_launch_serves(m2);
    }
}

proof fn lemma_launch_serves(m: ImuModel)
    requires
        m.wf(),
        m.job is Some,
    ensures
        serves(launch(m).0, launch(m).1),
{
    lemma_settle(m);
    let s = settle(m);
    let j = s.job.unwrap();
    if 0 <= j.pc < j.prog.len() {
        assert(j.prog[j.pc].wf());
    }
}

/// A transfer that fails ends the operation at once with a bus error: the
/// settings stay as they were, and only the bytes that came back take the
/// place of the bytes sent.
pub proof fn law_bus_error_ends_operation(m: ImuModel, received: Seq<u8>)
    requires
        m.wf(),
        m.awaiting(),
    ensures
        deliver(m, received, false).1 == (ActionModel::Done { result: Err(IcmError::BusError) }),
        deliver(m, received, false).0 == (ImuModel {
            databuf: splice(m.databuf, m.current()->Transfer_start as int, received),
            job: None,
            ..m
        }),
{
}

proof fn lemma_settle_keeps_mag(m: ImuModel)
    ensures
        settle(m).mag_en == m.mag_en,
    decreases m.remaining(),
{
    if let Some(j) = m.job {
        if 0 <= j.pc < j.prog.len() && !(j.prog[j.pc] is Transfer) {
            lemma_settle_keeps_mag(run_step(m, j.prog[j.pc]));
        }
    }
}

/// No operation switches the magnetometer on: the machine never changes
/// its state, so from a new driver on `mag_on` stays false.
pub proof fn law_magnetometer_stays_off(m: ImuModel, received: Seq<u8>, ok: bool)
    ensures
        launch(m).0.mag_en == m.mag_en,
        deliver(m, received, ok).0.mag_en == m.mag_en,
        initial_model().mag_en == MagStates::MagOff,
{
    lemma_settle_keeps_mag(m);
    let j = m.job.unwrap();
    let start = m.current()->Transfer_start;
    let m2 = ImuModel {
        databuf: splice(m.databuf, start as int, received),
        job: Some(JobModel { pc: j.pc + 1, ..j }),
        ..m
    };
    lemma_settle_keeps_mag(m2);
}

/// What `law_new` states, for these arguments.
pub open spec fn new_run(r: Seq<u8>) -> bool {
    let (m1, a1) = launch(initial_model().with_job(new_prog(), ReplyKind::Unit));
    let (m2, a2) = deliver(m1, r, true);
    &&& a1 == ActionModel::Transfer {
        bytes: seq![write0(RegistersBank0::PwrMgmt1), 0x01],
        select: true,
        release: true,
    }
    &&& a2 == ActionModel::Done { result: Ok(Reply::Unit) }
    &&& m2 == initial_model()
}

/// A new driver writes `0x01` to `PWR_MGMT_1` and, once that has gone
/// through, is idle in its initial state.
pub proof fn law_new(r: Seq<u8>)
    requires
        r.len() == 2,
    ensures
        new_run(r),
{
    reveal_with_fuel(settle, 4);
    let m = initial_model();
    let (m1, a1) = launch(m.with_job(new_prog(), ReplyKind::Unit));
    let (m2, a2) = deliver(m1, r, true);
    assert(m1.databuf.subrange(0, 2) =~= seq![write0(RegistersBank0::PwrMgmt1), 0x01]);
    assert(m2.databuf =~= m.databuf);
}

/// What `law_wai` states, for these arguments.
pub open spec fn wai_run(m: ImuModel, r: Seq<u8>) -> bool {
    let (m1, a1) = launch(m.with_job(wai_prog(), ReplyKind::Byte));
    let (m2, a2) = deliver(m1, r, true);
    &&& a1 == ActionModel::Transfer {
        bytes: seq![read0(RegistersBank0::Wai), 0],
        select: true,
        release: true,
    }
    &&& a2 == ActionModel::Done { result: Ok(Reply::Byte(r[1])) }
    &&& m2 == ImuModel { databuf: m.databuf.update(0, r[0]).update(1, r[1]), ..m }
}

/// `wai` reads `WHO_AM_I` in one framed transfer and replies with the
/// second byte that came back.
pub proof fn law_wai(m: ImuModel, r: Seq<u8>)
    requires
        m.wf(),
        m.idle(),
        r.len() == 2,
    ensures
        wai_run(m, r),
{
    reveal_with_fuel(settle, 4);
    let (m1, a1) = launch(m.with_job(wai_prog(), ReplyKind::Byte));
    let (m2, a2) = deliver(m1, r, true);
    assert(m1.databuf.subrange(0, 2) =~= seq![read0(RegistersBank0::Wai), 0]);
    assert(m2.databuf =~= m.databuf.update(0, r[0]).update(1, r[1]));
}

/// What `law_interrupt` states, for these arguments.
pub open spec fn interrupt_run(m: ImuModel, value: u8, enabled: bool, r: Seq<u8>) -> bool {
    let (m1, a1) = launch(m.with_job(int_prog(value, enabled), ReplyKind::Unit));
    let (m2, a2) = deliver(m1, r, true);
    &&& a1 == ActionModel::Transfer {
        bytes: seq![write0(RegistersBank0::IntEnable1), value],
        select: true,
        release: true,
    }
    &&& a2 == ActionModel::Done { result: Ok(Reply::Unit) }
    &&& m2 == ImuModel {
        databuf: m.databuf.update(0, r[0]).update(1, r[1]),
        int_enabled: enabled,
        ..m
    }
    &&& same_settings(deliver(m1, r, false).0, m)
}

/// Switching the data ready interrupt writes `value` to `INT_ENABLE_1` and,
/// once that has gone through, records the interrupt as `enabled`; if the
/// transfer fails, no setting changes.
pub proof fn law_interrupt(m: ImuModel, value: u8, enabled: bool, r: Seq<u8>)
    requires
        m.wf(),
        m.idle(),
        r.len() == 2,
    ensures
        interrupt_run(m, value, enabled, r),
{
    reveal_with_fuel(settle, 4);
    let (m1, a1) = launch(m.with_job(int_prog(value, enabled), ReplyKind::Unit));
    let (m2, a2) = deliver(m1, r, true);
    assert(m1.databuf.subrange(0, 2) =~= seq![write0(RegistersBank0::IntEnable1), value]);
    assert(m2.databuf =~= m.databuf.update(0, r[0]).update(1, r[1]));
}

/// What `law_reset` states, for these arguments.
pub open spec fn reset_run(m: ImuModel, r1: Seq<u8>, r2: Seq<u8>) -> bool {
    let (m1, a1) = launch(m.with_job(reset_prog(), ReplyKind::Unit));
    let (m2, a2) = deliver(m1, r1, true);
    let (m3, a3) = deliver(m2, r2, true);
    &&& a1 == ActionModel::Transfer {
        bytes: seq![write0(RegistersBank0::PwrMgmt1), 0x80],
        select: true,
        release: true,
    }
    &&& a2 == ActionModel::Transfer {
        bytes: seq![write0(RegistersBank0::PwrMgmt1), 0x01],
        select: true,
        release: true,
    }
    &&& a3 == ActionModel::Done { result: Ok(Reply::Unit) }
    &&& m3 == ImuModel { databuf: m.databuf.update(0, r2[0]).update(1, r2[1]), ..m }
}

/// A reset writes `0x80` (reset) and then `0x01` (wake up, best clock) to
/// `PWR_MGMT_1`, each in a framed transfer of its own.
pub proof fn law_reset(m: ImuModel, r1: Seq<u8>, r2: Seq<u8>)
    requires
        m.wf(),
        m.idle(),
        r1.len() == 2,
        r2.len() == 2,
    ensures
        reset_run(m, r1, r2),
{
    reveal_with_fuel(settle, 4);
    let (m1, a1) = launch(m.with_job(reset_prog(), ReplyKind::Unit));
    let (m2, a2) = deliver(m1, r1, true);
    let (m3, a3) = deliver(m2, r2, true);
    assert(m1.databuf.subrange(0, 2) =~= seq![write0(RegistersBank0::PwrMgmt1), 0x80]);
    assert(m2.databuf.subrange(0, 2) =~= seq![write0(RegistersBank0::PwrMgmt1), 0x01]);
    assert(m3.databuf =~= m.databuf.update(0, r2[0]).update(1, r2[1]));
}

/// The frame that selects register bank `bank`.
pub open spec fn bank_frame(bank: u8) -> ActionModel {
    ActionModel::Transfer {
        bytes: seq![write0(RegistersBank0::RegBankSel), bank],
        select: true,
        release: true,
    }
}

/// A framed two byte transfer of `a` then `b`.
pub open spec fn pair_frame(a: u8, b: u8) -> ActionModel {
    ActionModel::Transfer { bytes: seq![a, b], select: true, release: true }
}

/// What `law_sensitivity` states, for these arguments.
pub open spec fn sensitivity_run(m: ImuModel,
    reg: RegistersBank2,
    keep: u8,
    set: u8,
    flag: Step,
    r1: Seq<u8>,
    r2: Seq<u8>,
    r3: Seq<u8>,
    r4: Seq<u8>) -> bool {
    let (m1, a1) = launch(m.with_job(sensitivity_prog(reg, keep, set, flag), ReplyKind::Unit));
    let (m2, a2) = deliver(m1, r1, true);
    let (m3, a3) = deliver(m2, r2, true);
    let (m4, a4) = deliver(m3, r3, true);
    let (m5, a5) = deliver(m4, r4, true);
    &&& a1 == bank_frame(REG_BANK_2)
    &&& a2 == pair_frame(read2(reg), m.databuf[3])
    &&& a3 == pair_frame(write2(reg), (r2[1] & keep) | set)
    &&& a4 == bank_frame(REG_BANK_0)
    &&& a5 == ActionModel::Done { result: Ok(Reply::Unit) }
    &&& m5 == ImuModel {
        databuf: m.databuf.update(0, r4[0]).update(1, r4[1]).update(2, r2[0]).update(3, r2[1]),
        ..note(m, flag)
    }
    &&& same_settings(m1, m) && same_settings(m2, m)
    &&& same_settings(m3, m) && same_settings(m4, m)
}

/// Setting a full scale range selects bank 2, reads the configuration
/// register `reg`, writes back the byte read with `keep` and `set` applied,
/// selects bank 0 again and, once all of it has gone through, records the
/// setting. Until then no setting changes, so a transfer that fails
/// (`law_bus_error_ends_operation`) leaves every setting as it was.
#[verifier::spinoff_prover]
#[verifier::rlimit(40)]
pub proof fn law_sensitivity(
    m: ImuModel,
    reg: RegistersBank2,
    keep: u8,
    set: u8,
    flag: Step,
    r1: Seq<u8>,
    r2: Seq<u8>,
    r3: Seq<u8>,
    r4: Seq<u8>,
)
    requires
        m.wf(),
        m.idle(),
        is_note(flag),
        r1.len() == 2,
        r2.len() == 2,
        r3.len() == 2,
        r4.len() == 2,
    ensures
        sensitivity_run(m, reg, keep, set, flag, r1, r2, r3, r4),
{
    let p = sensitivity_prog(reg, keep, set, flag);
    shape_sensitivity(reg, keep, set, flag);
    reveal_with_fuel(settle, 5);
    let (m1, a1) = launch(m.with_job(p, ReplyKind::Unit));
    assert(m1.databuf.subrange(0, 2) =~= seq![write0(RegistersBank0::RegBankSel), REG_BANK_2]);
    let (m2, a2) = deliver(m1, r1, true);
    assert(m2.databuf.subrange(2, 4) =~= seq![read2(reg), m.databuf[3]]);
    let (m3, a3) = deliver(m2, r2, true);
    assert(m3.databuf.subrange(0, 2) =~= seq![write2(reg), (r2[1] & keep) | set]);
    let (m4, a4) = deliver(m3, r3, true);
    assert(m4.databuf.subrange(0, 2) =~= seq![write0(RegistersBank0::RegBankSel), REG_BANK_0]);
    let (m5, a5) = deliver(m4, r4, true);
    assert(m5.databuf =~= m.databuf.update(0, r4[0]).update(1, r4[1]).update(2, r2[0]).update(3, r2[1]));
}

/// What `law_low_pass_filter` states, for these arguments.
pub open spec fn low_pass_filter_run(m: ImuModel,
    reg: RegistersBank2,
    code: u8,
    r1: Seq<u8>,
    r2: Seq<u8>,
    r3: Seq<u8>,
    r4: Seq<u8>) -> bool {
    let (m1, a1) = launch(m.with_job(lpf_prog(reg, code), ReplyKind::Unit));
    let (m2, a2) = deliver(m1, r1, true);
    let (m3, a3) = deliver(m2, r2, true);
    let (m4, a4) = deliver(m3, r3, true);
    let (m5, a5) = deliver(m4, r4, true);
    &&& a1 == bank_frame(REG_BANK_2)
    &&& a2 == pair_frame(read2(reg), r1[1])
    &&& a3 == pair_frame(write2(reg), lpf_value(r2[1], code))
    &&& a4 == bank_frame(REG_BANK_0)
    &&& a5 == ActionModel::Done { result: Ok(Reply::Unit) }
    &&& m5 == ImuModel { databuf: m.databuf.update(0, r4[0]).update(1, r4[1]), ..m }
}

/// Configuring a low pass filter selects bank 2, reads the configuration
/// register `reg`, puts `code` in bits 5:3 of the byte read and sets bit 0,
/// writes it back and selects bank 0 again.
#[verifier::spinoff_prover]
#[verifier::rlimit(40)]
pub proof fn law_low_pass_filter(
    m: ImuModel,
    reg: RegistersBank2,
    code: u8,
    r1: Seq<u8>,
    r2: Seq<u8>,
    r3: Seq<u8>,
    r4: Seq<u8>,
)
    requires
        m.wf(),
        m.idle(),
        r1.len() == 2,
        r2.len() == 2,
        r3.len() == 2,
        r4.len() == 2,
    ensures
        low_pass_filter_run(m, reg, code, r1, r2, r3, r4),
{
    let p = lpf_prog(reg, code);
    shape_lpf(reg, code);
    reveal_with_fuel(settle, 5);
    let (m1, a1) = launch(m.with_job(p, ReplyKind::Unit));
    assert(m1.databuf.subrange(0, 2) =~= seq![write0(RegistersBank0::RegBankSel), REG_BANK_2]);
    let (m2, a2) = deliver(m1, r1, true);
    assert(m2.databuf.subrange(0, 2) =~= seq![read2(reg), r1[1]]);
    let (m3, a3) = deliver(m2, r2, true);
    assert(m3.databuf.subrange(0, 2) =~= seq![write2(reg), lpf_value(r2[1], code)]);
    let (m4, a4) = deliver(m3, r3, true);
    assert(m4.databuf.subrange(0, 2) =~= seq![write0(RegistersBank0::RegBankSel), REG_BANK_0]);
    let (m5, a5) = deliver(m4, r4, true);
    assert(m5.databuf =~= m.databuf.update(0, r4[0]).update(1, r4[1]));
}

/// The byte that configuring a low pass filter writes back when it read `v`.
pub open spec fn lpf_value(v: u8, code: u8) -> u8 {
    (((v & !LPF_MASK) | lpf_bits(code)) & 0xFF) | 0x01
}

/// What `law_low_pass_filter_off` states, for these arguments.
pub open spec fn low_pass_filter_off_run(m: ImuModel,
    reg: RegistersBank2,
    r1: Seq<u8>,
    r2: Seq<u8>,
    r3: Seq<u8>,
    r4: Seq<u8>) -> bool {
    let (m1, a1) = launch(m.with_job(lpf_off_prog(reg), ReplyKind::Unit));
    let (m2, a2) = deliver(m1, r1, true);
    let (m3, a3) = deliver(m2, r2, true);
    let (m4, a4) = deliver(m3, r3, true);
    let (m5, a5) = deliver(m4, r4, true);
    &&& a1 == bank_frame(REG_BANK_2)
    &&& a2 == pair_frame(read2(reg), r1[1])
    &&& a3 == pair_frame(write2(reg), (r2[1] & 0xFE) | 0)
    &&& a4 == bank_frame(REG_BANK_0)
    &&& a5 == ActionModel::Done { result: Ok(Reply::Unit) }
    &&& m5 == ImuModel { databuf: m.databuf.update(0, r4[0]).update(1, r4[1]), ..m }
}

/// Turning a low pass filter off selects bank 2, reads the configuration
/// register `reg`, writes back the byte read with bit 0 cleared and selects
/// bank 0 again.
#[verifier::spinoff_prover]
#[verifier::rlimit(40)]
pub proof fn law_low_pass_filter_off(
    m: ImuModel,
    reg: RegistersBank2,
    r1: Seq<u8>,
    r2: Seq<u8>,
    r3: Seq<u8>,
    r4: Seq<u8>,
)
    requires
        m.wf(),
        m.idle(),
        r1.len() == 2,
        r2.len() == 2,
        r3.len() == 2,
        r4.len() == 2,
    ensures
        low_pass_filter_off_run(m, reg, r1, r2, r3, r4),
{
    let p = lpf_off_prog(reg);
    shape_lpf_off(reg);
    reveal_with_fuel(settle, 5);
    let (m1, a1) = launch(m.with_job(p, ReplyKind::Unit));
    assert(m1.databuf.subrange(0, 2) =~= seq![write0(RegistersBank0::RegBankSel), REG_BANK_2]);
    let (m2, a2) = deliver(m1, r1, true);
    assert(m2.databuf.subrange(0, 2) =~= seq![read2(reg), r1[1]]);
    let (m3, a3) = deliver(m2, r2, true);
    assert(m3.databuf.subrange(0, 2) =~= seq![write2(reg), (r2[1] & 0xFE) | 0]);
    let (m4, a4) = deliver(m3, r3, true);
    assert(m4.databuf.subrange(0, 2) =~= seq![write0(RegistersBank0::RegBankSel), REG_BANK_0]);
    let (m5, a5) = deliver(m4, r4, true);
    assert(m5.databuf =~= m.databuf.update(0, r4[0]).update(1, r4[1]));
}

/// What `law_acc_divider` states, for these arguments.
pub open spec fn acc_divider_run(m: ImuModel,
    div: u16,
    r1: Seq<u8>,
    r2: Seq<u8>,
    r3: Seq<u8>,
    r4: Seq<u8>,
    r5: Seq<u8>) -> bool {
    let (m1, a1) = launch(m.with_job(acc_div_prog(div), ReplyKind::Unit));
    let (m2, a2) = deliver(m1, r1, true);
    let (m3, a3) = deliver(m2, r2, true);
    let (m4, a4) = deliver(m3, r3, true);
    let (m5, a5) = deliver(m4, r4, true);
    let (m6, a6) = deliver(m5, r5, true);
    &&& a1 == bank_frame(REG_BANK_2)
    &&& a2 == pair_frame(write2(RegistersBank2::OdrAlignEn), 0x01)
    &&& a3 == pair_frame(write2(RegistersBank2::AccelSmplrtDiv1), spec_high_byte(div))
    &&& a4 == pair_frame(write2(RegistersBank2::AccelSmplrtDiv2), spec_low_byte(div))
    &&& a5 == bank_frame(REG_BANK_0)
    &&& a6 == ActionModel::Done { result: Ok(Reply::Unit) }
    &&& m6 == ImuModel {
        databuf: m.databuf.update(0, r5[0]).update(1, r5[1]).update(2, r4[0]).update(3, r4[1]),
        ..m
    }
}

/// Setting the accelerometer's sample rate divider selects bank 2, turns on
/// `ODR_ALIGN_EN`, writes the high byte of `div` to `ACCEL_SMPLRT_DIV_1` and
/// the low byte to `ACCEL_SMPLRT_DIV_2`, and selects bank 0 again.
#[verifier::spinoff_prover]
#[verifier::rlimit(80)]
pub proof fn law_acc_divider(
    m: ImuModel,
    div: u16,
    r1: Seq<u8>,
    r2: Seq<u8>,
    r3: Seq<u8>,
    r4: Seq<u8>,
    r5: Seq<u8>,
)
    requires
        m.wf(),
        m.idle(),
        r1.len() == 2,
        r2.len() == 2,
        r3.len() == 2,
        r4.len() == 2,
        r5.len() == 2,
    ensures
        acc_divider_run(m, div, r1, r2, r3, r4, r5),
{
    let p = acc_div_prog(div);
    shape_acc_div(div);
    reveal_with_fuel(settle, 6);
    let (m1, a1) = launch(m.with_job(p, ReplyKind::Unit));
    assert(m1.databuf.subrange(0, 2) =~= seq![write0(RegistersBank0::RegBankSel), REG_BANK_2]);
    let (m2, a2) = deliver(m1, r1, true);
    assert(m2.databuf.subrange(0, 2) =~= seq![write2(RegistersBank2::OdrAlignEn), 0x01]);
    let (m3, a3) = deliver(m2, r2, true);
    assert(m3.databuf.subrange(0, 2) =~= seq![write2(RegistersBank2::AccelSmplrtDiv1), spec_high_byte(div)]);
    let (m4, a4) = deliver(m3, r3, true);
    assert(m4.databuf.subrange(2, 4) =~= seq![write2(RegistersBank2::AccelSmplrtDiv2), spec_low_byte(div)]);
    let (m5, a5) = deliver(m4, r4, true);
    assert(m5.databuf.subrange(0, 2) =~= seq![write0(RegistersBank0::RegBankSel), REG_BANK_0]);
    let (m6, a6) = deliver(m5, r5, true);
    assert(m6.databuf =~= m.databuf.update(0, r5[0]).update(1, r5[1]).update(2, r4[0]).update(3, r4[1]));
}

/// What `law_gyro_divider` states, for these arguments.
pub open spec fn gyro_divider_run(m: ImuModel,
    div: u8,
    r1: Seq<u8>,
    r2: Seq<u8>,
    r3: Seq<u8>,
    r4: Seq<u8>) -> bool {
    let (m1, a1) = launch(m.with_job(gyro_div_prog(div), ReplyKind::Unit));
    let (m2, a2) = deliver(m1, r1, true);
    let (m3, a3) = deliver(m2, r2, true);
    let (m4, a4) = deliver(m3, r3, true);
    let (m5, a5) = deliver(m4, r4, true);
    &&& a1 == bank_frame(REG_BANK_2)
    &&& a2 == pair_frame(write2(RegistersBank2::OdrAlignEn), 0x01)
    &&& a3 == pair_frame(write2(RegistersBank2::GyroSmplrtDiv), div)
    &&& a4 == bank_frame(REG_BANK_0)
    &&& a5 == ActionModel::Done { result: Ok(Reply::Unit) }
    &&& m5 == ImuModel { databuf: m.databuf.update(0, r4[0]).update(1, r4[1]), ..m }
}

/// Setting the gyro's sample rate divider selects bank 2, turns on
/// `ODR_ALIGN_EN`, writes `div` to `GYRO_SMPLRT_DIV` and selects bank 0
/// again.
#[verifier::spinoff_prover]
#[verifier::rlimit(40)]
pub proof fn law_gyro_divider(
    m: ImuModel,
    div: u8,
    r1: Seq<u8>,
    r2: Seq<u8>,
    r3: Seq<u8>,
    r4: Seq<u8>,
)
    requires
        m.wf(),
        m.idle(),
        r1.len() == 2,
        r2.len() == 2,
        r3.len() == 2,
        r4.len() == 2,
    ensures
        gyro_divider_run(m, div, r1, r2, r3, r4),
{
    let p = gyro_div_prog(div);
    shape_gyro_div(div);
    reveal_with_fuel(settle, 4);
    let (m1, a1) = launch(m.with_job(p, ReplyKind::Unit));
    assert(m1.databuf.subrange(0, 2) =~= seq![write0(RegistersBank0::RegBankSel), REG_BANK_2]);
    let (m2, a2) = deliver(m1, r1, true);
    assert(m2.databuf.subrange(0, 2) =~= seq![write2(RegistersBank2::OdrAlignEn), 0x01]);
    let (m3, a3) = deliver(m2, r2, true);
    assert(m3.databuf.subrange(0, 2) =~= seq![write2(RegistersBank2::GyroSmplrtDiv), div]);
    let (m4, a4) = deliver(m3, r3, true);
    assert(m4.databuf.subrange(0, 2) =~= seq![write0(RegistersBank0::RegBankSel), REG_BANK_0]);
    let (m5, a5) = deliver(m4, r4, true);
    assert(m5.databuf =~= m.databuf.update(0, r4[0]).update(1, r4[1]));
}

/// A framed three byte transfer that reads the register pair `hi`, `lo`.
pub open spec fn read_frame(hi: RegistersBank0, lo: RegistersBank0, third: u8) -> ActionModel {
    ActionModel::Transfer { bytes: seq![read0(hi), read0(lo), third], select: true, release: true }
}

/// What `law_read_axis` states, for these arguments.
pub open spec fn read_axis_run(m: ImuModel, hi: RegistersBank0, lo: RegistersBank0, r: Seq<u8>) -> bool {
    let (m1, a1) = launch(
        m.with_job(
            read_axis_prog(Seq::<Step>::empty(), read_pair_prog(hi, lo, 0)),
            ReplyKind::Sample,
        ),
    );
    let (m2, a2) = deliver(m1, r, true);
    &&& a1 == read_frame(hi, lo, m.databuf[2])
    &&& a2 == ActionModel::Done { result: Ok(Reply::Sample(spec_sample(r[1], r[2]) as i16)) }
    &&& m2 == ImuModel {
        databuf: m.databuf.update(0, r[0]).update(1, r[1]).update(2, r[2]),
        ..m
    }
    &&& waits_with(m1, m, m.databuf.update(0, read0(hi)).update(1, read0(lo)))
}

/// With the sensor on, one reading is one framed three byte transfer that
/// starts at the high output register; the reply is the signed 16 bit value
/// of the second (high) and third (low) bytes that came back.
pub proof fn law_read_axis(m: ImuModel, hi: RegistersBank0, lo: RegistersBank0, r: Seq<u8>)
    requires
        m.wf(),
        m.idle(),
        r.len() == 3,
    ensures
        read_axis_run(m, hi, lo, r),
{
    let p = read_axis_prog(Seq::<Step>::empty(), read_pair_prog(hi, lo, 0));
    shape_read_axis(hi, lo);
    reveal_with_fuel(settle, 4);
    let (m1, a1) = launch(m.with_job(p, ReplyKind::Sample));
    assert(m1.databuf.subrange(0, 3) =~= seq![read0(hi), read0(lo), m.databuf[2]]);
    let (m2, a2) = deliver(m1, r, true);
    assert(m2.databuf =~= m.databuf.update(0, r[0]).update(1, r[1]).update(2, r[2]));
    let (m1, a1) = launch(m.with_job(p, ReplyKind::Sample));
    assert(m1.databuf =~= m.databuf.update(0, read0(hi)).update(1, read0(lo)));
}

/// What `law_read_axis_guarded` states, for these arguments.
pub open spec fn read_axis_guarded_run(m: ImuModel,
    clear: bool,
    keep: u8,
    set: u8,
    flag: Step,
    hi: RegistersBank0,
    lo: RegistersBank0,
    r1: Seq<u8>,
    r2: Seq<u8>,
    r3: Seq<u8>) -> bool {
    let (m1, a1) = launch(
        m.with_job(
            read_axis_prog(pwr_mgmt_2_prog(clear, keep, set, flag), read_pair_prog(hi, lo, 0)),
            ReplyKind::Sample,
        ),
    );
    let (m2, a2) = deliver(m1, r1, true);
    let (m3, a3) = deliver(m2, r2, true);
    let (m4, a4) = deliver(m3, r3, true);
    &&& a1 == pair_frame(
        read0(RegistersBank0::PwrMgmt2),
        if clear {
            0
        } else {
            m.databuf[1]
        },
    )
    &&& a2 == pair_frame(write0(RegistersBank0::PwrMgmt2), (r1[1] & keep) | set)
    &&& a3 == read_frame(hi, lo, m.databuf[2])
    &&& a4 == ActionModel::Done { result: Ok(Reply::Sample(spec_sample(r3[1], r3[2]) as i16)) }
    &&& m4 == ImuModel {
        databuf: m.databuf.update(0, r3[0]).update(1, r3[1]).update(2, r3[2]),
        ..note(m, flag)
    }
    &&& waits_with(m1, m, m.databuf.update(0, read0(RegistersBank0::PwrMgmt2)).update(1, if clear { 0u8 } else { m.databuf[1] }))
    &&& waits_with(m2, m, m.databuf.update(0, write0(RegistersBank0::PwrMgmt2)).update(1, (r1[1] & keep) | set))
    &&& waits_with(m3, note(m, flag), m.databuf.update(0, read0(hi)).update(1, read0(lo)))
}

/// With the sensor off, a reading first switches it on (the read and the
/// write of `PWR_MGMT_2` that `enable_acc` or `enable_gyro` make, given as
/// `clear`, `keep`, `set` and `flag`), records it on, and then reads.
pub proof fn law_read_axis_guarded(
    m: ImuModel,
    clear: bool,
    keep: u8,
    set: u8,
    flag: Step,
    hi: RegistersBank0,
    lo: RegistersBank0,
    r1: Seq<u8>,
    r2: Seq<u8>,
    r3: Seq<u8>,
)
    requires
        m.wf(),
        m.idle(),
        is_note(flag),
        r1.len() == 2,
        r2.len() == 2,
        r3.len() == 3,
    ensures
        read_axis_guarded_run(m, clear, keep, set, flag, hi, lo, r1, r2, r3),
{
    let p = read_axis_prog(pwr_mgmt_2_prog(clear, keep, set, flag), read_pair_prog(hi, lo, 0));
    lemma_switch_on(m, clear, keep, set, flag, read_pair_prog(hi, lo, 0), ReplyKind::Sample, r1, r2);
    lemma_guarded_read_reads(m, clear, keep, set, flag, hi, lo, r2, r3);
}

/// What `law_read_three` states, for these arguments.
pub open spec fn read_three_run(m: ImuModel,
    p: Seq<Step>,
    x: (RegistersBank0, RegistersBank0),
    y: (RegistersBank0, RegistersBank0),
    z: (RegistersBank0, RegistersBank0),
    r1: Seq<u8>,
    r2: Seq<u8>,
    r3: Seq<u8>) -> bool {
    let (m1, a1) = launch(m.with_job(p, ReplyKind::Samples));
    let (m2, a2) = deliver(m1, r1, true);
    let (m3, a3) = deliver(m2, r2, true);
    let (m4, a4) = deliver(m3, r3, true);
    &&& a1 == read_frame(x.0, x.1, m.databuf[2])
    &&& a2 == read_frame(y.0, y.1, r1[2])
    &&& a3 == read_frame(z.0, z.1, r2[2])
    &&& a4 == ActionModel::Done {
        result: Ok(
            Reply::Samples(
                spec_sample(r1[1], r1[2]) as i16,
                spec_sample(r2[1], r2[2]) as i16,
                spec_sample(r3[1], r3[2]) as i16,
            ),
        ),
    }
    &&& m4 == ImuModel {
        databuf: m.databuf.update(0, r3[0]).update(1, r3[1]).update(2, r3[2]),
        ..m
    }
    &&& waits_with(m1, m, m.databuf.update(0, read0(x.0)).update(1, read0(x.1)))
    &&& waits_with(m2, m, m.databuf.update(0, read0(y.0)).update(1, read0(y.1)).update(2, r1[2]))
    &&& waits_with(m3, m, m.databuf.update(0, read0(z.0)).update(1, read0(z.1)).update(2, r2[2]))
}

/// With the sensor on, reading all three axes is three framed three byte
/// transfers, x then y then z, and the reply holds the three values in that
/// order.
#[verifier::spinoff_prover]
#[verifier::rlimit(80)]
pub proof fn law_read_three(
    m: ImuModel,
    p: Seq<Step>,
    x: (RegistersBank0, RegistersBank0),
    y: (RegistersBank0, RegistersBank0),
    z: (RegistersBank0, RegistersBank0),
    r1: Seq<u8>,
    r2: Seq<u8>,
    r3: Seq<u8>,
)
    requires
        m.wf(),
        m.idle(),
        p == read_pair_prog(x.0, x.1, 0) + read_pair_prog(y.0, y.1, 2) + read_pair_prog(z.0, z.1, 4),
        r1.len() == 3,
        r2.len() == 3,
        r3.len() == 3,
    ensures
        read_three_run(m, p, x, y, z, r1, r2, r3),
{
    shape_read_three(x, y, z);
    reveal_with_fuel(settle, 5);
    let (m1, a1) = launch(m.with_job(p, ReplyKind::Samples));
    assert(m1.databuf.subrange(0, 3) =~= seq![read0(x.0), read0(x.1), m.databuf[2]]);
    let (m2, a2) = deliver(m1, r1, true);
    assert(m2.databuf.subrange(0, 3) =~= seq![read0(y.0), read0(y.1), r1[2]]);
    let (m3, a3) = deliver(m2, r2, true);
    assert(m3.databuf.subrange(0, 3) =~= seq![read0(z.0), read0(z.1), r2[2]]);
    let (m4, a4) = deliver(m3, r3, true);
    assert(m4.databuf =~= m.databuf.update(0, r3[0]).update(1, r3[1]).update(2, r3[2]));
    let (m1, a1) = launch(m.with_job(p, ReplyKind::Samples));
    let (m2, a2) = deliver(m1, r1, true);
    let (m3, a3) = deliver(m2, r2, true);
    assert(m1.databuf =~= m.databuf.update(0, read0(x.0)).update(1, read0(x.1)));
    assert(m2.databuf =~= m.databuf.update(0, read0(y.0)).update(1, read0(y.1)).update(2, r1[2]));
    assert(m3.databuf =~= m.databuf.update(0, read0(z.0)).update(1, read0(z.1)).update(2, r2[2]));
}

/// What `law_read_three_guarded` states, for these arguments.
pub open spec fn read_three_guarded_run(m: ImuModel,
    clear: bool,
    keep: u8,
    set: u8,
    flag: Step,
    x: (RegistersBank0, RegistersBank0),
    y: (RegistersBank0, RegistersBank0),
    z: (RegistersBank0, RegistersBank0),
    g1: Seq<u8>,
    g2: Seq<u8>,
    r1: Seq<u8>,
    r2: Seq<u8>,
    r3: Seq<u8>) -> bool {
    let p = guarded_three_prog(clear, keep, set, flag, x, y, z);
    let (m1, a1) = launch(m.with_job(p, ReplyKind::Samples));
    let (m2, a2) = deliver(m1, g1, true);
    let (m3, a3) = deliver(m2, g2, true);
    let (m4, a4) = deliver(m3, r1, true);
    let (m5, a5) = deliver(m4, r2, true);
    let (m6, a6) = deliver(m5, r3, true);
    &&& a1 == pair_frame(
        read0(RegistersBank0::PwrMgmt2),
        if clear {
            0
        } else {
            m.databuf[1]
        },
    )
    &&& a2 == pair_frame(write0(RegistersBank0::PwrMgmt2), (g1[1] & keep) | set)
    &&& a3 == read_frame(x.0, x.1, m.databuf[2])
    &&& a4 == read_frame(y.0, y.1, r1[2])
    &&& a5 == read_frame(z.0, z.1, r2[2])
    &&& a6 == ActionModel::Done {
        result: Ok(
            Reply::Samples(
                spec_sample(r1[1], r1[2]) as i16,
                spec_sample(r2[1], r2[2]) as i16,
                spec_sample(r3[1], r3[2]) as i16,
            ),
        ),
    }
    &&& m6 == ImuModel {
        databuf: m.databuf.update(0, r3[0]).update(1, r3[1]).update(2, r3[2]),
        ..note(m, flag)
    }
    &&& waits_with(m1, m, m.databuf.update(0, read0(RegistersBank0::PwrMgmt2)).update(1, if clear { 0u8 } else { m.databuf[1] }))
    &&& waits_with(m2, m, m.databuf.update(0, write0(RegistersBank0::PwrMgmt2)).update(1, (g1[1] & keep) | set))
    &&& waits_with(m3, note(m, flag), m.databuf.update(0, read0(x.0)).update(1, read0(x.1)))
    &&& waits_with(m4, note(m, flag), m.databuf.update(0, read0(y.0)).update(1, read0(y.1)).update(2, r1[2]))
    &&& waits_with(m5, note(m, flag), m.databuf.update(0, read0(z.0)).update(1, read0(z.1)).update(2, r2[2]))
}

/// With the sensor off, reading all three axes first switches the sensor on
/// (as `law_read_axis_guarded` describes) and then makes the three reads of
/// `law_read_three`; the sensor is recorded on.
pub proof fn law_read_three_guarded(
    m: ImuModel,
    clear: bool,
    keep: u8,
    set: u8,
    flag: Step,
    x: (RegistersBank0, RegistersBank0),
    y: (RegistersBank0, RegistersBank0),
    z: (RegistersBank0, RegistersBank0),
    g1: Seq<u8>,
    g2: Seq<u8>,
    r1: Seq<u8>,
    r2: Seq<u8>,
    r3: Seq<u8>,
)
    requires
        m.wf(),
        m.idle(),
        is_note(flag),
        g1.len() == 2,
        g2.len() == 2,
        r1.len() == 3,
        r2.len() == 3,
        r3.len() == 3,
    ensures
        read_three_guarded_run(m, clear, keep, set, flag, x, y, z, g1, g2, r1, r2, r3),
{
    let p = guarded_three_prog(clear, keep, set, flag, x, y, z);
    lemma_switch_on(
        m,
        clear,
        keep,
        set,
        flag,
        read_pair_prog(x.0, x.1, 0) + read_pair_prog(y.0, y.1, 2) + read_pair_prog(z.0, z.1, 4),
        ReplyKind::Samples,
        g1,
        g2,
    );
    assert(pwr_mgmt_2_prog(clear, keep, set, flag) + (read_pair_prog(x.0, x.1, 0) + read_pair_prog(y.0, y.1, 2) + read_pair_prog(z.0, z.1, 4)) =~= p);
    lemma_guarded_three_reads(m, clear, keep, set, flag, x, y, z, g2, r1, r2, r3);
}

/// A switch-on of the sensor followed by three axis reads.
pub open spec fn guarded_three_prog(
    clear: bool,
    keep: u8,
    set: u8,
    flag: Step,
    x: (RegistersBank0, RegistersBank0),
    y: (RegistersBank0, RegistersBank0),
    z: (RegistersBank0, RegistersBank0),
) -> Seq<Step> {
    pwr_mgmt_2_prog(clear, keep, set, flag) + read_pair_prog(x.0, x.1, 0) + read_pair_prog(y.0, y.1, 2)
        + read_pair_prog(z.0, z.1, 4)
}

/// The state of program `p`, which starts with a switch-on, once the
/// switch-on is over: the setting is recorded and step 7 comes next.
pub open spec fn after_switch_on(m: ImuModel, flag: Step, p: Seq<Step>, kind: ReplyKind, g2: Seq<u8>) -> ImuModel {
    ImuModel {
        databuf: m.databuf.update(0, g2[0]).update(1, g2[1]),
        job: Some(JobModel { prog: p, pc: 7, kind, slots: Seq::new(6, |i: int| 0u8) }),
        ..note(m, flag)
    }
}

/// A program that starts with a switch-on of a sensor makes the framed read
/// and the framed write of `PWR_MGMT_2`, and then goes on from
/// `after_switch_on`.
proof fn lemma_switch_on(
    m: ImuModel,
    clear: bool,
    keep: u8,
    set: u8,
    flag: Step,
    rest: Seq<Step>,
    kind: ReplyKind,
    g1: Seq<u8>,
    g2: Seq<u8>,
)
    requires
        m.wf(),
        m.idle(),
        is_note(flag),
        g1.len() == 2,
        g2.len() == 2,
    ensures
        ({
            let p = pwr_mgmt_2_prog(clear, keep, set, flag) + rest;
            let (m1, a1) = launch(m.with_job(p, kind));
            let (m2, a2) = deliver(m1, g1, true);
            &&& a1 == pair_frame(
                read0(RegistersBank0::PwrMgmt2),
                if clear {
                    0
                } else {
                    m.databuf[1]
                },
            )
            &&& a2 == pair_frame(write0(RegistersBank0::PwrMgmt2), (g1[1] & keep) | set)
            &&& deliver(m2, g2, true) == launch(after_switch_on(m, flag, p, kind, g2))
            &&& waits_with(
                m1,
                m,
                m.databuf.update(0, read0(RegistersBank0::PwrMgmt2)).update(
                    1,
                    if clear {
                        0u8
                    } else {
                        m.databuf[1]
                    },
                ),
            )
            &&& waits_with(
                m2,
                m,
                m.databuf.update(0, write0(RegistersBank0::PwrMgmt2)).update(1, (g1[1] & keep) | set),
            )
        }),
{
    let g = pwr_mgmt_2_prog(clear, keep, set, flag);
    let p = g + rest;
    shape_pwr_mgmt_2(clear, keep, set, flag);
    assert forall|i: int| 0 <= i < 7 implies p[i] == g[i] by {}
    lemma_second_byte(m.databuf[1]);
    reveal_with_fuel(settle, 3);
    let (m1, a1) = launch(m.with_job(p, kind));
    assert(m1.databuf =~= m.databuf.update(0, read0(RegistersBank0::PwrMgmt2)).update(
        1,
        if clear {
            0u8
        } else {
            m.databuf[1]
        },
    ));
    assert(m1.databuf.subrange(0, 2) =~= seq![
        read0(RegistersBank0::PwrMgmt2),
        if clear {
            0
        } else {
            m.databuf[1]
        },
    ]);
    let (m2, a2) = deliver(m1, g1, true);
    assert(m2.databuf =~= m.databuf.update(0, write0(RegistersBank0::PwrMgmt2)).update(
        1,
        (g1[1] & keep) | set,
    ));
    assert(m2.databuf.subrange(0, 2) =~= seq![write0(RegistersBank0::PwrMgmt2), (g1[1] & keep) | set]);
    let j2 = m2.job.unwrap();
    let m2b = ImuModel {
        databuf: splice(m2.databuf, 0, g2),
        job: Some(JobModel { pc: j2.pc + 1, ..j2 }),
        ..m2
    };
    let after = after_switch_on(m, flag, p, kind, g2);
    assert(run_step(m2b, flag).databuf =~= after.databuf);
    assert(run_step(m2b, flag).job.unwrap().slots =~= after.job.unwrap().slots);
    assert(run_step(m2b, flag) == after);
    assert(settle(m2b) == settle(after));
}

/// From `after_switch_on`, the read of one axis.
#[verifier::spinoff_prover]
#[verifier::rlimit(40)]
proof fn lemma_guarded_read_reads(
    m: ImuModel,
    clear: bool,
    keep: u8,
    set: u8,
    flag: Step,
    hi: RegistersBank0,
    lo: RegistersBank0,
    g2: Seq<u8>,
    r3: Seq<u8>,
)
    requires
        m.wf(),
        m.idle(),
        is_note(flag),
        g2.len() == 2,
        r3.len() == 3,
    ensures
        ({
            let p = read_axis_prog(pwr_mgmt_2_prog(clear, keep, set, flag), read_pair_prog(hi, lo, 0));
            let (m3, a3) = launch(after_switch_on(m, flag, p, ReplyKind::Sample, g2));
            let (m4, a4) = deliver(m3, r3, true);
            &&& a3 == read_frame(hi, lo, m.databuf[2])
            &&& a4 == ActionModel::Done { result: Ok(Reply::Sample(spec_sample(r3[1], r3[2]) as i16)) }
            &&& m4 == ImuModel {
                databuf: m.databuf.update(0, r3[0]).update(1, r3[1]).update(2, r3[2]),
                ..note(m, flag)
            }
            &&& waits_with(m3, note(m, flag), m.databuf.update(0, read0(hi)).update(1, read0(lo)))
        }),
{
    let p = read_axis_prog(pwr_mgmt_2_prog(clear, keep, set, flag), read_pair_prog(hi, lo, 0));
    shape_guarded_read(clear, keep, set, flag, hi, lo);
    reveal_with_fuel(settle, 4);
    let (m3, a3) = launch(after_switch_on(m, flag, p, ReplyKind::Sample, g2));
    assert(m3.databuf =~= m.databuf.update(0, read0(hi)).update(1, read0(lo)));
    assert(m3.databuf.subrange(0, 3) =~= seq![read0(hi), read0(lo), m.databuf[2]]);
    let (m4, a4) = deliver(m3, r3, true);
    assert(m4.databuf =~= m.databuf.update(0, r3[0]).update(1, r3[1]).update(2, r3[2]));
}

#[verifier::spinoff_prover]
#[verifier::rlimit(40)]
proof fn lemma_guarded_three_reads(
    m: ImuModel,
    clear: bool,
    keep: u8,
    set: u8,
    flag: Step,
    x: (RegistersBank0, RegistersBank0),
    y: (RegistersBank0, RegistersBank0),
    z: (RegistersBank0, RegistersBank0),
    g2: Seq<u8>,
    r1: Seq<u8>,
    r2: Seq<u8>,
    r3: Seq<u8>,
)
    requires
        m.wf(),
        m.idle(),
        is_note(flag),
        g2.len() == 2,
        r1.len() == 3,
        r2.len() == 3,
        r3.len() == 3,
    ensures
        ({
            let (m3, a3) = launch(after_switch_on(m, flag, guarded_three_prog(clear, keep, set, flag, x, y, z), ReplyKind::Samples, g2));
            let (m4, a4) = deliver(m3, r1, true);
            let (m5, a5) = deliver(m4, r2, true);
            let (m6, a6) = deliver(m5, r3, true);
            &&& a3 == read_frame(x.0, x.1, m.databuf[2])
            &&& a4 == read_frame(y.0, y.1, r1[2])
            &&& a5 == read_frame(z.0, z.1, r2[2])
            &&& a6 == ActionModel::Done {
                result: Ok(
                    Reply::Samples(
                        spec_sample(r1[1], r1[2]) as i16,
                        spec_sample(r2[1], r2[2]) as i16,
                        spec_sample(r3[1], r3[2]) as i16,
                    ),
                ),
            }
            &&& m6 == ImuModel {
                databuf: m.databuf.update(0, r3[0]).update(1, r3[1]).update(2, r3[2]),
                ..note(m, flag)
            }
            &&& waits_with(m3, note(m, flag), m.databuf.update(0, read0(x.0)).update(1, read0(x.1)))
            &&& waits_with(m4, note(m, flag), m.databuf.update(0, read0(y.0)).update(1, read0(y.1)).update(2, r1[2]))
            &&& waits_with(m5, note(m, flag), m.databuf.update(0, read0(z.0)).update(1, read0(z.1)).update(2, r2[2]))
        }),
{
    shape_guarded_three(clear, keep, set, flag, x, y, z);
    reveal_with_fuel(settle, 5);
    let (m3, a3) = launch(after_switch_on(m, flag, guarded_three_prog(clear, keep, set, flag, x, y, z), ReplyKind::Samples, g2));
    assert(m3.databuf.subrange(0, 3) =~= seq![read0(x.0), read0(x.1), m.databuf[2]]);
    let (m4, a4) = deliver(m3, r1, true);
    assert(m4.databuf.subrange(0, 3) =~= seq![read0(y.0), read0(y.1), r1[2]]);
    let (m5, a5) = deliver(m4, r2, true);
    assert(m5.databuf.subrange(0, 3) =~= seq![read0(z.0), read0(z.1), r2[2]]);
    let (m6, a6) = deliver(m5, r3, true);
    assert(m6.databuf =~= m.databuf.update(0, r3[0]).update(1, r3[1]).update(2, r3[2]));
    assert(m3.databuf =~= m.databuf.update(0, read0(x.0)).update(1, read0(x.1)));
    assert(m4.databuf =~= m.databuf.update(0, read0(y.0)).update(1, read0(y.1)).update(2, r1[2]));
    assert(m5.databuf =~= m.databuf.update(0, read0(z.0)).update(1, read0(z.1)).update(2, r2[2]));
}

/// `read_acc` and `read_gyro` with the sensor on are the three-axis reads
/// of the accelerometer's and the gyro's output registers; with the sensor
/// off they switch it on once (as `enable_acc` or `enable_gyro` do) before
/// the three reads. A single reading switches its own sensor on in the same
/// way.
pub proof fn law_read_programs()
    ensures
        read_acc_prog(true) == acc_x_pair(0) + acc_y_pair(2) + acc_z_pair(4),
        read_gyro_prog(true) == gyro_x_pair(0) + gyro_y_pair(2) + gyro_z_pair(4),
        read_acc_prog(false) == enable_acc_prog() + acc_x_pair(0) + acc_y_pair(2) + acc_z_pair(4),
        read_gyro_prog(false) == enable_gyro_prog() + gyro_x_pair(0) + gyro_y_pair(2) + gyro_z_pair(
            4,
        ),
        acc_guard(true) == Seq::<Step>::empty(),
        gyro_guard(true) == Seq::<Step>::empty(),
        acc_guard(false) == enable_acc_prog(),
        gyro_guard(false) == enable_gyro_prog(),
        enable_acc_prog() == pwr_mgmt_2_prog(false, 0x07, 0, Step::SetAcc { acc: AccStates::AccOn }),
        enable_gyro_prog() == pwr_mgmt_2_prog(
            true,
            0x38,
            0,
            Step::SetGyro { gyro: GyroStates::GyroOn },
        ),
{
    assert(read_acc_prog(true) =~= acc_x_pair(0) + acc_y_pair(2) + acc_z_pair(4));
    assert(read_gyro_prog(true) =~= gyro_x_pair(0) + gyro_y_pair(2) + gyro_z_pair(4));
}

/// Hands in `replies[i..]`, all of them successful, one per transfer asked
/// for, starting from state `m` and request `a`; gives the end state and
/// every request made from `a` on.
pub open spec fn run_ok(m: ImuModel, a: ActionModel, replies: Seq<Seq<u8>>, i: int) -> (
    ImuModel,
    Seq<ActionModel>,
)
    decreases replies.len() - i,
{
    if i >= replies.len() || i < 0 {
        (m, seq![a])
    } else {
        let (m2, a2) = deliver(m, replies[i], true);
        let (m3, rest) = run_ok(m2, a2, replies, i + 1);
        (m3, seq![a] + rest)
    }
}

/// `run_ok` over one reply.
pub proof fn lemma_run_ok_1(m: ImuModel, a: ActionModel, r: Seq<u8>)
    ensures
        run_ok(m, a, seq![r], 0) == (
            deliver(m, r, true).0,
            seq![a, deliver(m, r, true).1],
        ),
{
    let d = deliver(m, r, true);
    assert(seq![r][0] == r);
    assert(run_ok(d.0, d.1, seq![r], 1) == (d.0, seq![d.1]));
    assert(seq![a] + seq![d.1] =~= seq![a, d.1]);
}

/// Shifting the replies by one in front shifts the index by one.
proof fn lemma_run_ok_shift(m: ImuModel, a: ActionModel, r: Seq<u8>, rs: Seq<Seq<u8>>, i: int)
    requires
        i >= 0,
    ensures
        run_ok(m, a, seq![r] + rs, i + 1) == run_ok(m, a, rs, i),
    decreases rs.len() - i,
{
    if i < rs.len() {
        assert((seq![r] + rs)[i + 1] == rs[i]);
        let d = deliver(m, rs[i], true);
        lemma_run_ok_shift(d.0, d.1, r, rs, i + 1);
    }
}

/// `run_ok` over one reply and then the rest.
pub proof fn lemma_run_ok_cons(m: ImuModel, a: ActionModel, r: Seq<u8>, rs: Seq<Seq<u8>>)
    ensures
        ({
            let d = deliver(m, r, true);
            let rest = run_ok(d.0, d.1, rs, 0);
            run_ok(m, a, seq![r] + rs, 0) == (rest.0, seq![a] + rest.1)
        }),
{
    let d = deliver(m, r, true);
    assert((seq![r] + rs)[0] == r);
    lemma_run_ok_shift(d.0, d.1, r, rs, 0);
}

/// `run_ok` over three replies.
pub proof fn lemma_run_ok_3(m: ImuModel, a: ActionModel, r1: Seq<u8>, r2: Seq<u8>, r3: Seq<u8>)
    ensures
        ({
            let d1 = deliver(m, r1, true);
            let d2 = deliver(d1.0, r2, true);
            let d3 = deliver(d2.0, r3, true);
            run_ok(m, a, seq![r1, r2, r3], 0) == (d3.0, seq![a, d1.1, d2.1, d3.1])
        }),
{
    let d1 = deliver(m, r1, true);
    let d2 = deliver(d1.0, r2, true);
    let d3 = deliver(d2.0, r3, true);
    assert(seq![r1, r2, r3] =~= seq![r1] + seq![r2, r3]);
    assert(seq![r2, r3] =~= seq![r2] + seq![r3]);
    lemma_run_ok_cons(m, a, r1, seq![r2, r3]);
    lemma_run_ok_cons(d1.0, d1.1, r2, seq![r3]);
    lemma_run_ok_1(d2.0, d2.1, r3);
    assert(seq![a] + (seq![d1.1] + seq![d2.1, d3.1]) =~= seq![a, d1.1, d2.1, d3.1]);
}

/// `run_ok` over five replies.
pub proof fn lemma_run_ok_5(
    m: ImuModel,
    a: ActionModel,
    r1: Seq<u8>,
    r2: Seq<u8>,
    r3: Seq<u8>,
    r4: Seq<u8>,
    r5: Seq<u8>,
)
    ensures
        ({
            let d1 = deliver(m, r1, true);
            let d2 = deliver(d1.0, r2, true);
            let d3 = deliver(d2.0, r3, true);
            let d4 = deliver(d3.0, r4, true);
            let d5 = deliver(d4.0, r5, true);
            run_ok(m, a, seq![r1, r2, r3, r4, r5], 0) == (
                d5.0,
                seq![a, d1.1, d2.1, d3.1, d4.1, d5.1],
            )
        }),
{
    let d1 = deliver(m, r1, true);
    let d2 = deliver(d1.0, r2, true);
    let d3 = deliver(d2.0, r3, true);
    let d4 = deliver(d3.0, r4, true);
    let d5 = deliver(d4.0, r5, true);
    assert(seq![r1, r2, r3, r4, r5] =~= seq![r1] + seq![r2, r3, r4, r5]);
    assert(seq![r2, r3, r4, r5] =~= seq![r2] + seq![r3, r4, r5]);
    lemma_run_ok_cons(m, a, r1, seq![r2, r3, r4, r5]);
    lemma_run_ok_cons(d1.0, d1.1, r2, seq![r3, r4, r5]);
    lemma_run_ok_3(d2.0, d2.1, r3, r4, r5);
    assert(seq![a] + (seq![d1.1] + seq![d2.1, d3.1, d4.1, d5.1])
        =~= seq![a, d1.1, d2.1, d3.1, d4.1, d5.1]);
}

/// `read_acc` is `read_acc_x`, `read_acc_y` and `read_acc_z` in a row: from
/// the same idle state and with the same bytes coming back (`g1` and `g2`
/// for switching the accelerometer on, if it is off), it makes the same transfers,
/// ends in the same state, and replies with the three values that the
/// single reads reply with, in order.
#[verifier::spinoff_prover]
#[verifier::rlimit(80)]
pub proof fn law_read_acc_in_a_row(
    m: ImuModel,
    g1: Seq<u8>,
    g2: Seq<u8>,
    r1: Seq<u8>,
    r2: Seq<u8>,
    r3: Seq<u8>,
)
    requires
        m.wf(),
        m.idle(),
        g1.len() == 2,
        g2.len() == 2,
        r1.len() == 3,
        r2.len() == 3,
        r3.len() == 3,
    ensures
        ({
            let on = m.acc_en == AccStates::AccOn;
            let all = launch(m.with_job(read_acc_prog(on), ReplyKind::Samples));
            let whole = run_ok(
                all.0,
                all.1,
                if on {
                    seq![r1, r2, r3]
                } else {
                    seq![g1, g2, r1, r2, r3]
                },
                0,
            );
            let sx = launch(m.with_job(read_axis_prog(acc_guard(on), acc_x_pair(0)), ReplyKind::Sample));
            let rx = run_ok(
                sx.0,
                sx.1,
                if on {
                    seq![r1]
                } else {
                    seq![g1, g2, r1]
                },
                0,
            );
            let sy = launch(
                rx.0.with_job(read_axis_prog(acc_guard(rx.0.acc_en == AccStates::AccOn), acc_y_pair(0)), ReplyKind::Sample),
            );
            let ry = run_ok(sy.0, sy.1, seq![r2], 0);
            let sz = launch(
                ry.0.with_job(read_axis_prog(acc_guard(ry.0.acc_en == AccStates::AccOn), acc_z_pair(0)), ReplyKind::Sample),
            );
            let rz = run_ok(sz.0, sz.1, seq![r3], 0);
            let x = spec_sample(r1[1], r1[2]) as i16;
            let y = spec_sample(r2[1], r2[2]) as i16;
            let z = spec_sample(r3[1], r3[2]) as i16;
            &&& whole.0 == rz.0
            &&& whole.1.drop_last() == rx.1.drop_last() + ry.1.drop_last() + rz.1.drop_last()
            &&& rx.1.last() == ActionModel::Done { result: Ok(Reply::Sample(x)) }
            &&& ry.1.last() == ActionModel::Done { result: Ok(Reply::Sample(y)) }
            &&& rz.1.last() == ActionModel::Done { result: Ok(Reply::Sample(z)) }
            &&& whole.1.last() == ActionModel::Done { result: Ok(Reply::Samples(x, y, z)) }
        }),
{
    law_read_programs();
    let xr = (RegistersBank0::AccelXOutH, RegistersBank0::AccelXOutL);
    let yr = (RegistersBank0::AccelYOutH, RegistersBank0::AccelYOutL);
    let zr = (RegistersBank0::AccelZOutH, RegistersBank0::AccelZOutL);
    let flag = Step::SetAcc { acc: AccStates::AccOn };
    let on = m.acc_en == AccStates::AccOn;
    let all = launch(m.with_job(read_acc_prog(on), ReplyKind::Samples));
    let sx = launch(m.with_job(read_axis_prog(acc_guard(on), acc_x_pair(0)), ReplyKind::Sample));
    let mx = if on {
        law_read_axis(m, xr.0, xr.1, r1);
        lemma_run_ok_1(sx.0, sx.1, r1);
        deliver(sx.0, r1, true).0
    } else {
        law_read_axis_guarded(m, false, 0x07, 0, flag, xr.0, xr.1, g1, g2, r1);
        let s2 = deliver(sx.0, g1, true);
        let s3 = deliver(s2.0, g2, true);
        lemma_run_ok_3(sx.0, sx.1, g1, g2, r1);
        deliver(s3.0, r1, true).0
    };
    assert(mx.acc_en == AccStates::AccOn);
    let sy = launch(mx.with_job(read_axis_prog(acc_guard(true), acc_y_pair(0)), ReplyKind::Sample));
    law_read_axis(mx, yr.0, yr.1, r2);
    lemma_run_ok_1(sy.0, sy.1, r2);
    let dy = deliver(sy.0, r2, true);
    let my = dy.0;
    let sz = launch(my.with_job(read_axis_prog(acc_guard(true), acc_z_pair(0)), ReplyKind::Sample));
    law_read_axis(my, zr.0, zr.1, r3);
    lemma_run_ok_1(sz.0, sz.1, r3);
    let dz = deliver(sz.0, r3, true);
    if on {
        assert(read_acc_prog(on) =~= read_pair_prog(xr.0, xr.1, 0) + read_pair_prog(yr.0, yr.1, 2)
            + read_pair_prog(zr.0, zr.1, 4));
        law_read_three(m, read_acc_prog(on), xr, yr, zr, r1, r2, r3);
        lemma_run_ok_3(all.0, all.1, r1, r2, r3);
        let w1 = deliver(all.0, r1, true);
        let w2 = deliver(w1.0, r2, true);
        let w3 = deliver(w2.0, r3, true);
        let dx = deliver(sx.0, r1, true);
        assert(w3.0.databuf =~= dz.0.databuf);
        assert(seq![all.1, w1.1, w2.1, w3.1].drop_last() =~= seq![sx.1, dx.1].drop_last() + seq![
            sy.1,
            dy.1,
        ].drop_last() + seq![sz.1, dz.1].drop_last());
    } else {
        assert(read_acc_prog(on) =~= guarded_three_prog(false, 0x07, 0, flag, xr, yr, zr));
        law_read_three_guarded(m, false, 0x07, 0, flag, xr, yr, zr, g1, g2, r1, r2, r3);
        lemma_run_ok_5(all.0, all.1, g1, g2, r1, r2, r3);
        let w1 = deliver(all.0, g1, true);
        let w2 = deliver(w1.0, g2, true);
        let w3 = deliver(w2.0, r1, true);
        let w4 = deliver(w3.0, r2, true);
        let w5 = deliver(w4.0, r3, true);
        let s2 = deliver(sx.0, g1, true);
        let s3 = deliver(s2.0, g2, true);
        let dx = deliver(s3.0, r1, true);
        assert(w5.0.databuf =~= dz.0.databuf);
        assert(seq![all.1, w1.1, w2.1, w3.1, w4.1, w5.1].drop_last() =~= seq![sx.1, s2.1, s3.1, dx.1].drop_last()
            + seq![sy.1, dy.1].drop_last() + seq![sz.1, dz.1].drop_last());
    }
}

/// `read_gyro` is `read_gyro_x`, `read_gyro_y` and `read_gyro_z` in a row: from
/// the same idle state and with the same bytes coming back (`g1` and `g2`
/// for switching the gyro on, if it is off), it makes the same transfers,
/// ends in the same state, and replies with the three values that the
/// single reads reply with, in order.
#[verifier::spinoff_prover]
#[verifier::rlimit(80)]
pub proof fn law_read_gyro_in_a_row(
    m: ImuModel,
    g1: Seq<u8>,
    g2: Seq<u8>,
    r1: Seq<u8>,
    r2: Seq<u8>,
    r3: Seq<u8>,
)
    requires
        m.wf(),
        m.idle(),
        g1.len() == 2,
        g2.len() == 2,
        r1.len() == 3,
        r2.len() == 3,
        r3.len() == 3,
    ensures
        ({
            let on = m.gyro_en == GyroStates::GyroOn;
            let all = launch(m.with_job(read_gyro_prog(on), ReplyKind::Samples));
            let whole = run_ok(
                all.0,
                all.1,
                if on {
                    seq![r1, r2, r3]
                } else {
                    seq![g1, g2, r1, r2, r3]
                },
                0,
            );
            let sx = launch(m.with_job(read_axis_prog(gyro_guard(on), gyro_x_pair(0)), ReplyKind::Sample));
            let rx = run_ok(
                sx.0,
                sx.1,
                if on {
                    seq![r1]
                } else {
                    seq![g1, g2, r1]
                },
                0,
            );
            let sy = launch(
                rx.0.with_job(read_axis_prog(gyro_guard(rx.0.gyro_en == GyroStates::GyroOn), gyro_y_pair(0)), ReplyKind::Sample),
            );
            let ry = run_ok(sy.0, sy.1, seq![r2], 0);
            let sz = launch(
                ry.0.with_job(read_axis_prog(gyro_guard(ry.0.gyro_en == GyroStates::GyroOn), gyro_z_pair(0)), ReplyKind::Sample),
            );
            let rz = run_ok(sz.0, sz.1, seq![r3], 0);
            let x = spec_sample(r1[1], r1[2]) as i16;
            let y = spec_sample(r2[1], r2[2]) as i16;
            let z = spec_sample(r3[1], r3[2]) as i16;
            &&& whole.0 == rz.0
            &&& whole.1.drop_last() == rx.1.drop_last() + ry.1.drop_last() + rz.1.drop_last()
            &&& rx.1.last() == ActionModel::Done { result: Ok(Reply::Sample(x)) }
            &&& ry.1.last() == ActionModel::Done { result: Ok(Reply::Sample(y)) }
            &&& rz.1.last() == ActionModel::Done { result: Ok(Reply::Sample(z)) }
            &&& whole.1.last() == ActionModel::Done { result: Ok(Reply::Samples(x, y, z)) }
        }),
{
    law_read_programs();
    let xr = (RegistersBank0::GyroXOutH, RegistersBank0::GyroXOutL);
    let yr = (RegistersBank0::GyroYOutH, RegistersBank0::GyroYOutL);
    let zr = (RegistersBank0::GyroZOutH, RegistersBank0::GyroZOutL);
    let flag = Step::SetGyro { gyro: GyroStates::GyroOn };
    let on = m.gyro_en == GyroStates::GyroOn;
    let all = launch(m.with_job(read_gyro_prog(on), ReplyKind::Samples));
    let sx = launch(m.with_job(read_axis_prog(gyro_guard(on), gyro_x_pair(0)), ReplyKind::Sample));
    let mx = if on {
        law_read_axis(m, xr.0, xr.1, r1);
        lemma_run_ok_1(sx.0, sx.1, r1);
        deliver(sx.0, r1, true).0
    } else {
        law_read_axis_guarded(m, true, 0x38, 0, flag, xr.0, xr.1, g1, g2, r1);
        let s2 = deliver(sx.0, g1, true);
        let s3 = deliver(s2.0, g2, true);
        lemma_run_ok_3(sx.0, sx.1, g1, g2, r1);
        deliver(s3.0, r1, true).0
    };
    assert(mx.gyro_en == GyroStates::GyroOn);
    let sy = launch(mx.with_job(read_axis_prog(gyro_guard(true), gyro_y_pair(0)), ReplyKind::Sample));
    law_read_axis(mx, yr.0, yr.1, r2);
    lemma_run_ok_1(sy.0, sy.1, r2);
    let dy = deliver(sy.0, r2, true);
    let my = dy.0;
    let sz = launch(my.with_job(read_axis_prog(gyro_guard(true), gyro_z_pair(0)), ReplyKind::Sample));
    law_read_axis(my, zr.0, zr.1, r3);
    lemma_run_ok_1(sz.0, sz.1, r3);
    let dz = deliver(sz.0, r3, true);
    if on {
        assert(read_gyro_prog(on) =~= read_pair_prog(xr.0, xr.1, 0) + read_pair_prog(yr.0, yr.1, 2)
            + read_pair_prog(zr.0, zr.1, 4));
        law_read_three(m, read_gyro_prog(on), xr, yr, zr, r1, r2, r3);
        lemma_run_ok_3(all.0, all.1, r1, r2, r3);
        let w1 = deliver(all.0, r1, true);
        let w2 = deliver(w1.0, r2, true);
        let w3 = deliver(w2.0, r3, true);
        let dx = deliver(sx.0, r1, true);
        assert(w3.0.databuf =~= dz.0.databuf);
        assert(seq![all.1, w1.1, w2.1, w3.1].drop_last() =~= seq![sx.1, dx.1].drop_last() + seq![
            sy.1,
            dy.1,
        ].drop_last() + seq![sz.1, dz.1].drop_last());
    } else {
        assert(read_gyro_prog(on) =~= guarded_three_prog(true, 0x38, 0, flag, xr, yr, zr));
        law_read_three_guarded(m, true, 0x38, 0, flag, xr, yr, zr, g1, g2, r1, r2, r3);
        lemma_run_ok_5(all.0, all.1, g1, g2, r1, r2, r3);
        let w1 = deliver(all.0, g1, true);
        let w2 = deliver(w1.0, g2, true);
        let w3 = deliver(w2.0, r1, true);
        let w4 = deliver(w3.0, r2, true);
        let w5 = deliver(w4.0, r3, true);
        let s2 = deliver(sx.0, g1, true);
        let s3 = deliver(s2.0, g2, true);
        let dx = deliver(s3.0, r1, true);
        assert(w5.0.databuf =~= dz.0.databuf);
        assert(seq![all.1, w1.1, w2.1, w3.1, w4.1, w5.1].drop_last() =~= seq![sx.1, s2.1, s3.1, dx.1].drop_last()
            + seq![sy.1, dy.1].drop_last() + seq![sz.1, dz.1].drop_last());
    }
}

/// `read_acc` fails as `read_acc_x`, `read_acc_y` and `read_acc_z` in a row
/// fail: when a transfer fails (the bytes that come back being `f`), after
/// the earlier ones went through with the bytes given (`g1` and `g2` for
/// switching the accelerometer on, if it is off), `read_acc` ends at once with a bus
/// error and asks for no later axis, in the very state in which the single
/// read that makes the same transfer ends; the later single reads are not
/// started.
#[verifier::spinoff_prover]
#[verifier::rlimit(40)]
pub proof fn law_read_acc_fails_as_single_reads(
    m: ImuModel,
    g1: Seq<u8>,
    g2: Seq<u8>,
    r1: Seq<u8>,
    r2: Seq<u8>,
    f: Seq<u8>,
)
    requires
        m.wf(),
        m.idle(),
        g1.len() == 2,
        g2.len() == 2,
        r1.len() == 3,
        r2.len() == 3,
    ensures
        ({
            let on = m.acc_en == AccStates::AccOn;
            let failed = ActionModel::Done { result: Err(IcmError::BusError) };
            let all = launch(m.with_job(read_acc_prog(on), ReplyKind::Samples));
            let sx = launch(m.with_job(read_axis_prog(acc_guard(on), acc_x_pair(0)), ReplyKind::Sample));
            let mx = run_ok(
                sx.0,
                sx.1,
                if on {
                    seq![r1]
                } else {
                    seq![g1, g2, r1]
                },
                0,
            ).0;
            let sy = launch(
                mx.with_job(read_axis_prog(acc_guard(mx.acc_en == AccStates::AccOn), acc_y_pair(0)), ReplyKind::Sample),
            );
            let my = run_ok(sy.0, sy.1, seq![r2], 0).0;
            let sz = launch(
                my.with_job(read_axis_prog(acc_guard(my.acc_en == AccStates::AccOn), acc_z_pair(0)), ReplyKind::Sample),
            );
            &&& deliver(all.0, f, false) == deliver(sx.0, f, false)
            &&& deliver(all.0, f, false).1 == failed
            &&& if on {
                let w1 = deliver(all.0, r1, true).0;
                let w2 = deliver(w1, r2, true).0;
                &&& deliver(w1, f, false) == deliver(sy.0, f, false)
                &&& deliver(w2, f, false) == deliver(sz.0, f, false)
                &&& deliver(w1, f, false).1 == failed
                &&& deliver(w2, f, false).1 == failed
            } else {
                let w1 = deliver(all.0, g1, true).0;
                let w2 = deliver(w1, g2, true).0;
                let w3 = deliver(w2, r1, true).0;
                let w4 = deliver(w3, r2, true).0;
                let x2 = deliver(sx.0, g1, true).0;
                let x3 = deliver(x2, g2, true).0;
                &&& deliver(w1, f, false) == deliver(x2, f, false)
                &&& deliver(w2, f, false) == deliver(x3, f, false)
                &&& deliver(w3, f, false) == deliver(sy.0, f, false)
                &&& deliver(w4, f, false) == deliver(sz.0, f, false)
                &&& deliver(w1, f, false).1 == failed
                &&& deliver(w2, f, false).1 == failed
                &&& deliver(w3, f, false).1 == failed
                &&& deliver(w4, f, false).1 == failed
            }
        }),
{
    law_read_programs();
    let xr = (RegistersBank0::AccelXOutH, RegistersBank0::AccelXOutL);
    let yr = (RegistersBank0::AccelYOutH, RegistersBank0::AccelYOutL);
    let zr = (RegistersBank0::AccelZOutH, RegistersBank0::AccelZOutL);
    let flag = Step::SetAcc { acc: AccStates::AccOn };
    let on = m.acc_en == AccStates::AccOn;
    let all = launch(m.with_job(read_acc_prog(on), ReplyKind::Samples));
    let sx = launch(m.with_job(read_axis_prog(acc_guard(on), acc_x_pair(0)), ReplyKind::Sample));
    let base = if on {
        m
    } else {
        note(m, flag)
    };
    let bx = m.databuf.update(0, read0(xr.0)).update(1, read0(xr.1));
    let by = m.databuf.update(0, read0(yr.0)).update(1, read0(yr.1)).update(2, r1[2]);
    let bz = m.databuf.update(0, read0(zr.0)).update(1, read0(zr.1)).update(2, r2[2]);
    let mx = if on {
        law_read_axis(m, xr.0, xr.1, r1);
        lemma_run_ok_1(sx.0, sx.1, r1);
        deliver(sx.0, r1, true).0
    } else {
        law_read_axis_guarded(m, false, 0x07, 0, flag, xr.0, xr.1, g1, g2, r1);
        lemma_run_ok_3(sx.0, sx.1, g1, g2, r1);
        let s2 = deliver(sx.0, g1, true);
        let s3 = deliver(s2.0, g2, true);
        deliver(s3.0, r1, true).0
    };
    assert(mx.acc_en == AccStates::AccOn);
    let sy = launch(mx.with_job(read_axis_prog(acc_guard(true), acc_y_pair(0)), ReplyKind::Sample));
    law_read_axis(mx, yr.0, yr.1, r2);
    lemma_run_ok_1(sy.0, sy.1, r2);
    assert(sy.0.databuf =~= by);
    let my = deliver(sy.0, r2, true).0;
    let sz = launch(my.with_job(read_axis_prog(acc_guard(true), acc_z_pair(0)), ReplyKind::Sample));
    law_read_axis(my, zr.0, zr.1, r2);
    assert(sz.0.databuf =~= bz);
    if on {
        assert(read_acc_prog(on) =~= read_pair_prog(xr.0, xr.1, 0) + read_pair_prog(yr.0, yr.1, 2)
            + read_pair_prog(zr.0, zr.1, 4));
        law_read_three(m, read_acc_prog(on), xr, yr, zr, r1, r2, r2);
        let w1 = deliver(all.0, r1, true).0;
        let w2 = deliver(w1, r2, true).0;
        lemma_fail_alike(all.0, sx.0, m, bx, f);
        lemma_fail_alike(w1, sy.0, base, by, f);
        lemma_fail_alike(w2, sz.0, base, bz, f);
    } else {
        assert(read_acc_prog(on) =~= guarded_three_prog(false, 0x07, 0, flag, xr, yr, zr));
        law_read_three_guarded(m, false, 0x07, 0, flag, xr, yr, zr, g1, g2, r1, r2, r2);
        let sb = if false {
            0u8
        } else {
            m.databuf[1]
        };
        let w1 = deliver(all.0, g1, true).0;
        let w2 = deliver(w1, g2, true).0;
        let w3 = deliver(w2, r1, true).0;
        let w4 = deliver(w3, r2, true).0;
        let x2 = deliver(sx.0, g1, true).0;
        let x3 = deliver(x2, g2, true).0;
        lemma_fail_alike(
            all.0,
            sx.0,
            m,
            m.databuf.update(0, read0(RegistersBank0::PwrMgmt2)).update(1, sb),
            f,
        );
        lemma_fail_alike(
            w1,
            x2,
            m,
            m.databuf.update(0, write0(RegistersBank0::PwrMgmt2)).update(1, (g1[1] & 0x07) | 0),
            f,
        );
        lemma_fail_alike(w2, x3, base, bx, f);
        lemma_fail_alike(w3, sy.0, base, by, f);
        lemma_fail_alike(w4, sz.0, base, bz, f);
    }
}

/// `read_gyro` fails as `read_gyro_x`, `read_gyro_y` and `read_gyro_z` in a row
/// fail: when a transfer fails (the bytes that come back being `f`), after
/// the earlier ones went through with the bytes given (`g1` and `g2` for
/// switching the gyro on, if it is off), `read_gyro` ends at once with a bus
/// error and asks for no later axis, in the very state in which the single
/// read that makes the same transfer ends; the later single reads are not
/// started.
#[verifier::spinoff_prover]
#[verifier::rlimit(40)]
pub proof fn law_read_gyro_fails_as_single_reads(
    m: ImuModel,
    g1: Seq<u8>,
    g2: Seq<u8>,
    r1: Seq<u8>,
    r2: Seq<u8>,
    f: Seq<u8>,
)
    requires
        m.wf(),
        m.idle(),
        g1.len() == 2,
        g2.len() == 2,
        r1.len() == 3,
        r2.len() == 3,
    ensures
        ({
            let on = m.gyro_en == GyroStates::GyroOn;
            let failed = ActionModel::Done { result: Err(IcmError::BusError) };
            let all = launch(m.with_job(read_gyro_prog(on), ReplyKind::Samples));
            let sx = launch(m.with_job(read_axis_prog(gyro_guard(on), gyro_x_pair(0)), ReplyKind::Sample));
            let mx = run_ok(
                sx.0,
                sx.1,
                if on {
                    seq![r1]
                } else {
                    seq![g1, g2, r1]
                },
                0,
            ).0;
            let sy = launch(
                mx.with_job(read_axis_prog(gyro_guard(mx.gyro_en == GyroStates::GyroOn), gyro_y_pair(0)), ReplyKind::Sample),
            );
            let my = run_ok(sy.0, sy.1, seq![r2], 0).0;
            let sz = launch(
                my.with_job(read_axis_prog(gyro_guard(my.gyro_en == GyroStates::GyroOn), gyro_z_pair(0)), ReplyKind::Sample),
            );
            &&& deliver(all.0, f, false) == deliver(sx.0, f, false)
            &&& deliver(all.0, f, false).1 == failed
            &&& if on {
                let w1 = deliver(all.0, r1, true).0;
                let w2 = deliver(w1, r2, true).0;
                &&& deliver(w1, f, false) == deliver(sy.0, f, false)
                &&& deliver(w2, f, false) == deliver(sz.0, f, false)
                &&& deliver(w1, f, false).1 == failed
                &&& deliver(w2, f, false).1 == failed
            } else {
                let w1 = deliver(all.0, g1, true).0;
                let w2 = deliver(w1, g2, true).0;
                let w3 = deliver(w2, r1, true).0;
                let w4 = deliver(w3, r2, true).0;
                let x2 = deliver(sx.0, g1, true).0;
                let x3 = deliver(x2, g2, true).0;
                &&& deliver(w1, f, false) == deliver(x2, f, false)
                &&& deliver(w2, f, false) == deliver(x3, f, false)
                &&& deliver(w3, f, false) == deliver(sy.0, f, false)
                &&& deliver(w4, f, false) == deliver(sz.0, f, false)
                &&& deliver(w1, f, false).1 == failed
                &&& deliver(w2, f, false).1 == failed
                &&& deliver(w3, f, false).1 == failed
                &&& deliver(w4, f, false).1 == failed
            }
        }),
{
    law_read_programs();
    let xr = (RegistersBank0::GyroXOutH, RegistersBank0::GyroXOutL);
    let yr = (RegistersBank0::GyroYOutH, RegistersBank0::GyroYOutL);
    let zr = (RegistersBank0::GyroZOutH, RegistersBank0::GyroZOutL);
    let flag = Step::SetGyro { gyro: GyroStates::GyroOn };
    let on = m.gyro_en == GyroStates::GyroOn;
    let all = launch(m.with_job(read_gyro_prog(on), ReplyKind::Samples));
    let sx = launch(m.with_job(read_axis_prog(gyro_guard(on), gyro_x_pair(0)), ReplyKind::Sample));
    let base = if on {
        m
    } else {
        note(m, flag)
    };
    let bx = m.databuf.update(0, read0(xr.0)).update(1, read0(xr.1));
    let by = m.databuf.update(0, read0(yr.0)).update(1, read0(yr.1)).update(2, r1[2]);
    let bz = m.databuf.update(0, read0(zr.0)).update(1, read0(zr.1)).update(2, r2[2]);
    let mx = if on {
        law_read_axis(m, xr.0, xr.1, r1);
        lemma_run_ok_1(sx.0, sx.1, r1);
        deliver(sx.0, r1, true).0
    } else {
        law_read_axis_guarded(m, true, 0x38, 0, flag, xr.0, xr.1, g1, g2, r1);
        lemma_run_ok_3(sx.0, sx.1, g1, g2, r1);
        let s2 = deliver(sx.0, g1, true);
        let s3 = deliver(s2.0, g2, true);
        deliver(s3.0, r1, true).0
    };
    assert(mx.gyro_en == GyroStates::GyroOn);
    let sy = launch(mx.with_job(read_axis_prog(gyro_guard(true), gyro_y_pair(0)), ReplyKind::Sample));
    law_read_axis(mx, yr.0, yr.1, r2);
    lemma_run_ok_1(sy.0, sy.1, r2);
    assert(sy.0.databuf =~= by);
    let my = deliver(sy.0, r2, true).0;
    let sz = launch(my.with_job(read_axis_prog(gyro_guard(true), gyro_z_pair(0)), ReplyKind::Sample));
    law_read_axis(my, zr.0, zr.1, r2);
    assert(sz.0.databuf =~= bz);
    if on {
        assert(read_gyro_prog(on) =~= read_pair_prog(xr.0, xr.1, 0) + read_pair_prog(yr.0, yr.1, 2)
            + read_pair_prog(zr.0, zr.1, 4));
        law_read_three(m, read_gyro_prog(on), xr, yr, zr, r1, r2, r2);
        let w1 = deliver(all.0, r1, true).0;
        let w2 = deliver(w1, r2, true).0;
        lemma_fail_alike(all.0, sx.0, m, bx, f);
        lemma_fail_alike(w1, sy.0, base, by, f);
        lemma_fail_alike(w2, sz.0, base, bz, f);
    } else {
        assert(read_gyro_prog(on) =~= guarded_three_prog(true, 0x38, 0, flag, xr, yr, zr));
        law_read_three_guarded(m, true, 0x38, 0, flag, xr, yr, zr, g1, g2, r1, r2, r2);
        let sb = if true {
            0u8
        } else {
            m.databuf[1]
        };
        let w1 = deliver(all.0, g1, true).0;
        let w2 = deliver(w1, g2, true).0;
        let w3 = deliver(w2, r1, true).0;
        let w4 = deliver(w3, r2, true).0;
        let x2 = deliver(sx.0, g1, true).0;
        let x3 = deliver(x2, g2, true).0;
        lemma_fail_alike(
            all.0,
            sx.0,
            m,
            m.databuf.update(0, read0(RegistersBank0::PwrMgmt2)).update(1, sb),
            f,
        );
        lemma_fail_alike(
            w1,
            x2,
            m,
            m.databuf.update(0, write0(RegistersBank0::PwrMgmt2)).update(1, (g1[1] & 0x38) | 0),
            f,
        );
        lemma_fail_alike(w2, x3, base, bx, f);
        lemma_fail_alike(w3, sy.0, base, by, f);
        lemma_fail_alike(w4, sz.0, base, bz, f);
    }
}

/// A setting that the driver records and reports: the accelerometer and
/// the gyro being on, the data ready interrupt being on, and the two
/// full scale ranges.
pub enum Setting {
    Accelerometer,
    Gyro,
    Interrupt,
    AccelScale,
    GyroScale,
}

/// Step `st` records setting `s`.
pub open spec fn records(st: Step, s: Setting) -> bool {
    match s {
        Setting::Accelerometer => st is SetAcc,
        Setting::Gyro => st is SetGyro,
        Setting::Interrupt => st is SetInt,
        Setting::AccelScale => st is SetAccelSen,
        Setting::GyroScale => st is SetGyroSen,
    }
}

/// Setting `s` is the same in `a` and `b` (what `acc_on`, `gyro_on`,
/// `int_on`, `accel_sen` and `gyro_sen` report).
pub open spec fn agrees(a: ImuModel, b: ImuModel, s: Setting) -> bool {
    match s {
        Setting::Accelerometer => a.acc_en == b.acc_en,
        Setting::Gyro => a.gyro_en == b.gyro_en,
        Setting::Interrupt => a.int_enabled == b.int_enabled,
        Setting::AccelScale => a.accel_sen == b.accel_sen,
        Setting::GyroScale => a.gyro_sen == b.gyro_sen,
    }
}

/// No step of `p` records setting `s`.
pub open spec fn never_records(p: Seq<Step>, s: Setting) -> bool {
    forall|i: int| 0 <= i < p.len() ==> !records(#[trigger] p[i], s)
}

proof fn lemma_settle_keeps_setting(m: ImuModel, s: Setting)
    requires
        m.job is Some,
        never_records(m.job.unwrap().prog, s),
    ensures
        agrees(settle(m), m, s),
    decreases m.remaining(),
{
    let j = m.job.unwrap();
    if 0 <= j.pc < j.prog.len() && !(j.prog[j.pc] is Transfer) {
        assert(!records(j.prog[j.pc], s));
        lemma_settle_keeps_setting(run_step(m, j.prog[j.pc]), s);
    }
}

/// A program with no step that records setting `s` leaves it as it was,
/// step after step, whether its transfers succeed or fail.
pub proof fn law_setting_untouched(m: ImuModel, s: Setting, received: Seq<u8>, ok: bool)
    requires
        m.job is Some,
        never_records(m.job.unwrap().prog, s),
    ensures
        agrees(launch(m).0, m, s),
        agrees(deliver(m, received, ok).0, m, s),
{
    lemma_settle_keeps_setting(m, s);
    let j = m.job.unwrap();
    let start = m.current()->Transfer_start;
    let m2 = ImuModel {
        databuf: splice(m.databuf, start as int, received),
        job: Some(JobModel { pc: j.pc + 1, ..j }),
        ..m
    };
    lemma_settle_keeps_setting(m2, s);
}

/// Which operations can change which setting: only `set_acc_sen` and
/// `set_gyro_sen` record the full scale ranges; only `enable_int` and
/// `disable_int` record the interrupt; only `enable_acc`, `disable_acc` and
/// the accelerometer reads record the accelerometer; only `enable_gyro`,
/// `disable_gyro` and the gyro reads record the gyro. Every other program
/// leaves the setting as it was (`law_setting_untouched`). With `law_new`
/// (a new driver has the interrupt off, both sensors on and the smallest
/// ranges), `law_interrupt`, `law_pwr_mgmt_2` and `law_sensitivity` (a
/// successful operation records the new value, a failed one changes
/// nothing), `int_on` reports whether the last `enable_int` or
/// `disable_int` that went through was an enable, and likewise for the
/// sensors and the ranges.
pub proof fn law_operations_and_settings(
    s: Setting,
    value: u8,
    enabled: bool,
    on: bool,
    acc_sen: AccSensitivity,
    gyro_sen: GyroSensitivity,
    reg: RegistersBank2,
    code: u8,
    div16: u16,
    div8: u8,
)
    ensures
        never_records(new_prog(), s),
        never_records(wai_prog(), s),
        never_records(reset_prog(), s),
        !(s is AccelScale) ==> never_records(set_acc_sen_prog(acc_sen), s),
        !(s is GyroScale) ==> never_records(set_gyro_sen_prog(gyro_sen), s),
        never_records(lpf_prog(reg, code), s),
        never_records(lpf_off_prog(reg), s),
        never_records(acc_div_prog(div16), s),
        never_records(gyro_div_prog(div8), s),
        !(s is Interrupt) ==> never_records(int_prog(value, enabled), s),
        !(s is Accelerometer) ==> {
            &&& never_records(enable_acc_prog(), s)
            &&& never_records(disable_acc_prog(), s)
            &&& never_records(read_acc_prog(on), s)
            &&& never_records(read_axis_prog(acc_guard(on), acc_x_pair(0)), s)
            &&& never_records(read_axis_prog(acc_guard(on), acc_y_pair(0)), s)
            &&& never_records(read_axis_prog(acc_guard(on), acc_z_pair(0)), s)
        },
        !(s is Gyro) ==> {
            &&& never_records(enable_gyro_prog(), s)
            &&& never_records(disable_gyro_prog(), s)
            &&& never_records(read_gyro_prog(on), s)
            &&& never_records(read_axis_prog(gyro_guard(on), gyro_x_pair(0)), s)
            &&& never_records(read_axis_prog(gyro_guard(on), gyro_y_pair(0)), s)
            &&& never_records(read_axis_prog(gyro_guard(on), gyro_z_pair(0)), s)
        },
{
    shape_sensitivity(RegistersBank2::AccelConfig, fs_masks(acc_sen.spec_code()).0, fs_masks(acc_sen.spec_code()).1, Step::SetAccelSen { counts: acc_sen.spec_counts() });
    shape_sensitivity(RegistersBank2::GyroConfig1, fs_masks(gyro_sen.spec_code()).0, fs_masks(gyro_sen.spec_code()).1, Step::SetGyroSen { sen: gyro_sen });
    shape_lpf(reg, code);
    shape_lpf_off(reg);
    shape_acc_div(div16);
    shape_gyro_div(div8);
}

/// The byte that a full scale setting writes back holds the full scale code
/// in bits 2:1 and the bits read everywhere else.
pub proof fn law_full_scale_field(v: u8, code: u8)
    requires
        code < 4,
    ensures
        ((v & fs_masks(code).0) | fs_masks(code).1) & 0x06 == code << 1u8,
        ((v & fs_masks(code).0) | fs_masks(code).1) & 0xF9 == v & 0xF9,
{
    if code == 0 {
        assert((v & 0xF9) | 0 == v & 0xF9 && ((v & 0xF9) | 0) & 0x06 == 0 && ((v & 0xF9) | 0) & 0xF9 == v & 0xF9) by (bit_vector);
    } else if code == 1 {
        assert(((v & 0xFB) | 0x02) & 0x06 == 0x02 && ((v & 0xFB) | 0x02) & 0xF9 == v & 0xF9) by (bit_vector);
    } else if code == 2 {
        assert(((v & 0xFD) | 0x04) & 0x06 == 0x04 && ((v & 0xFD) | 0x04) & 0xF9 == v & 0xF9) by (bit_vector);
    } else {
        assert(((v & 0xFF) | 0x06) & 0x06 == 0x06 && ((v & 0xFF) | 0x06) & 0xF9 == v & 0xF9) by (bit_vector);
    }
    assert(0u8 << 1u8 == 0 && 1u8 << 1u8 == 2 && 2u8 << 1u8 == 4 && 3u8 << 1u8 == 6) by (bit_vector);
}

/// The byte that configuring a low pass filter writes back holds the
/// filter code in bits 5:3, has bit 0 (filter on) set, and holds the bits
/// read everywhere else.
pub proof fn law_low_pass_filter_field(v: u8, code: u8)
    requires
        code < 8,
    ensures
        lpf_value(v, code) & 0x38 == code << 3u8,
        lpf_value(v, code) & 0x01 == 0x01,
        lpf_value(v, code) & 0xC6 == v & 0xC6,
{
    assert(code < 8 ==> (((v & !0x38u8) | ((code << 3u8) & 0x38u8)) & 0xFF | 0x01) & 0x38 == code << 3u8) by (bit_vector);
    assert((((v & !0x38u8) | ((code << 3u8) & 0x38u8)) & 0xFF | 0x01) & 0x01 == 0x01) by (bit_vector);
    assert((((v & !0x38u8) | ((code << 3u8) & 0x38u8)) & 0xFF | 0x01) & 0xC6 == v & 0xC6) by (bit_vector);
}

/// Turning a low pass filter off clears bit 0 and keeps every other bit.
pub proof fn law_low_pass_filter_off_field(v: u8)
    ensures
        ((v & 0xFE) | 0) & 0x01 == 0,
        ((v & 0xFE) | 0) & 0xFE == v & 0xFE,
{
    assert(((v & 0xFE) | 0) & 0x01 == 0 && ((v & 0xFE) | 0) & 0xFE == v & 0xFE) by (bit_vector);
}

/// In `PWR_MGMT_2`, bits 5:3 switch the accelerometer's axes off and bits
/// 2:0 the gyro's. Enabling the accelerometer clears bits 5:3 (and 7:6) of
/// the byte it starts from and keeps bits 2:0; disabling it sets bits 5:3
/// and keeps the rest. Enabling the gyro clears bits 2:0 (and 7:6) and
/// keeps bits 5:3; disabling it sets bits 2:0 and keeps the rest.
pub proof fn law_power_fields(v: u8)
    ensures
        ((v & 0x07) | 0) & 0x38 == 0,
        ((v & 0x07) | 0) & 0x07 == v & 0x07,
        ((v & 0xFF) | 0x38) & 0x38 == 0x38,
        ((v & 0xFF) | 0x38) & 0xC7 == v & 0xC7,
        ((v & 0x38) | 0) & 0x07 == 0,
        ((v & 0x38) | 0) & 0x38 == v & 0x38,
        ((v & 0xFF) | 0x07) & 0x07 == 0x07,
        ((v & 0xFF) | 0x07) & 0xF8 == v & 0xF8,
{
    assert(((v & 0x07) | 0) & 0x38 == 0 && ((v & 0x07) | 0) & 0x07 == v & 0x07) by (bit_vector);
    assert(((v & 0xFF) | 0x38) & 0x38 == 0x38 && ((v & 0xFF) | 0x38) & 0xC7 == v & 0xC7) by (bit_vector);
    assert(((v & 0x38) | 0) & 0x07 == 0 && ((v & 0x38) | 0) & 0x38 == v & 0x38) by (bit_vector);
    assert(((v & 0xFF) | 0x07) & 0x07 == 0x07 && ((v & 0xFF) | 0x07) & 0xF8 == v & 0xF8) by (bit_vector);
}

/// The two bytes that a divider is written as make up the divider again,
/// high byte first.
pub proof fn law_divider_bytes(div: u16)
    ensures
        spec_high_byte(div) * 256 + spec_low_byte(div) == div,
{
}

/// For an accepted rate the accelerometer divider is `1125 / rate - 1` and
/// fits its 12 bit register; the gyro divider is `1125 / rate - 1` and fits
/// its 8 bit register with nothing cut off.
pub proof fn law_rate_dividers(rate: u16)
    ensures
        0 < rate < BASE_RATE ==> acc_rate_div(rate) == BASE_RATE / rate - 1 && acc_rate_div(rate)
            < 4096,
        4 < rate <= BASE_RATE ==> gyro_rate_div(rate) == BASE_RATE / rate - 1,
{
    if 0 < rate < BASE_RATE {
        assert(1 <= BASE_RATE / rate <= BASE_RATE) by (nonlinear_arith)
            requires
                0 < rate < BASE_RATE,
        ;
    }
    if 4 < rate <= BASE_RATE {
        assert(1 <= BASE_RATE / rate <= 225) by (nonlinear_arith)
            requires
                4 < rate <= BASE_RATE,
        ;
    }
}

/// A reading is a 16 bit two's complement value: it lies in the range of
/// `i16`, and it is congruent to the unsigned word `hi * 256 + lo`.
pub proof fn law_sample_range(hi: u8, lo: u8)
    ensures
        -32768 <= spec_sample(hi, lo) <= 32767,
        spec_sample(hi, lo) == hi * 256 + lo || spec_sample(hi, lo) == hi * 256 + lo - 65536,
        spec_sample(hi, lo) < 0 <==> hi >= 128,
{
}

} // verus!
