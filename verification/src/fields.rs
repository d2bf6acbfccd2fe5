//! What the configuration operations put in the chip's registers, stated
//! field by field against the data sheet's codes: the full scale ranges,
//! the low pass filter bandwidths and the power switches. Each law speaks of
//! the program that the operation starts (see its contract in `api.rs`),
//! for every value that the register reads.
use vstd::prelude::*;
use crate::registers::{AccSensitivity, GyroSensitivity, AccLPF, GyroLPF, AccStates, GyroStates,
    RegistersBank0, RegistersBank2, READ_REG, WRITE_REG, REG_BANK_0, REG_BANK_2};
use crate::program::{Step, ReplyKind, ImuModel, ActionModel, Reply, launch, deliver};
use crate::ops::{
    set_acc_sen_prog, set_gyro_sen_prog, lpf_prog, enable_acc_prog, disable_acc_prog,
    enable_gyro_prog, disable_gyro_prog, fs_masks, acc_rate_div, gyro_rate_div, read_axis_prog,
    acc_guard, gyro_guard, acc_x_pair, acc_y_pair, acc_z_pair, gyro_x_pair, gyro_y_pair,
    gyro_z_pair,
};
use crate::sample::spec_sample;
use crate::api::{acc_rate_ok, gyro_rate_ok, acc_div_ok};
use crate::laws::{
    law_sensitivity, law_low_pass_filter, law_pwr_mgmt_2, law_full_scale_field,
    law_low_pass_filter_field, law_power_fields, same_settings, law_read_axis,
};

verus! {

/// `a` is a framed two byte write whose first byte is `addr`.
pub open spec fn writes_to(a: ActionModel, addr: u8) -> bool {
    &&& a matches ActionModel::Transfer { bytes, select, release }
    &&& bytes.len() == 2
    &&& bytes[0] == addr
    &&& select
    &&& release
}

/// The second byte of a transfer: the value written.
pub open spec fn written(a: ActionModel) -> u8 {
    match a {
        ActionModel::Transfer { bytes, .. } => bytes[1],
        _ => 0,
    }
}

/// The successive requests and states of an operation whose transfers all
/// go through with the replies `rs` (two bytes each).
pub open spec fn run_through(m: ImuModel, p: Seq<Step>, rs: Seq<Seq<u8>>, n: nat) -> (
    ImuModel,
    ActionModel,
)
    decreases n,
{
    if n == 0 {
        launch(m.with_job(p, ReplyKind::Unit))
    } else {
        let prev = run_through(m, p, rs, (n - 1) as nat);
        deliver(prev.0, rs[n - 1], true)
    }
}

/// `set_acc_sen(sen)`: the byte written to `ACCEL_CONFIG` (address 0x14,
/// third frame) holds in bits 2:1 the data sheet's `ACCEL_FS_SEL` code of
/// the range (+-2g 0, +-4g 1, +-8g 2, +-16g 3) and keeps every other bit of
/// the byte read; once it has gone through, the counts per g recorded are
/// 16384 halved once per step of that code.
pub proof fn law_acc_full_scale_codes(
    m: ImuModel,
    sen: AccSensitivity,
    r1: Seq<u8>,
    r2: Seq<u8>,
    r3: Seq<u8>,
    r4: Seq<u8>,
)
    requires
        m.wf(),
        m.idle(),
        r1.len() == 2,
        r2.len() == 2,
        r3.len() == 2,
        r4.len() == 2,
    ensures
        ({
            let rs = seq![r1, r2, r3, r4];
            let a3 = run_through(m, set_acc_sen_prog(sen), rs, 2).1;
            let (m5, a5) = run_through(m, set_acc_sen_prog(sen), rs, 4);
            &&& writes_to(a3, 0x14)
            &&& written(a3) & 0x06 == match sen {
                AccSensitivity::Sen2g => 0x00u8,
                AccSensitivity::Sen4g => 0x02u8,
                AccSensitivity::Sen8g => 0x04u8,
                AccSensitivity::Sen16g => 0x06u8,
            }
            &&& written(a3) & 0xF9 == r2[1] & 0xF9
            &&& a5 == ActionModel::Done { result: Ok(Reply::Unit) }
            &&& written(a3) & 0x06 == 0x00 ==> m5.accel_sen == 16384
            &&& written(a3) & 0x06 == 0x02 ==> m5.accel_sen == 8192
            &&& written(a3) & 0x06 == 0x04 ==> m5.accel_sen == 4096
            &&& written(a3) & 0x06 == 0x06 ==> m5.accel_sen == 2048
        }),
{
    let code = sen.spec_code();
    let rs = seq![r1, r2, r3, r4];
    let p = set_acc_sen_prog(sen);
    law_sensitivity(m, RegistersBank2::AccelConfig, fs_masks(code).0, fs_masks(code).1,
        Step::SetAccelSen { counts: sen.spec_counts() }, r1, r2, r3, r4);
    law_full_scale_field(r2[1], code);
    assert(0u8 << 1u8 == 0u8 && 1u8 << 1u8 == 2u8 && 2u8 << 1u8 == 4u8 && 3u8 << 1u8 == 6u8)
        by (bit_vector);
    assert(rs[0] == r1 && rs[1] == r2 && rs[2] == r3 && rs[3] == r4);
    reveal_with_fuel(run_through, 5);
}

/// `set_gyro_sen(sen)`: the byte written to `GYRO_CONFIG_1` (address
/// 0x01, third frame) holds in bits 2:1 the data sheet's `GYRO_FS_SEL` code
/// of the range (+-250dps 0, +-500dps 1, +-1000dps 2, +-2000dps 3) and
/// keeps every other bit of the byte read; once it has gone through, the
/// range recorded is `sen`, the one that code selects.
pub proof fn law_gyro_full_scale_codes(
    m: ImuModel,
    sen: GyroSensitivity,
    r1: Seq<u8>,
    r2: Seq<u8>,
    r3: Seq<u8>,
    r4: Seq<u8>,
)
    requires
        m.wf(),
        m.idle(),
        r1.len() == 2,
        r2.len() == 2,
        r3.len() == 2,
        r4.len() == 2,
    ensures
        ({
            let rs = seq![r1, r2, r3, r4];
            let a3 = run_through(m, set_gyro_sen_prog(sen), rs, 2).1;
            let (m5, a5) = run_through(m, set_gyro_sen_prog(sen), rs, 4);
            &&& writes_to(a3, 0x01)
            &&& written(a3) & 0x06 == match sen {
                GyroSensitivity::Sen250dps => 0x00u8,
                GyroSensitivity::Sen500dps => 0x02u8,
                GyroSensitivity::Sen1000dps => 0x04u8,
                GyroSensitivity::Sen2000dps => 0x06u8,
            }
            &&& written(a3) & 0xF9 == r2[1] & 0xF9
            &&& a5 == ActionModel::Done { result: Ok(Reply::Unit) }
            &&& m5.gyro_sen == sen
        }),
{
    let code = sen.spec_code();
    let rs = seq![r1, r2, r3, r4];
    law_sensitivity(m, RegistersBank2::GyroConfig1, fs_masks(code).0, fs_masks(code).1,
        Step::SetGyroSen { sen }, r1, r2, r3, r4);
    law_full_scale_field(r2[1], code);
    assert(0u8 << 1u8 == 0u8 && 1u8 << 1u8 == 2u8 && 2u8 << 1u8 == 4u8 && 3u8 << 1u8 == 6u8)
        by (bit_vector);
    assert(rs[0] == r1 && rs[1] == r2 && rs[2] == r3 && rs[3] == r4);
    reveal_with_fuel(run_through, 5);
}

/// `config_acc_lpf(bw)`: the byte written to `ACCEL_CONFIG` (address 0x14,
/// third frame) holds in bits 5:3 the data sheet's `ACCEL_DLPFCFG` code of
/// the bandwidth (5.7 Hz 6, 11.5 Hz 5, 23.9 Hz 4, 50.4 Hz 3, 111.4 Hz 2,
/// 246 Hz 0, 473 Hz 7), has bit 0 (`ACCEL_FCHOICE`, filter on) set, and
/// keeps every other bit of the byte read. No setting changes.
pub proof fn law_acc_low_pass_codes(
    m: ImuModel,
    bw: AccLPF,
    r1: Seq<u8>,
    r2: Seq<u8>,
    r3: Seq<u8>,
    r4: Seq<u8>,
)
    requires
        m.wf(),
        m.idle(),
        r1.len() == 2,
        r2.len() == 2,
        r3.len() == 2,
        r4.len() == 2,
    ensures
        ({
            let rs = seq![r1, r2, r3, r4];
            let p = lpf_prog(RegistersBank2::AccelConfig, bw.spec_code());
            let a3 = run_through(m, p, rs, 2).1;
            let (m5, a5) = run_through(m, p, rs, 4);
            &&& writes_to(a3, 0x14)
            &&& written(a3) & 0x38 == match bw {
                AccLPF::BW6 => 0x30u8,
                AccLPF::BW11 => 0x28u8,
                AccLPF::BW24 => 0x20u8,
                AccLPF::BW50 => 0x18u8,
                AccLPF::BW111 => 0x10u8,
                AccLPF::BW246 => 0x00u8,
                AccLPF::Bw473 => 0x38u8,
            }
            &&& written(a3) & 0x01 == 0x01
            &&& written(a3) & 0xC6 == r2[1] & 0xC6
            &&& a5 == ActionModel::Done { result: Ok(Reply::Unit) }
            &&& same_settings(m5, m)
        }),
{
    let code = bw.spec_code();
    let rs = seq![r1, r2, r3, r4];
    law_low_pass_filter(m, RegistersBank2::AccelConfig, code, r1, r2, r3, r4);
    law_low_pass_filter_field(r2[1], code);
    assert(0u8 << 3u8 == 0x00u8 && 2u8 << 3u8 == 0x10u8 && 3u8 << 3u8 == 0x18u8 && 4u8 << 3u8
        == 0x20u8 && 5u8 << 3u8 == 0x28u8 && 6u8 << 3u8 == 0x30u8 && 7u8 << 3u8 == 0x38u8)
        by (bit_vector);
    assert(rs[0] == r1 && rs[1] == r2 && rs[2] == r3 && rs[3] == r4);
    reveal_with_fuel(run_through, 5);
}

/// `config_gyro_lpf(bw)`: the byte written to `GYRO_CONFIG_1` (address
/// 0x01, third frame) holds in bits 5:3 the data sheet's `GYRO_DLPFCFG`
/// code of the bandwidth (5.7 Hz 6, 11.6 Hz 5, 23.9 Hz 4, 51.2 Hz 3,
/// 119.5 Hz 2, 151.8 Hz 1, 196.6 Hz 0, 361.4 Hz 7), has bit 0
/// (`GYRO_FCHOICE`, filter on) set, and keeps every other bit of the byte
/// read. No setting changes.
pub proof fn law_gyro_low_pass_codes(
    m: ImuModel,
    bw: GyroLPF,
    r1: Seq<u8>,
    r2: Seq<u8>,
    r3: Seq<u8>,
    r4: Seq<u8>,
)
    requires
        m.wf(),
        m.idle(),
        r1.len() == 2,
        r2.len() == 2,
        r3.len() == 2,
        r4.len() == 2,
    ensures
        ({
            let rs = seq![r1, r2, r3, r4];
            let p = lpf_prog(RegistersBank2::GyroConfig1, bw.spec_code());
            let a3 = run_through(m, p, rs, 2).1;
            let (m5, a5) = run_through(m, p, rs, 4);
            &&& writes_to(a3, 0x01)
            &&& written(a3) & 0x38 == match bw {
                GyroLPF::BW6 => 0x30u8,
                GyroLPF::BW12 => 0x28u8,
                GyroLPF::BW24 => 0x20u8,
                GyroLPF::BW51 => 0x18u8,
                GyroLPF::BW119 => 0x10u8,
                GyroLPF::BW152 => 0x08u8,
                GyroLPF::BW197 => 0x00u8,
                GyroLPF::BW361 => 0x38u8,
            }
            &&& written(a3) & 0x01 == 0x01
            &&& written(a3) & 0xC6 == r2[1] & 0xC6
            &&& a5 == ActionModel::Done { result: Ok(Reply::Unit) }
            &&& same_settings(m5, m)
        }),
{
    let code = bw.spec_code();
    let rs = seq![r1, r2, r3, r4];
    law_low_pass_filter(m, RegistersBank2::GyroConfig1, code, r1, r2, r3, r4);
    law_low_pass_filter_field(r2[1], code);
    assert(0u8 << 3u8 == 0x00u8 && 1u8 << 3u8 == 0x08u8 && 2u8 << 3u8 == 0x10u8 && 3u8 << 3u8
        == 0x18u8 && 4u8 << 3u8 == 0x20u8 && 5u8 << 3u8 == 0x28u8 && 6u8 << 3u8 == 0x30u8
        && 7u8 << 3u8 == 0x38u8) by (bit_vector);
    assert(rs[0] == r1 && rs[1] == r2 && rs[2] == r3 && rs[3] == r4);
    reveal_with_fuel(run_through, 5);
}

/// The power switches write `PWR_MGMT_2` (address 0x07, second frame) from
/// the byte read in the first frame (`r1[1]`), with the accelerometer's
/// disable bits (5:3) and the gyro's (2:0) as the data sheet places them:
/// `disable_acc` sets bits 5:3 and keeps every other bit; `enable_acc`
/// clears bits 5:3, keeps bits 2:0 and clears bits 7:6; `disable_gyro` sets
/// bits 2:0 and keeps every other bit; `enable_gyro` clears bits 2:0, keeps
/// bits 5:3 and clears bits 7:6. Once both transfers have gone through, the
/// sensor switched is recorded as such and the other sensor's state stays.
pub proof fn law_power_switch_bits(m: ImuModel, r1: Seq<u8>, r2: Seq<u8>)
    requires
        m.wf(),
        m.idle(),
        r1.len() == 2,
        r2.len() == 2,
    ensures
        ({
            let rs = seq![r1, r2];
            let v = r1[1];
            let da = run_through(m, disable_acc_prog(), rs, 1).1;
            let ea = run_through(m, enable_acc_prog(), rs, 1).1;
            let dg = run_through(m, disable_gyro_prog(), rs, 1).1;
            let eg = run_through(m, enable_gyro_prog(), rs, 1).1;
            let da2 = run_through(m, disable_acc_prog(), rs, 2).0;
            let ea2 = run_through(m, enable_acc_prog(), rs, 2).0;
            let dg2 = run_through(m, disable_gyro_prog(), rs, 2).0;
            let eg2 = run_through(m, enable_gyro_prog(), rs, 2).0;
            &&& writes_to(da, 0x07) && writes_to(ea, 0x07)
            &&& writes_to(dg, 0x07) && writes_to(eg, 0x07)
            &&& written(da) & 0x38 == 0x38 && written(da) & 0xC7 == v & 0xC7
            &&& written(ea) & 0x38 == 0x00 && written(ea) & 0x07 == v & 0x07
                && written(ea) & 0xC0 == 0x00
            &&& written(dg) & 0x07 == 0x07 && written(dg) & 0xF8 == v & 0xF8
            &&& written(eg) & 0x07 == 0x00 && written(eg) & 0x38 == v & 0x38
                && written(eg) & 0xC0 == 0x00
            &&& da2.acc_en == AccStates::AccOff && da2.gyro_en == m.gyro_en
            &&& ea2.acc_en == AccStates::AccOn && ea2.gyro_en == m.gyro_en
            &&& dg2.gyro_en == GyroStates::GyroOff && dg2.acc_en == m.acc_en
            &&& eg2.gyro_en == GyroStates::GyroOn && eg2.acc_en == m.acc_en
        }),
{
    let rs = seq![r1, r2];
    let v = r1[1];
    law_pwr_mgmt_2(m, false, 0xFF, 0x38, Step::SetAcc { acc: AccStates::AccOff }, r1, r2);
    law_pwr_mgmt_2(m, false, 0x07, 0, Step::SetAcc { acc: AccStates::AccOn }, r1, r2);
    law_pwr_mgmt_2(m, false, 0xFF, 0x07, Step::SetGyro { gyro: GyroStates::GyroOff }, r1, r2);
    law_pwr_mgmt_2(m, true, 0x38, 0, Step::SetGyro { gyro: GyroStates::GyroOn }, r1, r2);
    law_power_fields(v);
    assert(((v & 0x07) | 0) & 0xC0 == 0 && ((v & 0x38) | 0) & 0xC0 == 0) by (bit_vector);
    assert(rs[0] == r1 && rs[1] == r2);
    reveal_with_fuel(run_through, 3);
}

/// The address bytes of the registers, as the data sheet places them: a
/// write sends the register's address with bit 7 clear, a read the same
/// address with bit 7 set; bank selection writes `REG_BANK_SEL` (0x7F) with
/// the bank number in bits 5:4.
pub proof fn law_register_addresses()
    ensures
        forall|r: RegistersBank0|
            #[trigger] r.spec_get_addr(WRITE_REG) == match r {
                RegistersBank0::Wai => 0x00u8,
                RegistersBank0::PwrMgmt1 => 0x06u8,
                RegistersBank0::PwrMgmt2 => 0x07u8,
                RegistersBank0::IntEnable1 => 0x11u8,
                RegistersBank0::AccelXOutH => 0x2Du8,
                RegistersBank0::AccelXOutL => 0x2Eu8,
                RegistersBank0::AccelYOutH => 0x2Fu8,
                RegistersBank0::AccelYOutL => 0x30u8,
                RegistersBank0::AccelZOutH => 0x31u8,
                RegistersBank0::AccelZOutL => 0x32u8,
                RegistersBank0::GyroXOutH => 0x33u8,
                RegistersBank0::GyroXOutL => 0x34u8,
                RegistersBank0::GyroYOutH => 0x35u8,
                RegistersBank0::GyroYOutL => 0x36u8,
                RegistersBank0::GyroZOutH => 0x37u8,
                RegistersBank0::GyroZOutL => 0x38u8,
                RegistersBank0::RegBankSel => 0x7Fu8,
            },
        forall|r: RegistersBank0|
            #[trigger] r.spec_get_addr(READ_REG) == r.spec_get_addr(WRITE_REG) + 0x80,
        forall|r: RegistersBank2|
            #[trigger] r.spec_get_addr(WRITE_REG) == match r {
                RegistersBank2::GyroSmplrtDiv => 0x00u8,
                RegistersBank2::GyroConfig1 => 0x01u8,
                RegistersBank2::OdrAlignEn => 0x09u8,
                RegistersBank2::AccelSmplrtDiv1 => 0x10u8,
                RegistersBank2::AccelSmplrtDiv2 => 0x11u8,
                RegistersBank2::AccelConfig => 0x14u8,
            },
        forall|r: RegistersBank2|
            #[trigger] r.spec_get_addr(READ_REG) == r.spec_get_addr(WRITE_REG) + 0x80,
        REG_BANK_0 == 0x00,
        REG_BANK_2 == 0x20,
{
    assert(forall|a: u8| a < 0x80 ==> #[trigger] (a | 0x80u8) == a + 0x80) by (bit_vector);
}

/// The output data rates. An accelerometer rate is accepted exactly when it
/// is below 1125 Hz, a gyro rate exactly when it is above 4 Hz and at most
/// 1100 Hz, an accelerometer divider exactly when it is below 4096. For an
/// accepted rate the divider `d` written is the one whose output rate
/// `1125 / (d + 1)` is the lowest that is no lower than asked:
/// `(d + 1) * rate <= 1125 < (d + 2) * rate`.
pub proof fn law_output_rates(rate: u16, div: u16)
    requires
        rate > 0,
    ensures
        acc_rate_ok(rate) <==> rate < 1125,
        gyro_rate_ok(rate) <==> 4 < rate <= 1100,
        acc_div_ok(div) <==> div < 4096,
        acc_rate_ok(rate) ==> (acc_rate_div(rate) + 1) * rate <= 1125 < (acc_rate_div(rate) + 2)
            * rate,
        gyro_rate_ok(rate) ==> (gyro_rate_div(rate) + 1) * rate <= 1125 < (gyro_rate_div(rate)
            + 2) * rate,
{
    let q: int = 1125int / (rate as int);
    assert(q * rate <= 1125 < (q + 1) * rate) by (nonlinear_arith)
        requires
            rate > 0,
            q == 1125int / (rate as int),
    ;
    if rate < 1125 {
        assert(1 <= q <= 1125) by (nonlinear_arith)
            requires
                0 < rate < 1125,
                q == 1125int / (rate as int),
        ;
        assert(acc_rate_div(rate) == q - 1);
    }
    if 4 < rate <= 1100 {
        assert(1 <= q <= 225) by (nonlinear_arith)
            requires
                4 < rate <= 1100,
                q == 1125int / (rate as int),
        ;
        assert(gyro_rate_div(rate) == q - 1);
    }
}

/// `a` is a framed three byte read of the register pair whose read
/// address bytes are `hi` and `lo`.
pub open spec fn reads_pair(a: ActionModel, hi: u8, lo: u8) -> bool {
    &&& a matches ActionModel::Transfer { bytes, select, release }
    &&& bytes.len() == 3
    &&& bytes[0] == hi
    &&& bytes[1] == lo
    &&& select
    &&& release
}

/// The reply and end of a one axis read whose transfer brought back `r`:
/// the big-endian two's complement word in `r[1]` (high) and `r[2]` (low).
pub open spec fn replies_sample(a: ActionModel, r: Seq<u8>) -> bool {
    a == ActionModel::Done { result: Ok(Reply::Sample(spec_sample(r[1], r[2]) as i16)) }
}

/// With the sensor on, each one axis read is a single framed read of that
/// axis's output register pair, as the data sheet places them
/// (`ACCEL_XOUT_H` 0x2D up to `GYRO_ZOUT_L` 0x38, high byte first, read bit
/// set), and replies with the word that came back.
pub proof fn law_axis_registers(m: ImuModel, r: Seq<u8>)
    requires
        m.wf(),
        m.idle(),
        r.len() == 3,
    ensures
        ({
            let ax = launch(m.with_job(read_axis_prog(acc_guard(true), acc_x_pair(0)), ReplyKind::Sample));
            let ay = launch(m.with_job(read_axis_prog(acc_guard(true), acc_y_pair(0)), ReplyKind::Sample));
            let az = launch(m.with_job(read_axis_prog(acc_guard(true), acc_z_pair(0)), ReplyKind::Sample));
            let gx = launch(m.with_job(read_axis_prog(gyro_guard(true), gyro_x_pair(0)), ReplyKind::Sample));
            let gy = launch(m.with_job(read_axis_prog(gyro_guard(true), gyro_y_pair(0)), ReplyKind::Sample));
            let gz = launch(m.with_job(read_axis_prog(gyro_guard(true), gyro_z_pair(0)), ReplyKind::Sample));
            &&& reads_pair(ax.1, 0xAD, 0xAE) && replies_sample(deliver(ax.0, r, true).1, r)
            &&& reads_pair(ay.1, 0xAF, 0xB0) && replies_sample(deliver(ay.0, r, true).1, r)
            &&& reads_pair(az.1, 0xB1, 0xB2) && replies_sample(deliver(az.0, r, true).1, r)
            &&& reads_pair(gx.1, 0xB3, 0xB4) && replies_sample(deliver(gx.0, r, true).1, r)
            &&& reads_pair(gy.1, 0xB5, 0xB6) && replies_sample(deliver(gy.0, r, true).1, r)
            &&& reads_pair(gz.1, 0xB7, 0xB8) && replies_sample(deliver(gz.0, r, true).1, r)
        }),
{
    law_register_addresses();
    law_read_axis(m, RegistersBank0::AccelXOutH, RegistersBank0::AccelXOutL, r);
    law_read_axis(m, RegistersBank0::AccelYOutH, RegistersBank0::AccelYOutL, r);
    law_read_axis(m, RegistersBank0::AccelZOutH, RegistersBank0::AccelZOutL, r);
    law_read_axis(m, RegistersBank0::GyroXOutH, RegistersBank0::GyroXOutL, r);
    law_read_axis(m, RegistersBank0::GyroYOutH, RegistersBank0::GyroYOutL, r);
    law_read_axis(m, RegistersBank0::GyroZOutH, RegistersBank0::GyroZOutL, r);
    assert(RegistersBank0::AccelXOutH.spec_get_addr(READ_REG) == 0xAD);
    assert(RegistersBank0::AccelXOutL.spec_get_addr(READ_REG) == 0xAE);
    assert(RegistersBank0::AccelYOutH.spec_get_addr(READ_REG) == 0xAF);
    assert(RegistersBank0::AccelYOutL.spec_get_addr(READ_REG) == 0xB0);
    assert(RegistersBank0::AccelZOutH.spec_get_addr(READ_REG) == 0xB1);
    assert(RegistersBank0::AccelZOutL.spec_get_addr(READ_REG) == 0xB2);
    assert(RegistersBank0::GyroXOutH.spec_get_addr(READ_REG) == 0xB3);
    assert(RegistersBank0::GyroXOutL.spec_get_addr(READ_REG) == 0xB4);
    assert(RegistersBank0::GyroYOutH.spec_get_addr(READ_REG) == 0xB5);
    assert(RegistersBank0::GyroYOutL.spec_get_addr(READ_REG) == 0xB6);
    assert(RegistersBank0::GyroZOutH.spec_get_addr(READ_REG) == 0xB7);
    assert(RegistersBank0::GyroZOutL.spec_get_addr(READ_REG) == 0xB8);
}

} // verus!
