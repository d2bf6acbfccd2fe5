//! The programs of the driver's operations: which bytes go to which
//! register, in which order, and how chip select frames them.
use vstd::prelude::*;
use crate::registers::{
    RegistersBank0, RegistersBank2, AccStates, GyroStates, AccSensitivity, GyroSensitivity, AccLPF,
    GyroLPF, READ_REG, WRITE_REG, REG_BANK_0, REG_BANK_2, ACCEL_SEN_0, ACCEL_SEN_1, ACCEL_SEN_2,
    ACCEL_SEN_3,
};
use crate::program::{Step, prog_wf};
use crate::sample::{spec_high_byte, spec_low_byte, be_bytes};

verus! {

/// Output data rates are derived from this base rate, in Hz.
pub const BASE_RATE: u16 = 1125;

/// Mask of the low pass filter field (bits 5:3) in `ACCEL_CONFIG` and
/// `GYRO_CONFIG_1`.
pub const LPF_MASK: u8 = 0x38;

pub open spec fn put(at: usize, value: u8) -> Step {
    Step::Put { at, value }
}

pub open spec fn mask(at: usize, from: usize, keep: u8, set: u8) -> Step {
    Step::Mask { at, from, keep, set }
}

pub open spec fn xfer(start: usize, end: usize, select: bool, release: bool) -> Step {
    Step::Transfer { start, end, select, release }
}

pub open spec fn capture(at: usize, slot: usize) -> Step {
    Step::Capture { at, slot }
}

/// Address byte to read a bank 0 register.
pub open spec fn read0(reg: RegistersBank0) -> u8 {
    reg.spec_get_addr(READ_REG)
}

/// Address byte to write a bank 0 register.
pub open spec fn write0(reg: RegistersBank0) -> u8 {
    reg.spec_get_addr(WRITE_REG)
}

/// Address byte to read a bank 2 register.
pub open spec fn read2(reg: RegistersBank2) -> u8 {
    reg.spec_get_addr(READ_REG)
}

/// Address byte to write a bank 2 register.
pub open spec fn write2(reg: RegistersBank2) -> u8 {
    reg.spec_get_addr(WRITE_REG)
}

/// Writes `value` to the register whose write address byte is `addr`, in
/// one framed two byte transfer.
pub open spec fn write_reg_prog(addr: u8, value: u8) -> Seq<Step> {
    seq![put(0, addr), put(1, value), xfer(0, 2, true, true)]
}

/// Selects register bank `bank`.
pub open spec fn change_bank_prog(bank: u8) -> Seq<Step> {
    write_reg_prog(write0(RegistersBank0::RegBankSel), bank)
}

/// Wakes the chip up with its best clock: `PWR_MGMT_1 = 0x01`, then
/// clears the scratch bytes it used.
pub open spec fn new_prog() -> Seq<Step> {
    write_reg_prog(write0(RegistersBank0::PwrMgmt1), 0x01) + seq![put(0, 0), put(1, 0)]
}

/// Reads `WHO_AM_I` into slot 0.
pub open spec fn wai_prog() -> Seq<Step> {
    seq![
        put(0, read0(RegistersBank0::Wai)),
        put(1, 0),
        xfer(0, 2, true, true),
        capture(1, 0),
    ]
}

/// Writes `INT_ENABLE_1 = value` and records whether the data ready
/// interrupt is now on.
pub open spec fn int_prog(value: u8, enabled: bool) -> Seq<Step> {
    write_reg_prog(write0(RegistersBank0::IntEnable1), value) + seq![Step::SetInt { enabled }]
}

/// The mask applied to the second byte of the buffer before the read of
/// `PWR_MGMT_2`: `0x00` clears it, `0xFF` keeps what it holds.
pub open spec fn second_byte_mask(clear: bool) -> u8 {
    if clear {
        0x00
    } else {
        0xFF
    }
}

/// Reads `PWR_MGMT_2` in a framed transfer of its own (the second byte sent
/// is cleared first when `clear` holds, else it is what the buffer held),
/// computes the new value from the register's value (the second byte that
/// came back) with `keep` and `set`, writes it back in another framed
/// transfer, and records `flag`.
pub open spec fn pwr_mgmt_2_prog(clear: bool, keep: u8, set: u8, flag: Step) -> Seq<Step> {
    seq![
        put(0, read0(RegistersBank0::PwrMgmt2)),
        mask(1, 1, second_byte_mask(clear), 0),
        xfer(0, 2, true, true),
        mask(1, 1, keep, set),
        put(0, write0(RegistersBank0::PwrMgmt2)),
        xfer(0, 2, true, true),
        flag,
    ]
}

pub open spec fn enable_acc_prog() -> Seq<Step> {
    pwr_mgmt_2_prog(false, 0x07, 0, Step::SetAcc { acc: AccStates::AccOn })
}

pub open spec fn disable_acc_prog() -> Seq<Step> {
    pwr_mgmt_2_prog(false, 0xFF, 0x38, Step::SetAcc { acc: AccStates::AccOff })
}

pub open spec fn enable_gyro_prog() -> Seq<Step> {
    pwr_mgmt_2_prog(true, 0x38, 0, Step::SetGyro { gyro: GyroStates::GyroOn })
}

pub open spec fn disable_gyro_prog() -> Seq<Step> {
    pwr_mgmt_2_prog(false, 0xFF, 0x07, Step::SetGyro { gyro: GyroStates::GyroOff })
}

/// Reads the output register pair starting at `hi` in one three byte
/// transfer and sets the two bytes aside in slots `slot` and `slot + 1`.
pub open spec fn read_pair_prog(hi: RegistersBank0, lo: RegistersBank0, slot: usize) -> Seq<Step> {
    seq![
        put(0, read0(hi)),
        put(1, read0(lo)),
        xfer(0, 3, true, true),
        capture(1, slot),
        capture(2, (slot + 1) as usize),
    ]
}

/// Switches the accelerometer on first when `on` is false.
pub open spec fn acc_guard(on: bool) -> Seq<Step> {
    if on {
        seq![]
    } else {
        enable_acc_prog()
    }
}

/// Switches the gyro on first when `on` is false.
pub open spec fn gyro_guard(on: bool) -> Seq<Step> {
    if on {
        seq![]
    } else {
        enable_gyro_prog()
    }
}

pub open spec fn acc_x_pair(slot: usize) -> Seq<Step> {
    read_pair_prog(RegistersBank0::AccelXOutH, RegistersBank0::AccelXOutL, slot)
}

pub open spec fn acc_y_pair(slot: usize) -> Seq<Step> {
    read_pair_prog(RegistersBank0::AccelYOutH, RegistersBank0::AccelYOutL, slot)
}

pub open spec fn acc_z_pair(slot: usize) -> Seq<Step> {
    read_pair_prog(RegistersBank0::AccelZOutH, RegistersBank0::AccelZOutL, slot)
}

pub open spec fn gyro_x_pair(slot: usize) -> Seq<Step> {
    read_pair_prog(RegistersBank0::GyroXOutH, RegistersBank0::GyroXOutL, slot)
}

pub open spec fn gyro_y_pair(slot: usize) -> Seq<Step> {
    read_pair_prog(RegistersBank0::GyroYOutH, RegistersBank0::GyroYOutL, slot)
}

pub open spec fn gyro_z_pair(slot: usize) -> Seq<Step> {
    read_pair_prog(RegistersBank0::GyroZOutH, RegistersBank0::GyroZOutL, slot)
}

/// One reading: `guard` (switching the sensor on, if it is off), then the
/// read of the output register pair.
pub open spec fn read_axis_prog(guard: Seq<Step>, pair: Seq<Step>) -> Seq<Step> {
    guard + pair
}

/// All three accelerometer readings. Once the first reading has switched
/// the accelerometer on, the other two find it on.
pub open spec fn read_acc_prog(on: bool) -> Seq<Step> {
    acc_guard(on) + acc_x_pair(0) + acc_y_pair(2) + acc_z_pair(4)
}

/// All three gyro readings. Once the first reading has switched the gyro
/// on, the other two find it on.
pub open spec fn read_gyro_prog(on: bool) -> Seq<Step> {
    gyro_guard(on) + gyro_x_pair(0) + gyro_y_pair(2) + gyro_z_pair(4)
}

/// Reads `reg` in bank 2 through bytes 2 and 3 of the buffer, writes
/// `(value & keep) | set` back through bytes 0 and 1, returns to bank 0 and
/// records `flag`.
pub open spec fn sensitivity_prog(reg: RegistersBank2, keep: u8, set: u8, flag: Step) -> Seq<
    Step,
> {
    change_bank_prog(REG_BANK_2) + seq![
        put(2, read2(reg)),
        xfer(2, 4, true, true),
        mask(1, 3, keep, set),
        put(0, write2(reg)),
        xfer(0, 2, true, true),
    ] + change_bank_prog(REG_BANK_0) + seq![flag]
}

/// `(keep, set)` that put full scale code `code` in bits 2:1.
pub open spec fn fs_masks(code: u8) -> (u8, u8) {
    if code == 0 {
        (0xF9u8, 0u8)
    } else if code == 1 {
        (0xFBu8, 0x02u8)
    } else if code == 2 {
        (0xFDu8, 0x04u8)
    } else {
        (0xFFu8, 0x06u8)
    }
}

pub open spec fn set_acc_sen_prog(sen: AccSensitivity) -> Seq<Step> {
    sensitivity_prog(
        RegistersBank2::AccelConfig,
        fs_masks(sen.spec_code()).0,
        fs_masks(sen.spec_code()).1,
        Step::SetAccelSen { counts: sen.spec_counts() },
    )
}

pub open spec fn set_gyro_sen_prog(sen: GyroSensitivity) -> Seq<Step> {
    sensitivity_prog(
        RegistersBank2::GyroConfig1,
        fs_masks(sen.spec_code()).0,
        fs_masks(sen.spec_code()).1,
        Step::SetGyroSen { sen },
    )
}

/// The low pass filter field value for code `code`, in place.
pub open spec fn lpf_bits(code: u8) -> u8 {
    (code << 3u8) & LPF_MASK
}

/// Reads `reg` in bank 2, puts `code` in its bits 5:3, sets bit 0 (filter
/// on), writes it back and returns to bank 0.
pub open spec fn lpf_prog(reg: RegistersBank2, code: u8) -> Seq<Step> {
    change_bank_prog(REG_BANK_2) + seq![
        put(0, read2(reg)),
        xfer(0, 2, true, true),
        mask(1, 1, !LPF_MASK, lpf_bits(code)),
        mask(1, 1, 0xFF, 0x01),
        put(0, write2(reg)),
        xfer(0, 2, true, true),
    ] + change_bank_prog(REG_BANK_0)
}

/// Reads `reg` in bank 2, clears its bit 0 (filter off), writes it back and
/// returns to bank 0.
pub open spec fn lpf_off_prog(reg: RegistersBank2) -> Seq<Step> {
    change_bank_prog(REG_BANK_2) + seq![
        put(0, read2(reg)),
        xfer(0, 2, true, true),
        put(0, write2(reg)),
        mask(1, 1, 0xFE, 0),
        xfer(0, 2, true, true),
    ] + change_bank_prog(REG_BANK_0)
}

/// Turns on `ODR_ALIGN_EN`, writes the accelerometer sample rate divider
/// `div` big-endian to `ACCEL_SMPLRT_DIV_1` and `_2`, and returns to bank 0.
pub open spec fn acc_div_prog(div: u16) -> Seq<Step> {
    change_bank_prog(REG_BANK_2) + seq![
        put(0, write2(RegistersBank2::OdrAlignEn)),
        put(1, 0x01),
        xfer(0, 2, true, true),
        put(0, write2(RegistersBank2::AccelSmplrtDiv1)),
        put(1, spec_high_byte(div)),
        put(2, write2(RegistersBank2::AccelSmplrtDiv2)),
        put(3, spec_low_byte(div)),
        xfer(0, 2, true, true),
        xfer(2, 4, true, true),
    ] + change_bank_prog(REG_BANK_0)
}

/// Turns on `ODR_ALIGN_EN`, writes the gyro sample rate divider `div` to
/// `GYRO_SMPLRT_DIV`, and returns to bank 0.
pub open spec fn gyro_div_prog(div: u8) -> Seq<Step> {
    change_bank_prog(REG_BANK_2) + seq![
        put(0, write2(RegistersBank2::OdrAlignEn)),
        put(1, 0x01),
        xfer(0, 2, true, true),
        put(0, write2(RegistersBank2::GyroSmplrtDiv)),
        put(1, div),
        xfer(0, 2, true, true),
    ] + change_bank_prog(REG_BANK_0)
}

/// The accelerometer divider for output rate `rate`: `1125 / rate - 1`.
pub open spec fn acc_rate_div(rate: u16) -> u16 {
    (BASE_RATE / rate - 1) as u16
}

/// The gyro divider for output rate `rate`: `1125 / rate - 1`.
pub open spec fn gyro_rate_div(rate: u16) -> u8 {
    (BASE_RATE / rate - 1) as u8
}

/// Puts the chip in reset (`PWR_MGMT_1 = 0x80`), waits, and wakes it up
/// again (`PWR_MGMT_1 = 0x01`).
pub open spec fn reset_prog() -> Seq<Step> {
    write_reg_prog(write0(RegistersBank0::PwrMgmt1), 0x80) + seq![Step::Spin] + write_reg_prog(
        write0(RegistersBank0::PwrMgmt1),
        0x01,
    )
}

pub(crate) fn write_reg(addr: u8, value: u8) -> (p: Vec<Step>)
    ensures
        p@ == write_reg_prog(addr, value),
        prog_wf(p@),
{
    let p = vec![
        Step::Put { at: 0, value: addr },
        Step::Put { at: 1, value },
        Step::Transfer { start: 0, end: 2, select: true, release: true },
    ];
    assert(p@ =~= write_reg_prog(addr, value));
    p
}

pub(crate) fn change_bank(bank: u8) -> (p: Vec<Step>)
    ensures
        p@ == change_bank_prog(bank),
        prog_wf(p@),
{
    write_reg(RegistersBank0::RegBankSel.get_addr(WRITE_REG), bank)
}

/// `a` followed by `b`.
pub(crate) fn concat(a: Vec<Step>, b: Vec<Step>) -> (p: Vec<Step>)
    requires
        prog_wf(a@),
        prog_wf(b@),
    ensures
        p@ == a@ + b@,
        prog_wf(p@),
{
    let ghost a0 = a@;
    let ghost b0 = b@;
    let mut a = a;
    let mut b = b;
    a.append(&mut b);
    proof {
        let q = a@;
        assert forall|i: int| 0 <= i < q.len() implies (#[trigger] q[i]).wf() by {
            if i >= a0.len() {
                assert(q[i] == b0[i - a0.len()]);
            } else {
                assert(q[i] == a0[i]);
            }
        }
    }
    a
}

pub(crate) fn new_steps() -> (p: Vec<Step>)
    ensures
        p@ == new_prog(),
        prog_wf(p@),
{
    let tail = vec![Step::Put { at: 0, value: 0 }, Step::Put { at: 1, value: 0 }];
    assert(tail@ =~= seq![put(0, 0), put(1, 0)]);
    concat(write_reg(RegistersBank0::PwrMgmt1.get_addr(WRITE_REG), 0x01), tail)
}

pub(crate) fn wai_steps() -> (p: Vec<Step>)
    ensures
        p@ == wai_prog(),
        prog_wf(p@),
{
    let p = vec![
        Step::Put { at: 0, value: RegistersBank0::Wai.get_addr(READ_REG) },
        Step::Put { at: 1, value: 0 },
        Step::Transfer { start: 0, end: 2, select: true, release: true },
        Step::Capture { at: 1, slot: 0 },
    ];
    assert(p@ =~= wai_prog());
    p
}

pub(crate) fn int_steps(value: u8, enabled: bool) -> (p: Vec<Step>)
    ensures
        p@ == int_prog(value, enabled),
        prog_wf(p@),
{
    let tail = vec![Step::SetInt { enabled }];
    assert(tail@ =~= seq![Step::SetInt { enabled }]);
    concat(write_reg(RegistersBank0::IntEnable1.get_addr(WRITE_REG), value), tail)
}

pub(crate) fn pwr_mgmt_2_steps(clear: bool, keep: u8, set: u8, flag: Step) -> (p: Vec<Step>)
    requires
        flag.wf(),
    ensures
        p@ == pwr_mgmt_2_prog(clear, keep, set, flag),
        prog_wf(p@),
{
    let second: u8 = if clear {
        0x00
    } else {
        0xFF
    };
    let mut p: Vec<Step> = Vec::new();
    p.push(Step::Put { at: 0, value: RegistersBank0::PwrMgmt2.get_addr(READ_REG) });
    p.push(Step::Mask { at: 1, from: 1, keep: second, set: 0 });
    p.push(Step::Transfer { start: 0, end: 2, select: true, release: true });
    p.push(Step::Mask { at: 1, from: 1, keep, set });
    p.push(Step::Put { at: 0, value: RegistersBank0::PwrMgmt2.get_addr(WRITE_REG) });
    p.push(Step::Transfer { start: 0, end: 2, select: true, release: true });
    p.push(flag);
    assert(p@ =~= pwr_mgmt_2_prog(clear, keep, set, flag));
    p
}

pub(crate) fn enable_acc_steps() -> (p: Vec<Step>)
    ensures
        p@ == enable_acc_prog(),
        prog_wf(p@),
{
    pwr_mgmt_2_steps(false, 0x07, 0, Step::SetAcc { acc: AccStates::AccOn })
}

pub(crate) fn read_pair_steps(hi: RegistersBank0, lo: RegistersBank0, slot: usize) -> (p: Vec<Step>)
    requires
        slot + 1 < 6,
    ensures
        p@ == read_pair_prog(hi, lo, slot),
        prog_wf(p@),
{
    let p = vec![
        Step::Put { at: 0, value: hi.get_addr(READ_REG) },
        Step::Put { at: 1, value: lo.get_addr(READ_REG) },
        Step::Transfer { start: 0, end: 3, select: true, release: true },
        Step::Capture { at: 1, slot },
        Step::Capture { at: 2, slot: slot + 1 },
    ];
    assert(p@ =~= read_pair_prog(hi, lo, slot));
    p
}

pub(crate) fn acc_guard_steps(on: bool) -> (p: Vec<Step>)
    ensures
        p@ == acc_guard(on),
        prog_wf(p@),
{
    if on {
        let p: Vec<Step> = Vec::new();
        assert(p@ =~= acc_guard(on));
        p
    } else {
        enable_acc_steps()
    }
}

pub(crate) fn enable_gyro_steps() -> (p: Vec<Step>)
    ensures
        p@ == enable_gyro_prog(),
        prog_wf(p@),
{
    pwr_mgmt_2_steps(true, 0x38, 0, Step::SetGyro { gyro: GyroStates::GyroOn })
}

pub(crate) fn gyro_guard_steps(on: bool) -> (p: Vec<Step>)
    ensures
        p@ == gyro_guard(on),
        prog_wf(p@),
{
    if on {
        let p: Vec<Step> = Vec::new();
        assert(p@ =~= gyro_guard(on));
        p
    } else {
        enable_gyro_steps()
    }
}

pub(crate) fn sensitivity_steps(reg: RegistersBank2, keep: u8, set: u8, flag: Step) -> (p: Vec<Step>)
    requires
        flag.wf(),
    ensures
        p@ == sensitivity_prog(reg, keep, set, flag),
        prog_wf(p@),
{
    let mid = vec![
        Step::Put { at: 2, value: reg.get_addr(READ_REG) },
        Step::Transfer { start: 2, end: 4, select: true, release: true },
        Step::Mask { at: 1, from: 3, keep, set },
        Step::Put { at: 0, value: reg.get_addr(WRITE_REG) },
        Step::Transfer { start: 0, end: 2, select: true, release: true },
    ];
    assert(mid@ =~= seq![
        put(2, read2(reg)),
        xfer(2, 4, true, true),
        mask(1, 3, keep, set),
        put(0, write2(reg)),
        xfer(0, 2, true, true),
    ]);
    let tail = vec![flag];
    assert(tail@ =~= seq![flag]);
    concat(concat(concat(change_bank(REG_BANK_2), mid), change_bank(REG_BANK_0)), tail)
}

pub(crate) fn fs_mask_values(code: u8) -> (r: (u8, u8))
    ensures
        r == fs_masks(code),
{
    if code == 0 {
        (0xF9u8, 0u8)
    } else if code == 1 {
        (0xFBu8, 0x02u8)
    } else if code == 2 {
        (0xFDu8, 0x04u8)
    } else {
        (0xFFu8, 0x06u8)
    }
}

pub(crate) fn acc_sen_values(sen: AccSensitivity) -> (r: (u8, u16))
    ensures
        r.0 == sen.spec_code(),
        r.1 == sen.spec_counts(),
{
    match sen {
        AccSensitivity::Sen2g => (0, ACCEL_SEN_0),
        AccSensitivity::Sen4g => (1, ACCEL_SEN_1),
        AccSensitivity::Sen8g => (2, ACCEL_SEN_2),
        AccSensitivity::Sen16g => (3, ACCEL_SEN_3),
    }
}

pub(crate) fn gyro_sen_code(sen: GyroSensitivity) -> (r: u8)
    ensures
        r == sen.spec_code(),
{
    match sen {
        GyroSensitivity::Sen250dps => 0,
        GyroSensitivity::Sen500dps => 1,
        GyroSensitivity::Sen1000dps => 2,
        GyroSensitivity::Sen2000dps => 3,
    }
}

pub(crate) fn lpf_steps(reg: RegistersBank2, code: u8) -> (p: Vec<Step>)
    ensures
        p@ == lpf_prog(reg, code),
        prog_wf(p@),
{
    let mid = vec![
        Step::Put { at: 0, value: reg.get_addr(READ_REG) },
        Step::Transfer { start: 0, end: 2, select: true, release: true },
        Step::Mask { at: 1, from: 1, keep: !LPF_MASK, set: (code << 3u8) & LPF_MASK },
        Step::Mask { at: 1, from: 1, keep: 0xFF, set: 0x01 },
        Step::Put { at: 0, value: reg.get_addr(WRITE_REG) },
        Step::Transfer { start: 0, end: 2, select: true, release: true },
    ];
    assert(mid@ =~= seq![
        put(0, read2(reg)),
        xfer(0, 2, true, true),
        mask(1, 1, !LPF_MASK, lpf_bits(code)),
        mask(1, 1, 0xFF, 0x01),
        put(0, write2(reg)),
        xfer(0, 2, true, true),
    ]);
    concat(concat(change_bank(REG_BANK_2), mid), change_bank(REG_BANK_0))
}

pub(crate) fn lpf_off_steps(reg: RegistersBank2) -> (p: Vec<Step>)
    ensures
        p@ == lpf_off_prog(reg),
        prog_wf(p@),
{
    let mid = vec![
        Step::Put { at: 0, value: reg.get_addr(READ_REG) },
        Step::Transfer { start: 0, end: 2, select: true, release: true },
        Step::Put { at: 0, value: reg.get_addr(WRITE_REG) },
        Step::Mask { at: 1, from: 1, keep: 0xFE, set: 0 },
        Step::Transfer { start: 0, end: 2, select: true, release: true },
    ];
    assert(mid@ =~= seq![
        put(0, read2(reg)),
        xfer(0, 2, true, true),
        put(0, write2(reg)),
        mask(1, 1, 0xFE, 0),
        xfer(0, 2, true, true),
    ]);
    concat(concat(change_bank(REG_BANK_2), mid), change_bank(REG_BANK_0))
}

pub(crate) fn acc_div_steps(div: u16) -> (p: Vec<Step>)
    ensures
        p@ == acc_div_prog(div),
        prog_wf(p@),
{
    let (hi, lo) = be_bytes(div);
    let mid = vec![
        Step::Put { at: 0, value: RegistersBank2::OdrAlignEn.get_addr(WRITE_REG) },
        Step::Put { at: 1, value: 0x01 },
        Step::Transfer { start: 0, end: 2, select: true, release: true },
        Step::Put { at: 0, value: RegistersBank2::AccelSmplrtDiv1.get_addr(WRITE_REG) },
        Step::Put { at: 1, value: hi },
        Step::Put { at: 2, value: RegistersBank2::AccelSmplrtDiv2.get_addr(WRITE_REG) },
        Step::Put { at: 3, value: lo },
        Step::Transfer { start: 0, end: 2, select: true, release: true },
        Step::Transfer { start: 2, end: 4, select: true, release: true },
    ];
    assert(mid@ =~= seq![
        put(0, write2(RegistersBank2::OdrAlignEn)),
        put(1, 0x01),
        xfer(0, 2, true, true),
        put(0, write2(RegistersBank2::AccelSmplrtDiv1)),
        put(1, spec_high_byte(div)),
        put(2, write2(RegistersBank2::AccelSmplrtDiv2)),
        put(3, spec_low_byte(div)),
        xfer(0, 2, true, true),
        xfer(2, 4, true, true),
    ]);
    concat(concat(change_bank(REG_BANK_2), mid), change_bank(REG_BANK_0))
}

pub(crate) fn gyro_div_steps(div: u8) -> (p: Vec<Step>)
    ensures
        p@ == gyro_div_prog(div),
        prog_wf(p@),
{
    let mid = vec![
        Step::Put { at: 0, value: RegistersBank2::OdrAlignEn.get_addr(WRITE_REG) },
        Step::Put { at: 1, value: 0x01 },
        Step::Transfer { start: 0, end: 2, select: true, release: true },
        Step::Put { at: 0, value: RegistersBank2::GyroSmplrtDiv.get_addr(WRITE_REG) },
        Step::Put { at: 1, value: div },
        Step::Transfer { start: 0, end: 2, select: true, release: true },
    ];
    assert(mid@ =~= seq![
        put(0, write2(RegistersBank2::OdrAlignEn)),
        put(1, 0x01),
        xfer(0, 2, true, true),
        put(0, write2(RegistersBank2::GyroSmplrtDiv)),
        put(1, div),
        xfer(0, 2, true, true),
    ]);
    concat(concat(change_bank(REG_BANK_2), mid), change_bank(REG_BANK_0))
}

pub(crate) fn reset_steps() -> (p: Vec<Step>)
    ensures
        p@ == reset_prog(),
        prog_wf(p@),
{
    let spin = vec![Step::Spin];
    assert(spin@ =~= seq![Step::Spin]);
    concat(
        concat(write_reg(RegistersBank0::PwrMgmt1.get_addr(WRITE_REG), 0x80), spin),
        write_reg(RegistersBank0::PwrMgmt1.get_addr(WRITE_REG), 0x01),
    )
}

} // verus!
