//! The programs of the operations written out step by step. The laws
//! run the programs one step at a time and look each step up here.
use vstd::prelude::*;
use crate::registers::{RegistersBank0, RegistersBank2, REG_BANK_0, REG_BANK_2};
use crate::sample::{spec_high_byte, spec_low_byte};
use crate::program::Step;
use crate::ops::{
    put, mask, xfer, capture, read0, write0, read2, write2, pwr_mgmt_2_prog, read_pair_prog,
    read_axis_prog, sensitivity_prog, lpf_prog, lpf_off_prog, acc_div_prog, gyro_div_prog, lpf_bits,
    LPF_MASK, second_byte_mask,
};

verus! {

/// The steps of `sensitivity_prog`, one by one.
pub proof fn shape_sensitivity(reg: RegistersBank2, keep: u8, set: u8, flag: Step)
    ensures
        sensitivity_prog(reg, keep, set, flag) =~= seq![
            put(0, write0(RegistersBank0::RegBankSel)),
            put(1, REG_BANK_2),
            xfer(0, 2, true, true),
            put(2, read2(reg)),
            xfer(2, 4, true, true),
            mask(1, 3, keep, set),
            put(0, write2(reg)),
            xfer(0, 2, true, true),
            put(0, write0(RegistersBank0::RegBankSel)),
            put(1, REG_BANK_0),
            xfer(0, 2, true, true),
            flag,
        ],
        sensitivity_prog(reg, keep, set, flag).len() == 12,
{
    assert(sensitivity_prog(reg, keep, set, flag) =~= seq![
        put(0, write0(RegistersBank0::RegBankSel)),
        put(1, REG_BANK_2),
        xfer(0, 2, true, true),
        put(2, read2(reg)),
        xfer(2, 4, true, true),
        mask(1, 3, keep, set),
        put(0, write2(reg)),
        xfer(0, 2, true, true),
        put(0, write0(RegistersBank0::RegBankSel)),
        put(1, REG_BANK_0),
        xfer(0, 2, true, true),
        flag,
    ]);
}

/// The steps of `lpf_prog`, one by one.
pub proof fn shape_lpf(reg: RegistersBank2, code: u8)
    ensures
        lpf_prog(reg, code) =~= seq![
            put(0, write0(RegistersBank0::RegBankSel)),
            put(1, REG_BANK_2),
            xfer(0, 2, true, true),
            put(0, read2(reg)),
            xfer(0, 2, true, true),
            mask(1, 1, !LPF_MASK, lpf_bits(code)),
            mask(1, 1, 0xFF, 0x01),
            put(0, write2(reg)),
            xfer(0, 2, true, true),
            put(0, write0(RegistersBank0::RegBankSel)),
            put(1, REG_BANK_0),
            xfer(0, 2, true, true),
        ],
        lpf_prog(reg, code).len() == 12,
{
    assert(lpf_prog(reg, code) =~= seq![
        put(0, write0(RegistersBank0::RegBankSel)),
        put(1, REG_BANK_2),
        xfer(0, 2, true, true),
        put(0, read2(reg)),
        xfer(0, 2, true, true),
        mask(1, 1, !LPF_MASK, lpf_bits(code)),
        mask(1, 1, 0xFF, 0x01),
        put(0, write2(reg)),
        xfer(0, 2, true, true),
        put(0, write0(RegistersBank0::RegBankSel)),
        put(1, REG_BANK_0),
        xfer(0, 2, true, true),
    ]);
}

/// The steps of `lpf_off_prog`, one by one.
pub proof fn shape_lpf_off(reg: RegistersBank2)
    ensures
        lpf_off_prog(reg) =~= seq![
            put(0, write0(RegistersBank0::RegBankSel)),
            put(1, REG_BANK_2),
            xfer(0, 2, true, true),
            put(0, read2(reg)),
            xfer(0, 2, true, true),
            put(0, write2(reg)),
            mask(1, 1, 0xFE, 0),
            xfer(0, 2, true, true),
            put(0, write0(RegistersBank0::RegBankSel)),
            put(1, REG_BANK_0),
            xfer(0, 2, true, true),
        ],
        lpf_off_prog(reg).len() == 11,
{
    assert(lpf_off_prog(reg) =~= seq![
        put(0, write0(RegistersBank0::RegBankSel)),
        put(1, REG_BANK_2),
        xfer(0, 2, true, true),
        put(0, read2(reg)),
        xfer(0, 2, true, true),
        put(0, write2(reg)),
        mask(1, 1, 0xFE, 0),
        xfer(0, 2, true, true),
        put(0, write0(RegistersBank0::RegBankSel)),
        put(1, REG_BANK_0),
        xfer(0, 2, true, true),
    ]);
}

/// The steps of `acc_div_prog`, one by one.
pub proof fn shape_acc_div(div: u16)
    ensures
        acc_div_prog(div) =~= seq![
            put(0, write0(RegistersBank0::RegBankSel)),
            put(1, REG_BANK_2),
            xfer(0, 2, true, true),
            put(0, write2(RegistersBank2::OdrAlignEn)),
            put(1, 0x01),
            xfer(0, 2, true, true),
            put(0, write2(RegistersBank2::AccelSmplrtDiv1)),
            put(1, spec_high_byte(div)),
            put(2, write2(RegistersBank2::AccelSmplrtDiv2)),
            put(3, spec_low_byte(div)),
            xfer(0, 2, true, true),
            xfer(2, 4, true, true),
            put(0, write0(RegistersBank0::RegBankSel)),
            put(1, REG_BANK_0),
            xfer(0, 2, true, true),
        ],
        acc_div_prog(div).len() == 15,
{
    assert(acc_div_prog(div) =~= seq![
        put(0, write0(RegistersBank0::RegBankSel)),
        put(1, REG_BANK_2),
        xfer(0, 2, true, true),
        put(0, write2(RegistersBank2::OdrAlignEn)),
        put(1, 0x01),
        xfer(0, 2, true, true),
        put(0, write2(RegistersBank2::AccelSmplrtDiv1)),
        put(1, spec_high_byte(div)),
        put(2, write2(RegistersBank2::AccelSmplrtDiv2)),
        put(3, spec_low_byte(div)),
        xfer(0, 2, true, true),
        xfer(2, 4, true, true),
        put(0, write0(RegistersBank0::RegBankSel)),
        put(1, REG_BANK_0),
        xfer(0, 2, true, true),
    ]);
}

/// The steps of `gyro_div_prog`, one by one.
pub proof fn shape_gyro_div(div: u8)
    ensures
        gyro_div_prog(div) =~= seq![
            put(0, write0(RegistersBank0::RegBankSel)),
            put(1, REG_BANK_2),
            xfer(0, 2, true, true),
            put(0, write2(RegistersBank2::OdrAlignEn)),
            put(1, 0x01),
            xfer(0, 2, true, true),
            put(0, write2(RegistersBank2::GyroSmplrtDiv)),
            put(1, div),
            xfer(0, 2, true, true),
            put(0, write0(RegistersBank0::RegBankSel)),
            put(1, REG_BANK_0),
            xfer(0, 2, true, true),
        ],
        gyro_div_prog(div).len() == 12,
{
    assert(gyro_div_prog(div) =~= seq![
        put(0, write0(RegistersBank0::RegBankSel)),
        put(1, REG_BANK_2),
        xfer(0, 2, true, true),
        put(0, write2(RegistersBank2::OdrAlignEn)),
        put(1, 0x01),
        xfer(0, 2, true, true),
        put(0, write2(RegistersBank2::GyroSmplrtDiv)),
        put(1, div),
        xfer(0, 2, true, true),
        put(0, write0(RegistersBank0::RegBankSel)),
        put(1, REG_BANK_0),
        xfer(0, 2, true, true),
    ]);
}

/// The steps of three consecutive axis reads, one by one.
pub proof fn shape_read_three(x: (RegistersBank0, RegistersBank0), y: (RegistersBank0, RegistersBank0), z: (RegistersBank0, RegistersBank0))
    ensures
        (read_pair_prog(x.0, x.1, 0) + read_pair_prog(y.0, y.1, 2) + read_pair_prog(z.0, z.1, 4)) =~= seq![
            put(0, read0(x.0)),
            put(1, read0(x.1)),
            xfer(0, 3, true, true),
            capture(1, 0),
            capture(2, 1),
            put(0, read0(y.0)),
            put(1, read0(y.1)),
            xfer(0, 3, true, true),
            capture(1, 2),
            capture(2, 3),
            put(0, read0(z.0)),
            put(1, read0(z.1)),
            xfer(0, 3, true, true),
            capture(1, 4),
            capture(2, 5),
        ],
        (read_pair_prog(x.0, x.1, 0) + read_pair_prog(y.0, y.1, 2) + read_pair_prog(z.0, z.1, 4)).len() == 15,
{
    assert((read_pair_prog(x.0, x.1, 0) + read_pair_prog(y.0, y.1, 2) + read_pair_prog(z.0, z.1, 4)) =~= seq![
        put(0, read0(x.0)),
        put(1, read0(x.1)),
        xfer(0, 3, true, true),
        capture(1, 0),
        capture(2, 1),
        put(0, read0(y.0)),
        put(1, read0(y.1)),
        xfer(0, 3, true, true),
        capture(1, 2),
        capture(2, 3),
        put(0, read0(z.0)),
        put(1, read0(z.1)),
        xfer(0, 3, true, true),
        capture(1, 4),
        capture(2, 5),
    ]);
}

/// The steps of one axis read with the sensor on, one by one.
pub proof fn shape_read_axis(hi: RegistersBank0, lo: RegistersBank0)
    ensures
        read_axis_prog(Seq::<Step>::empty(), read_pair_prog(hi, lo, 0)) =~= seq![
            put(0, read0(hi)),
            put(1, read0(lo)),
            xfer(0, 3, true, true),
            capture(1, 0),
            capture(2, 1),
        ],
        read_axis_prog(Seq::<Step>::empty(), read_pair_prog(hi, lo, 0)).len() == 5,
{
    assert(read_axis_prog(Seq::<Step>::empty(), read_pair_prog(hi, lo, 0)) =~= seq![
        put(0, read0(hi)),
        put(1, read0(lo)),
        xfer(0, 3, true, true),
        capture(1, 0),
        capture(2, 1),
    ]);
}

/// The steps of `pwr_mgmt_2_prog`, one by one.
pub proof fn shape_pwr_mgmt_2(clear: bool, keep: u8, set: u8, flag: Step)
    ensures
        pwr_mgmt_2_prog(clear, keep, set, flag) =~= seq![
            put(0, read0(RegistersBank0::PwrMgmt2)),
            mask(1, 1, second_byte_mask(clear), 0),
            xfer(0, 2, true, true),
            mask(1, 1, keep, set),
            put(0, write0(RegistersBank0::PwrMgmt2)),
            xfer(0, 2, true, true),
            flag,
        ],
        pwr_mgmt_2_prog(clear, keep, set, flag).len() == 7,
{
    assert(pwr_mgmt_2_prog(clear, keep, set, flag) =~= seq![
        put(0, read0(RegistersBank0::PwrMgmt2)),
        mask(1, 1, second_byte_mask(clear), 0),
        xfer(0, 2, true, true),
        mask(1, 1, keep, set),
        put(0, write0(RegistersBank0::PwrMgmt2)),
        xfer(0, 2, true, true),
        flag,
    ]);
}

/// The steps of a switch-on followed by one axis read, one by one.
pub proof fn shape_guarded_read(clear: bool, keep: u8, set: u8, flag: Step, hi: RegistersBank0, lo: RegistersBank0)
    ensures
        read_axis_prog(pwr_mgmt_2_prog(clear, keep, set, flag), read_pair_prog(hi, lo, 0)) =~= seq![
            put(0, read0(RegistersBank0::PwrMgmt2)),
            mask(1, 1, second_byte_mask(clear), 0),
            xfer(0, 2, true, true),
            mask(1, 1, keep, set),
            put(0, write0(RegistersBank0::PwrMgmt2)),
            xfer(0, 2, true, true),
            flag,
            put(0, read0(hi)),
            put(1, read0(lo)),
            xfer(0, 3, true, true),
            capture(1, 0),
            capture(2, 1),
        ],
        read_axis_prog(pwr_mgmt_2_prog(clear, keep, set, flag), read_pair_prog(hi, lo, 0)).len() == 12,
{
    assert(read_axis_prog(pwr_mgmt_2_prog(clear, keep, set, flag), read_pair_prog(hi, lo, 0)) =~= seq![
        put(0, read0(RegistersBank0::PwrMgmt2)),
        mask(1, 1, second_byte_mask(clear), 0),
        xfer(0, 2, true, true),
        mask(1, 1, keep, set),
        put(0, write0(RegistersBank0::PwrMgmt2)),
        xfer(0, 2, true, true),
        flag,
        put(0, read0(hi)),
        put(1, read0(lo)),
        xfer(0, 3, true, true),
        capture(1, 0),
        capture(2, 1),
    ]);
}

/// The steps of a switch-on followed by three axis reads, one by one.
pub proof fn shape_guarded_three(clear: bool, keep: u8, set: u8, flag: Step, x: (RegistersBank0, RegistersBank0), y: (RegistersBank0, RegistersBank0), z: (RegistersBank0, RegistersBank0))
    ensures
        (pwr_mgmt_2_prog(clear, keep, set, flag) + read_pair_prog(x.0, x.1, 0) + read_pair_prog(y.0, y.1, 2) + read_pair_prog(z.0, z.1, 4)) =~= seq![
            put(0, read0(RegistersBank0::PwrMgmt2)),
            mask(1, 1, second_byte_mask(clear), 0),
            xfer(0, 2, true, true),
            mask(1, 1, keep, set),
            put(0, write0(RegistersBank0::PwrMgmt2)),
            xfer(0, 2, true, true),
            flag,
            put(0, read0(x.0)),
            put(1, read0(x.1)),
            xfer(0, 3, true, true),
            capture(1, 0),
            capture(2, 1),
            put(0, read0(y.0)),
            put(1, read0(y.1)),
            xfer(0, 3, true, true),
            capture(1, 2),
            capture(2, 3),
            put(0, read0(z.0)),
            put(1, read0(z.1)),
            xfer(0, 3, true, true),
            capture(1, 4),
            capture(2, 5),
        ],
        (pwr_mgmt_2_prog(clear, keep, set, flag) + read_pair_prog(x.0, x.1, 0) + read_pair_prog(y.0, y.1, 2) + read_pair_prog(z.0, z.1, 4)).len() == 22,
{
    assert((pwr_mgmt_2_prog(clear, keep, set, flag) + read_pair_prog(x.0, x.1, 0) + read_pair_prog(y.0, y.1, 2) + read_pair_prog(z.0, z.1, 4)) =~= seq![
        put(0, read0(RegistersBank0::PwrMgmt2)),
        mask(1, 1, second_byte_mask(clear), 0),
        xfer(0, 2, true, true),
        mask(1, 1, keep, set),
        put(0, write0(RegistersBank0::PwrMgmt2)),
        xfer(0, 2, true, true),
        flag,
        put(0, read0(x.0)),
        put(1, read0(x.1)),
        xfer(0, 3, true, true),
        capture(1, 0),
        capture(2, 1),
        put(0, read0(y.0)),
        put(1, read0(y.1)),
        xfer(0, 3, true, true),
        capture(1, 2),
        capture(2, 3),
        put(0, read0(z.0)),
        put(1, read0(z.1)),
        xfer(0, 3, true, true),
        capture(1, 4),
        capture(2, 5),
    ]);
}

} // verus!
