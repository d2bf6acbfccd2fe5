//! Laws over whole sessions: any sequence of calls on the driver, each
//! served as the driver serves it.
use vstd::prelude::*;
use crate::registers::{
    RegistersBank0, RegistersBank2, AccSensitivity, GyroSensitivity, AccStates, GyroStates,
    INT_ENABLED, INT_NOT_ENABLED,
};
use crate::program::{
    Step, ReplyKind, ImuModel, ActionModel, prog_wf, launch, deliver, settle, splice,
    JobModel, lemma_settle, run_step,
};
use crate::ops::{
    int_prog, put, xfer, write0, new_prog, wai_prog, reset_prog, set_acc_sen_prog,
    set_gyro_sen_prog, lpf_prog, lpf_off_prog, acc_div_prog, gyro_div_prog, enable_acc_prog,
    disable_acc_prog, enable_gyro_prog, disable_gyro_prog, read_acc_prog, read_gyro_prog,
    read_axis_prog, acc_guard, gyro_guard, acc_x_pair, acc_y_pair, acc_z_pair, gyro_x_pair,
    gyro_y_pair, gyro_z_pair, pwr_mgmt_2_prog, read_pair_prog, fs_masks,
};
use crate::shapes::{shape_pwr_mgmt_2, shape_sensitivity};
use crate::imu::IcmImu;
use crate::laws::{
    never_records, Setting, law_setting_untouched, law_magnetometer_stays_off,
    law_requests_can_be_served, records, agrees, note, law_operations_and_settings,
};

verus! {

/// A call on the driver: start an operation (its program and what it
/// replies), or hand in the outcome of the transfer it asked for.
pub enum Call {
    Start { prog: Seq<Step>, kind: ReplyKind },
    Reply { bytes: Seq<u8>, ok: bool },
}

/// The state and the request after call `c` on state `s`.
pub open spec fn step_call(s: ImuModel, c: Call) -> (ImuModel, ActionModel) {
    match c {
        Call::Start { prog, kind } => launch(s.with_job(prog, kind)),
        Call::Reply { bytes, ok } => deliver(s, bytes, ok),
    }
}

/// The state after the calls `cs`, made in order from `m`.
pub open spec fn after_calls(m: ImuModel, cs: Seq<Call>) -> ImuModel
    decreases cs.len(),
{
    if cs.len() == 0 {
        m
    } else {
        step_call(after_calls(m, cs.drop_last()), cs.last()).0
    }
}

/// Every call is one the driver accepts where it is made: an operation is
/// started only while the driver is idle, with a well formed program, and
/// a transfer's outcome is handed in only while the driver waits for it,
/// with as many bytes as the frame had.
pub open spec fn calls_ok(m: ImuModel, cs: Seq<Call>) -> bool
    decreases cs.len(),
{
    if cs.len() == 0 {
        true
    } else {
        let s = after_calls(m, cs.drop_last());
        &&& calls_ok(m, cs.drop_last())
        &&& match cs.last() {
            Call::Start { prog, .. } => s.idle() && prog_wf(prog),
            Call::Reply { bytes, .. } => s.awaiting() && bytes.len()
                == IcmImu::spec_pending_len(s),
        }
    }
}

/// The program of the last operation started in `cs`.
pub open spec fn last_prog(cs: Seq<Call>) -> Seq<Step>
    decreases cs.len(),
{
    if cs.len() == 0 {
        Seq::empty()
    } else {
        match cs.last() {
            Call::Start { prog, .. } => prog,
            _ => last_prog(cs.drop_last()),
        }
    }
}

/// `Some(true)` for the program of `enable_int`, `Some(false)` for that of
/// `disable_int`, `None` for any other.
pub open spec fn interrupt_switch(p: Seq<Step>) -> Option<bool> {
    if p == int_prog(0x01, INT_ENABLED) {
        Some(true)
    } else if p == int_prog(0x00, INT_NOT_ENABLED) {
        Some(false)
    } else {
        None
    }
}

/// A program that the interrupt law covers: an interrupt switch, or one
/// that never records the interrupt (every other operation's program, by
/// `law_operations_and_settings`).
pub open spec fn interrupt_safe(p: Seq<Step>) -> bool {
    interrupt_switch(p) is Some || never_records(p, Setting::Interrupt)
}

/// What `int_on` should report after the calls `cs` from `m`: the value of
/// the last interrupt switch whose operation ended `Ok`, or `m`'s if there
/// is none.
pub open spec fn expected_interrupt(m: ImuModel, cs: Seq<Call>) -> bool
    decreases cs.len(),
{
    if cs.len() == 0 {
        m.int_enabled
    } else {
        let a = step_call(after_calls(m, cs.drop_last()), cs.last()).1;
        let p = last_prog(cs);
        if (a matches ActionModel::Done { result: Ok(_) }) && interrupt_switch(p) is Some {
            interrupt_switch(p).unwrap()
        } else {
            expected_interrupt(m, cs.drop_last())
        }
    }
}

proof fn lemma_int_prog_shape(v: u8, e: bool)
    ensures
        int_prog(v, e).len() == 4,
        int_prog(v, e)[0] == put(0, write0(RegistersBank0::IntEnable1)),
        int_prog(v, e)[1] == put(1, v),
        int_prog(v, e)[2] == xfer(0, 2, true, true),
        int_prog(v, e)[3] == (Step::SetInt { enabled: e }),
        never_records(int_prog(v, e), Setting::Interrupt) == false,
{
    assert(int_prog(v, e) =~= seq![
        put(0, write0(RegistersBank0::IntEnable1)),
        put(1, v),
        xfer(0, 2, true, true),
        Step::SetInt { enabled: e },
    ]);
    assert(!never_records(int_prog(v, e), Setting::Interrupt)) by {
        assert(int_prog(v, e)[3] is SetInt);
    }
}

/// Starting an interrupt switch leads to its one transfer, at step 2,
/// with the interrupt flag as it was.
proof fn lemma_int_switch_start(s: ImuModel, v: u8, e: bool, kind: ReplyKind)
    requires
        s.wf(),
        s.idle(),
    ensures
        ({
            let (s1, a) = launch(s.with_job(int_prog(v, e), kind));
            &&& s1.job is Some
            &&& s1.job.unwrap().pc == 2
            &&& s1.job.unwrap().prog == int_prog(v, e)
            &&& s1.int_enabled == s.int_enabled
            &&& a is Transfer
        }),
{
    lemma_int_prog_shape(v, e);
    reveal_with_fuel(settle, 3);
}

/// The outcome of the one transfer of an interrupt switch ends the
/// operation: on success it records the new state and replies `Ok`, on
/// failure it replies with a bus error and the flag stays.
proof fn lemma_int_switch_reply(s: ImuModel, v: u8, e: bool, bytes: Seq<u8>, ok: bool)
    requires
        s.wf(),
        s.job is Some,
        s.job.unwrap().prog == int_prog(v, e),
        s.job.unwrap().pc == 2,
    ensures
        ({
            let (s1, a) = deliver(s, bytes, ok);
            &&& s1.job is None
            &&& ok ==> (a matches ActionModel::Done { result: Ok(_) }) && s1.int_enabled == e
            &&& !ok ==> !(a matches ActionModel::Done { result: Ok(_) }) && s1.int_enabled
                == s.int_enabled
        }),
{
    lemma_int_prog_shape(v, e);
    reveal_with_fuel(settle, 3);
}

/// What holds after every prefix of a session: the state is well formed,
/// the operation under way runs the program last started, an interrupt
/// switch under way waits at its transfer, and the interrupt flag is the
/// expected one.
pub open spec fn session_inv(m: ImuModel, cs: Seq<Call>) -> bool {
    let s = after_calls(m, cs);
    &&& s.wf()
    &&& (s.job matches Some(j) ==> j.prog == last_prog(cs) && (interrupt_switch(j.prog) is Some
        ==> j.pc == 2))
    &&& s.int_enabled == expected_interrupt(m, cs)
}

proof fn lemma_session(m: ImuModel, cs: Seq<Call>)
    requires
        m.wf(),
        m.idle(),
        calls_ok(m, cs),
        forall|i: int|
            0 <= i < cs.len() && (cs[i] is Start) ==> interrupt_safe(#[trigger] cs[i]->Start_prog),
    ensures
        session_inv(m, cs),
    decreases cs.len(),
{
    if cs.len() > 0 {
        let pre = cs.drop_last();
        assert forall|i: int|
            0 <= i < pre.len() && (pre[i] is Start) implies interrupt_safe(
            #[trigger] pre[i]->Start_prog,
        ) by {
            assert(pre[i] == cs[i]);
        }
        lemma_session(m, pre);
        let s = after_calls(m, pre);
        let c = cs.last();
        let (s1, a) = step_call(s, c);
        assert(after_calls(m, cs) == s1);
        assert(cs.drop_last() == pre);
        assert(cs.last() == c);
        match c {
            Call::Start { prog, kind } => {
                assert(cs[cs.len() - 1] == c);
                assert(interrupt_safe(prog));
                assert(last_prog(cs) == prog);
                assert(s.idle() && prog_wf(prog));
                let started = s.with_job(prog, kind);
                assert(started.wf());
                lemma_settle(started);
                law_requests_can_be_served(started, Seq::empty(), true);
                assert(s1.wf());
                if interrupt_switch(prog) is Some {
                    let v: u8 = if prog == int_prog(0x01, INT_ENABLED) {
                        0x01
                    } else {
                        0x00
                    };
                    let e = interrupt_switch(prog).unwrap();
                    assert(prog == int_prog(v, e));
                    lemma_int_switch_start(s, v, e, kind);
                    assert(a is Transfer);
                    assert(expected_interrupt(m, cs) == expected_interrupt(m, pre));
                } else {
                    law_setting_untouched(started, Setting::Interrupt, Seq::empty(), true);
                    assert(s1.job is Some ==> s1.job.unwrap().prog == prog);
                    assert(expected_interrupt(m, cs) == expected_interrupt(m, pre));
                }
            },
            Call::Reply { bytes, ok } => {
                assert(last_prog(cs) == last_prog(pre));
                assert(s.awaiting() && bytes.len() == IcmImu::spec_pending_len(s));
                law_requests_can_be_served(s, bytes, ok);
                assert(s1.wf());
                let j = s.job.unwrap();
                assert(j.prog == last_prog(pre));
                if interrupt_switch(j.prog) is Some {
                    let v: u8 = if j.prog == int_prog(0x01, INT_ENABLED) {
                        0x01
                    } else {
                        0x00
                    };
                    let e = interrupt_switch(j.prog).unwrap();
                    assert(j.prog == int_prog(v, e));
                    lemma_int_switch_reply(s, v, e, bytes, ok);
                } else {
                    lemma_last_start_safe(m, pre);
                    law_setting_untouched(s, Setting::Interrupt, bytes, ok);
                    assert(expected_interrupt(m, cs) == expected_interrupt(m, pre));
                    let start = s.current()->Transfer_start;
                    let s2 = ImuModel {
                        databuf: splice(s.databuf, start as int, bytes),
                        job: Some(JobModel { pc: j.pc + 1, ..j }),
                        ..s
                    };
                    assert(j.prog[j.pc].wf());
                    if ok {
                        lemma_settle(s2);
                    }
                }
            },
        }
    }
}

/// The program last started in a session that the interrupt law covers is
/// one that it covers.
proof fn lemma_last_start_safe(m: ImuModel, cs: Seq<Call>)
    requires
        forall|i: int|
            0 <= i < cs.len() && (cs[i] is Start) ==> interrupt_safe(#[trigger] cs[i]->Start_prog),
    ensures
        interrupt_safe(last_prog(cs)),
    decreases cs.len(),
{
    if cs.len() == 0 {
        assert(never_records(Seq::<Step>::empty(), Setting::Interrupt));
    } else {
        let pre = cs.drop_last();
        if cs.last() is Start {
            assert(cs[cs.len() - 1] == cs.last());
        } else {
            assert forall|i: int|
                0 <= i < pre.len() && (pre[i] is Start) implies interrupt_safe(
                #[trigger] pre[i]->Start_prog,
            ) by {
                assert(pre[i] == cs[i]);
            }
            lemma_last_start_safe(m, pre);
        }
    }
}

/// Over any session, `int_on` reports the value of the last `enable_int`
/// or `disable_int` that ended `Ok`, or what it reported at the start if
/// there is none: no other operation, and no failed switch, changes it. A
/// new driver starts with it off. Every operation of the driver is covered:
/// `law_operations_and_settings` shows that each program other than the
/// two switches never records the interrupt.
pub proof fn law_interrupt_over_session(m: ImuModel, cs: Seq<Call>)
    requires
        m.wf(),
        m.idle(),
        calls_ok(m, cs),
        forall|i: int|
            0 <= i < cs.len() && (cs[i] is Start) ==> interrupt_safe(#[trigger] cs[i]->Start_prog),
    ensures
        after_calls(m, cs).int_enabled == expected_interrupt(m, cs),
{
    lemma_session(m, cs);
}

/// Over any session at all, the magnetometer stays as it was: no call
/// switches it on, so from a new driver on `mag_on` stays false.
pub proof fn law_magnetometer_over_session(m: ImuModel, cs: Seq<Call>)
    ensures
        after_calls(m, cs).mag_en == m.mag_en,
    decreases cs.len(),
{
    if cs.len() > 0 {
        law_magnetometer_over_session(m, cs.drop_last());
        let s = after_calls(m, cs.drop_last());
        match cs.last() {
            Call::Start { prog, kind } => {
                law_magnetometer_stays_off(s.with_job(prog, kind), Seq::empty(), true);
            },
            Call::Reply { bytes, ok } => {
                law_magnetometer_stays_off(s, bytes, ok);
            },
        }
    }
}

/// Every step of `p` that records setting `s` comes right after a
/// transfer, so that it runs exactly when that transfer went through.
pub open spec fn records_after_transfers(p: Seq<Step>, s: Setting) -> bool {
    forall|i: int|
        0 <= i < p.len() && records(#[trigger] p[i], s) ==> i > 0 && p[i - 1] is Transfer
}

/// `m` with setting `s` as step `st` records it, if it records `s`.
pub open spec fn note_if(m: ImuModel, st: Step, s: Setting) -> ImuModel {
    if records(st, s) {
        note(m, st)
    } else {
        m
    }
}

/// What setting `s` should be after the calls `cs` from `m`: as the last
/// step recording `s` that ran set it, where such a step runs when the
/// transfer right before it went through; as in `m` if there is none.
pub open spec fn expected_setting(m: ImuModel, cs: Seq<Call>, s: Setting) -> ImuModel
    decreases cs.len(),
{
    if cs.len() == 0 {
        m
    } else {
        let e = expected_setting(m, cs.drop_last(), s);
        let st = after_calls(m, cs.drop_last());
        let j = st.job.unwrap();
        match cs.last() {
            Call::Reply { ok, .. } => if ok && j.pc + 1 < j.prog.len() {
                note_if(e, j.prog[j.pc + 1], s)
            } else {
                e
            },
            _ => e,
        }
    }
}

proof fn lemma_settle_records(m: ImuModel, s: Setting)
    requires
        m.job is Some,
        m.job.unwrap().pc >= 0,
        records_after_transfers(m.job.unwrap().prog, s),
    ensures
        agrees(
            settle(m),
            if m.job.unwrap().pc < m.job.unwrap().prog.len() {
                note_if(m, m.job.unwrap().prog[m.job.unwrap().pc], s)
            } else {
                m
            },
            s,
        ),
    decreases m.remaining(),
{
    let j = m.job.unwrap();
    if 0 <= j.pc < j.prog.len() && !(j.prog[j.pc] is Transfer) {
        let m1 = run_step(m, j.prog[j.pc]);
        if j.pc + 1 < j.prog.len() && records(j.prog[j.pc + 1], s) {
            assert(j.prog[j.pc] is Transfer);
        }
        lemma_settle_records(m1, s);
    }
}

proof fn lemma_deliver_records(m: ImuModel, received: Seq<u8>, ok: bool, s: Setting)
    requires
        m.wf(),
        m.awaiting(),
        records_after_transfers(m.job.unwrap().prog, s),
    ensures
        agrees(
            deliver(m, received, ok).0,
            if ok && m.job.unwrap().pc + 1 < m.job.unwrap().prog.len() {
                note_if(m, m.job.unwrap().prog[m.job.unwrap().pc + 1], s)
            } else {
                m
            },
            s,
        ),
{
    let j = m.job.unwrap();
    let start = m.current()->Transfer_start;
    let m2 = ImuModel {
        databuf: splice(m.databuf, start as int, received),
        job: Some(JobModel { pc: j.pc + 1, ..j }),
        ..m
    };
    if ok {
        lemma_settle_records(m2, s);
    }
}

proof fn lemma_start_records(m: ImuModel, prog: Seq<Step>, kind: ReplyKind, s: Setting)
    requires
        records_after_transfers(prog, s),
    ensures
        agrees(launch(m.with_job(prog, kind)).0, m, s),
{
    lemma_settle_records(m.with_job(prog, kind), s);
}

/// What holds after every prefix of a session, for setting `s`.
pub open spec fn setting_inv(m: ImuModel, cs: Seq<Call>, s: Setting) -> bool {
    let x = after_calls(m, cs);
    &&& x.wf()
    &&& (x.job matches Some(j) ==> records_after_transfers(j.prog, s))
    &&& agrees(x, expected_setting(m, cs, s), s)
}

proof fn lemma_setting_session(m: ImuModel, cs: Seq<Call>, s: Setting)
    requires
        m.wf(),
        m.idle(),
        calls_ok(m, cs),
        forall|i: int|
            0 <= i < cs.len() && (cs[i] is Start) ==> records_after_transfers(
                #[trigger] cs[i]->Start_prog,
                s,
            ),
    ensures
        setting_inv(m, cs, s),
    decreases cs.len(),
{
    if cs.len() > 0 {
        let pre = cs.drop_last();
        assert forall|i: int| 0 <= i < pre.len() && (pre[i] is Start) implies records_after_transfers(
            #[trigger] pre[i]->Start_prog,
            s,
        ) by {
            assert(pre[i] == cs[i]);
        }
        lemma_setting_session(m, pre, s);
        let x = after_calls(m, pre);
        let c = cs.last();
        assert(cs.drop_last() == pre);
        assert(after_calls(m, cs) == step_call(x, c).0);
        match c {
            Call::Start { prog, kind } => {
                assert(cs[cs.len() - 1] == c);
                let started = x.with_job(prog, kind);
                assert(started.wf());
                lemma_settle(started);
                law_requests_can_be_served(started, Seq::empty(), true);
                lemma_start_records(x, prog, kind, s);
            },
            Call::Reply { bytes, ok } => {
                law_requests_can_be_served(x, bytes, ok);
                lemma_deliver_records(x, bytes, ok, s);
                let j = x.job.unwrap();
                let start = x.current()->Transfer_start;
                let x2 = ImuModel {
                    databuf: splice(x.databuf, start as int, bytes),
                    job: Some(JobModel { pc: j.pc + 1, ..j }),
                    ..x
                };
                assert(j.prog[j.pc].wf());
                if ok {
                    lemma_settle(x2);
                }
            },
        }
    }
}

/// Over any session of calls whose programs record a setting only right
/// after a transfer (every program of the driver does, by
/// `law_programs_record_after_transfers`), the setting is the one that the
/// last recording step that ran set: such a step runs when the transfer
/// before it goes through, and nothing else changes the setting. So
/// `acc_on` and `gyro_on` follow the last successful switch, or the switch
/// made by a read that found the sensor off; `accel_sen` and `gyro_sen` the
/// last full scale setting that went through; `int_on` the last interrupt
/// switch that went through.
pub proof fn law_setting_over_session(m: ImuModel, cs: Seq<Call>, s: Setting)
    requires
        m.wf(),
        m.idle(),
        calls_ok(m, cs),
        forall|i: int|
            0 <= i < cs.len() && (cs[i] is Start) ==> records_after_transfers(
                #[trigger] cs[i]->Start_prog,
                s,
            ),
    ensures
        agrees(after_calls(m, cs), expected_setting(m, cs, s), s),
{
    lemma_setting_session(m, cs, s);
}

proof fn lemma_never_then(p: Seq<Step>, s: Setting)
    requires
        never_records(p, s),
    ensures
        records_after_transfers(p, s),
{
}

proof fn lemma_prefix_then(g: Seq<Step>, rest: Seq<Step>, s: Setting)
    requires
        records_after_transfers(g, s),
        never_records(rest, s),
    ensures
        records_after_transfers(g + rest, s),
{
    let p = g + rest;
    assert forall|i: int| 0 <= i < p.len() && records(#[trigger] p[i], s) implies i > 0 && p[i
        - 1] is Transfer by {
        if i < g.len() {
            assert(p[i] == g[i]);
            if i > 0 {
                assert(p[i - 1] == g[i - 1]);
            }
        } else {
            assert(p[i] == rest[i - g.len()]);
        }
    }
}

proof fn lemma_pair_never(hi: RegistersBank0, lo: RegistersBank0, slot: usize, s: Setting)
    ensures
        never_records(read_pair_prog(hi, lo, slot), s),
{
}

proof fn lemma_never_concat(a: Seq<Step>, b: Seq<Step>, s: Setting)
    requires
        never_records(a, s),
        never_records(b, s),
    ensures
        never_records(a + b, s),
{
    assert forall|i: int| 0 <= i < (a + b).len() implies !records(#[trigger] (a + b)[i], s) by {
        if i < a.len() {
            assert((a + b)[i] == a[i]);
        } else {
            assert((a + b)[i] == b[i - a.len()]);
        }
    }
}

proof fn lemma_pwr_then(clear: bool, keep: u8, set: u8, flag: Step, s: Setting)
    ensures
        records_after_transfers(pwr_mgmt_2_prog(clear, keep, set, flag), s),
{
    shape_pwr_mgmt_2(clear, keep, set, flag);
}

/// Every program of the driver records a setting only right after a
/// transfer, so `law_setting_over_session` covers every session of the
/// driver's operations.
pub proof fn law_programs_record_after_transfers(
    s: Setting,
    value: u8,
    enabled: bool,
    on: bool,
    acc_sen: AccSensitivity,
    gyro_sen: GyroSensitivity,
    reg: RegistersBank2,
    code: u8,
    div16: u16,
    div8: u8,
)
    ensures
        records_after_transfers(new_prog(), s),
        records_after_transfers(wai_prog(), s),
        records_after_transfers(reset_prog(), s),
        records_after_transfers(set_acc_sen_prog(acc_sen), s),
        records_after_transfers(set_gyro_sen_prog(gyro_sen), s),
        records_after_transfers(lpf_prog(reg, code), s),
        records_after_transfers(lpf_off_prog(reg), s),
        records_after_transfers(acc_div_prog(div16), s),
        records_after_transfers(gyro_div_prog(div8), s),
        records_after_transfers(int_prog(value, enabled), s),
        records_after_transfers(enable_acc_prog(), s),
        records_after_transfers(disable_acc_prog(), s),
        records_after_transfers(enable_gyro_prog(), s),
        records_after_transfers(disable_gyro_prog(), s),
        records_after_transfers(read_acc_prog(on), s),
        records_after_transfers(read_gyro_prog(on), s),
        records_after_transfers(read_axis_prog(acc_guard(on), acc_x_pair(0)), s),
        records_after_transfers(read_axis_prog(acc_guard(on), acc_y_pair(0)), s),
        records_after_transfers(read_axis_prog(acc_guard(on), acc_z_pair(0)), s),
        records_after_transfers(read_axis_prog(gyro_guard(on), gyro_x_pair(0)), s),
        records_after_transfers(read_axis_prog(gyro_guard(on), gyro_y_pair(0)), s),
        records_after_transfers(read_axis_prog(gyro_guard(on), gyro_z_pair(0)), s),
{
    law_operations_and_settings(s, value, enabled, on, acc_sen, gyro_sen, reg, code, div16, div8);
    lemma_never_then(new_prog(), s);
    lemma_never_then(wai_prog(), s);
    lemma_never_then(reset_prog(), s);
    lemma_never_then(lpf_prog(reg, code), s);
    lemma_never_then(lpf_off_prog(reg), s);
    lemma_never_then(acc_div_prog(div16), s);
    lemma_never_then(gyro_div_prog(div8), s);
    let am = fs_masks(acc_sen.spec_code());
    let gm = fs_masks(gyro_sen.spec_code());
    shape_sensitivity(RegistersBank2::AccelConfig, am.0, am.1, Step::SetAccelSen { counts: acc_sen.spec_counts() });
    shape_sensitivity(RegistersBank2::GyroConfig1, gm.0, gm.1, Step::SetGyroSen { sen: gyro_sen });
    lemma_int_prog_shape(value, enabled);
    assert(records_after_transfers(int_prog(value, enabled), s)) by {
        assert forall|i: int|
            0 <= i < int_prog(value, enabled).len() && records(
                #[trigger] int_prog(value, enabled)[i],
                s,
            ) implies i > 0 && int_prog(value, enabled)[i - 1] is Transfer by {
            assert(i == 0 || i == 1 || i == 2 || i == 3);
        }
    }
    lemma_pwr_then(false, 0x07, 0, Step::SetAcc { acc: AccStates::AccOn }, s);
    lemma_pwr_then(false, 0xFF, 0x38, Step::SetAcc { acc: AccStates::AccOff }, s);
    lemma_pwr_then(true, 0x38, 0, Step::SetGyro { gyro: GyroStates::GyroOn }, s);
    lemma_pwr_then(false, 0xFF, 0x07, Step::SetGyro { gyro: GyroStates::GyroOff }, s);
    assert(records_after_transfers(Seq::<Step>::empty(), s));
    let ag = acc_guard(on);
    let gg = gyro_guard(on);
    lemma_pair_never(RegistersBank0::AccelXOutH, RegistersBank0::AccelXOutL, 0, s);
    lemma_pair_never(RegistersBank0::AccelYOutH, RegistersBank0::AccelYOutL, 0, s);
    lemma_pair_never(RegistersBank0::AccelZOutH, RegistersBank0::AccelZOutL, 0, s);
    lemma_pair_never(RegistersBank0::AccelYOutH, RegistersBank0::AccelYOutL, 2, s);
    lemma_pair_never(RegistersBank0::AccelZOutH, RegistersBank0::AccelZOutL, 4, s);
    lemma_pair_never(RegistersBank0::GyroXOutH, RegistersBank0::GyroXOutL, 0, s);
    lemma_pair_never(RegistersBank0::GyroYOutH, RegistersBank0::GyroYOutL, 0, s);
    lemma_pair_never(RegistersBank0::GyroZOutH, RegistersBank0::GyroZOutL, 0, s);
    lemma_pair_never(RegistersBank0::GyroYOutH, RegistersBank0::GyroYOutL, 2, s);
    lemma_pair_never(RegistersBank0::GyroZOutH, RegistersBank0::GyroZOutL, 4, s);
    lemma_prefix_then(ag, acc_x_pair(0), s);
    lemma_prefix_then(ag, acc_y_pair(0), s);
    lemma_prefix_then(ag, acc_z_pair(0), s);
    lemma_prefix_then(gg, gyro_x_pair(0), s);
    lemma_prefix_then(gg, gyro_y_pair(0), s);
    lemma_prefix_then(gg, gyro_z_pair(0), s);
    lemma_never_concat(acc_x_pair(0), acc_y_pair(2), s);
    lemma_never_concat(acc_x_pair(0) + acc_y_pair(2), acc_z_pair(4), s);
    lemma_never_concat(gyro_x_pair(0), gyro_y_pair(2), s);
    lemma_never_concat(gyro_x_pair(0) + gyro_y_pair(2), gyro_z_pair(4), s);
    let ar = acc_x_pair(0) + acc_y_pair(2) + acc_z_pair(4);
    let gr = gyro_x_pair(0) + gyro_y_pair(2) + gyro_z_pair(4);
    lemma_prefix_then(ag, ar, s);
    lemma_prefix_then(gg, gr, s);
    assert(read_acc_prog(on) =~= ag + ar);
    assert(read_gyro_prog(on) =~= gg + gr);
}

} // verus!
