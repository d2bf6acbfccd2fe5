//! The driver's state and the machine that runs its programs.
use vstd::prelude::*;
use crate::registers::{AccStates, GyroStates, MagStates, GyroSensitivity, IcmError};
use crate::program::{
    Step, ReplyKind, Reply, JobModel, ImuModel, ActionModel, BUF_LEN, SLOT_LEN, prog_wf,
    run_step, settle, launch, deliver, splice, lemma_settle, lemma_run_step_wf,
};
use crate::sample::sample_from_bytes;
use crate::registers::{INT_ENABLED, INT_NOT_ENABLED, ACCEL_SEN_0};
use crate::ops::{new_prog, new_steps};
use crate::laws::{new_run, law_new};

verus! {

/// A frame for the bus owner to clock out.
pub struct Frame {
    /// The bytes to send; the bytes received take their place.
    pub bytes: Vec<u8>,
    /// Pull chip select low before the transfer.
    pub select: bool,
    /// Let chip select go high after the transfer, if it succeeds.
    pub release: bool,
}

/// What the driver asks of the bus owner next.
pub enum Action {
    /// Transfer this frame, then call `resume` with the bytes that came back.
    Transfer(Frame),
    /// The operation is over.
    Done(Result<Reply, IcmError>),
}

impl View for Action {
    type V = ActionModel;

    open spec fn view(&self) -> ActionModel {
        match self {
            Action::Transfer(f) => ActionModel::Transfer {
                bytes: f.bytes@,
                select: f.select,
                release: f.release,
            },
            Action::Done(r) => ActionModel::Done { result: *r },
        }
    }
}

/// The driver's own state: what it has set up on the chip, its scratch
/// buffer, and the operation under way.
pub struct IcmImu {
    pub(crate) acc_en: AccStates,
    pub(crate) gyro_en: GyroStates,
    pub(crate) mag_en: MagStates,
    pub(crate) databuf: [u8; 5],
    pub(crate) accel_sen: u16,
    pub(crate) gyro_sen: GyroSensitivity,
    pub(crate) int_enabled: bool,
    pub(crate) busy: bool,
    pub(crate) prog: Vec<Step>,
    pub(crate) pc: usize,
    pub(crate) kind: ReplyKind,
    pub(crate) slots: [u8; 6],
}

impl View for IcmImu {
    type V = ImuModel;

    closed spec fn view(&self) -> ImuModel {
        ImuModel {
            acc_en: self.acc_en,
            gyro_en: self.gyro_en,
            mag_en: self.mag_en,
            databuf: self.databuf@,
            accel_sen: self.accel_sen,
            gyro_sen: self.gyro_sen,
            int_enabled: self.int_enabled,
            job: if self.busy {
                Some(
                    JobModel {
                        prog: self.prog@,
                        pc: self.pc as int,
                        kind: self.kind,
                        slots: self.slots@,
                    },
                )
            } else {
                None
            },
        }
    }
}

/// The busy-wait that follows a reset: the sum of `i / 10000` over `i` from
/// 1 up to but not including `n`.
pub open spec fn spin_total(n: int) -> int
    decreases n,
{
    if n <= 1 {
        0
    } else {
        spin_total(n - 1) + (n - 1) / 10000
    }
}

/// Counts up to two million, as a delay.
fn spin_delay() -> (j: i32)
    ensures
        j == spin_total(2000000),
{
    let mut j: i32 = 0;
    let mut i: i32 = 1;
    while i < 2000000
        invariant
            1 <= i <= 2000000,
            j == spin_total(i as int),
            0 <= j <= 199 * i,
        decreases 2000000 - i,
    {
        j = j + i / 10000;
        i = i + 1;
    }
    j
}

impl IcmImu {
    /// The state is well formed: the program under way, if any, names only
    /// indices inside the buffer and the slots.
    pub open spec fn wf(&self) -> bool {
        self@.wf()
    }

    /// Runs one step other than a transfer.
    fn run_local(&mut self, st: Step)
        requires
            old(self).wf(),
            old(self).busy,
            old(self).pc < old(self).prog.len(),
            st == old(self).prog@[old(self).pc as int],
            !(st is Transfer),
        ensures
            final(self)@ == run_step(old(self)@, st),
            final(self).wf(),
            final(self).busy,
    {
        proof {
            lemma_run_step_wf(self@);
        }
        let ghost m = self@;
        match st {
            Step::Put { at, value } => {
                self.databuf[at] = value;
            },
            Step::Mask { at, from, keep, set } => {
                let v = (self.databuf[from] & keep) | set;
                self.databuf[at] = v;
            },
            Step::Capture { at, slot } => {
                let v = self.databuf[at];
                self.slots[slot] = v;
            },
            Step::Spin => {
                let _ = spin_delay();
            },
            Step::SetAcc { acc } => {
                self.acc_en = acc;
            },
            Step::SetGyro { gyro } => {
                self.gyro_en = gyro;
            },
            Step::SetInt { enabled } => {
                self.int_enabled = enabled;
            },
            Step::SetAccelSen { counts } => {
                self.accel_sen = counts;
            },
            Step::SetGyroSen { sen } => {
                self.gyro_sen = sen;
            },
            Step::Transfer { .. } => {},
        }
        self.pc = self.pc + 1;
        assert(self@.databuf =~= run_step(m, st).databuf);
        assert(self@.job.unwrap().slots =~= run_step(m, st).job.unwrap().slots);
    }

    /// Runs the program under way up to its next transfer or its end.
    fn settle_job(&mut self)
        requires
            old(self).wf(),
            old(self).busy,
        ensures
            final(self)@ == settle(old(self)@),
            final(self).wf(),
            final(self).busy,
    {
        let ghost target = settle(self@);
        while self.pc < self.prog.len() && !self.prog[self.pc].is_transfer()
            invariant
                self.wf(),
                self.busy,
                settle(self@) == target,
            decreases self.prog@.len() - self.pc,
        {
            let st = self.prog[self.pc];
            proof {
                assert(settle(self@) == settle(run_step(self@, st)));
            }
            self.run_local(st);
        }
    }

    /// Runs the program under way as far as it can and says what the bus
    /// owner has to do next.
    fn launch_job(&mut self) -> (a: Action)
        requires
            old(self).wf(),
            old(self).busy,
        ensures
            (final(self)@, a@) == launch(old(self)@),
            final(self).wf(),
    {
        proof {
            lemma_settle(self@);
        }
        self.settle_job();
        if self.pc < self.prog.len() {
            let st = self.prog[self.pc];
            match st {
                Step::Transfer { start, end, select, release } => {
                    let mut bytes: Vec<u8> = Vec::new();
                    let mut k = start;
                    while k < end
                        invariant
                            start <= k <= end <= BUF_LEN,
                            bytes@ =~= self.databuf@.subrange(start as int, k as int),
                        decreases end - k,
                    {
                        bytes.push(self.databuf[k]);
                        k = k + 1;
                    }
                    Action::Transfer(Frame { bytes, select, release })
                },
                _ => Action::Done(Ok(Reply::Unit)),
            }
        } else {
            self.busy = false;
            let reply = match self.kind {
                ReplyKind::Unit => Reply::Unit,
                ReplyKind::Byte => Reply::Byte(self.slots[0]),
                ReplyKind::Sample => Reply::Sample(sample_from_bytes(self.slots[0], self.slots[1])),
                ReplyKind::Samples => Reply::Samples(
                    sample_from_bytes(self.slots[0], self.slots[1]),
                    sample_from_bytes(self.slots[2], self.slots[3]),
                    sample_from_bytes(self.slots[4], self.slots[5]),
                ),
            };
            Action::Done(Ok(reply))
        }
    }

    /// Starts program `prog`, answering `kind`, and runs it to its first
    /// transfer or its end.
    pub(crate) fn start(&mut self, prog: Vec<Step>, kind: ReplyKind) -> (a: Action)
        requires
            old(self).wf(),
            old(self)@.idle(),
            prog_wf(prog@),
        ensures
            (final(self)@, a@) == launch(old(self)@.with_job(prog@, kind)),
            final(self).wf(),
    {
        let ghost m = self@;
        self.prog = prog;
        self.pc = 0;
        self.kind = kind;
        self.slots = [0u8; 6];
        self.busy = true;
        assert(self@.job.unwrap().slots =~= Seq::new(SLOT_LEN as nat, |i: int| 0u8));
        assert(self@ == m.with_job(self.prog@, kind));
        self.launch_job()
    }

    /// Number of bytes in the frame that the driver waits for.
    pub open spec fn spec_pending_len(m: ImuModel) -> int {
        m.current()->Transfer_end - m.current()->Transfer_start
    }

    /// Hands in the outcome of the transfer that the driver asked for:
    /// `received` is the frame's buffer after the transfer and `ok` tells
    /// whether the bus reported success. The received bytes take the place
    /// of the bytes sent in the scratch buffer. On success the operation
    /// goes on to its next transfer or its end; on failure it ends at once
    /// with `IcmError::BusError`.
    pub fn resume(&mut self, received: &[u8], ok: bool) -> (a: Action)
        requires
            old(self).wf(),
            old(self)@.awaiting(),
            received@.len() == Self::spec_pending_len(old(self)@),
        ensures
            (final(self)@, a@) == deliver(old(self)@, received@, ok),
            final(self).wf(),
    {
        let ghost m = self@;
        let st = self.prog[self.pc];
        let start = match st {
            Step::Transfer { start, .. } => start,
            _ => 0,
        };
        proof {
            assert(self@.current().wf());
            assert(self.pc < self.prog.len());
        }
        let mut k: usize = 0;
        while k < received.len()
            invariant
                0 <= k <= received@.len(),
                start + received@.len() <= BUF_LEN,
                self.busy == m.job is Some,
                self@ == (ImuModel { databuf: self@.databuf, ..m }),
                self@.databuf.len() == BUF_LEN,
                forall|i: int|
                    0 <= i < BUF_LEN ==> #[trigger] self@.databuf[i] == if start <= i < start + k {
                        received@[i - start]
                    } else {
                        m.databuf[i]
                    },
            decreases received@.len() - k,
        {
            self.databuf[start + k] = received[k];
            k = k + 1;
        }
        self.pc = self.pc + 1;
        assert(self@.databuf =~= splice(m.databuf, start as int, received@));
        if ok {
            self.launch_job()
        } else {
            self.busy = false;
            Action::Done(Err(IcmError::BusError))
        }
    }
}

/// The state of a driver that has just been made, before its first
/// transfer: accelerometer and gyro on (the chip's state after power-up),
/// magnetometer off, +-2g and +-250dps, interrupt off, scratch buffer zero.
pub open spec fn initial_model() -> ImuModel {
    ImuModel {
        acc_en: AccStates::AccOn,
        gyro_en: GyroStates::GyroOn,
        mag_en: MagStates::MagOff,
        databuf: Seq::new(BUF_LEN as nat, |i: int| 0u8),
        accel_sen: ACCEL_SEN_0,
        gyro_sen: GyroSensitivity::Sen250dps,
        int_enabled: INT_NOT_ENABLED,
        job: None,
    }
}

impl IcmImu {
    /// Creates the driver and starts waking the chip up: `PWR_MGMT_1` is
    /// written `0x01` (out of sleep, best clock). The driver is usable once
    /// that transfer has gone through.
    pub fn new() -> (r: (IcmImu, Action))
        ensures
            r.0.wf(),
            (r.0@, r.1@) == launch(initial_model().with_job(new_prog(), ReplyKind::Unit)),
            forall|b: Seq<u8>| b.len() == 2 ==> #[trigger] new_run(b),
    {
        proof {
            assert forall|b: Seq<u8>| b.len() == 2 implies #[trigger] new_run(b) by {
                law_new(b);
            }
        }
        let mut imu = IcmImu {
            acc_en: AccStates::AccOn,
            gyro_en: GyroStates::GyroOn,
            mag_en: MagStates::MagOff,
            databuf: [0u8; 5],
            accel_sen: ACCEL_SEN_0,
            gyro_sen: GyroSensitivity::Sen250dps,
            int_enabled: INT_NOT_ENABLED,
            busy: false,
            prog: Vec::new(),
            pc: 0,
            kind: ReplyKind::Unit,
            slots: [0u8; 6],
        };
        assert(imu@.databuf =~= initial_model().databuf);
        assert(imu@ == initial_model());
        let a = imu.start(new_steps(), ReplyKind::Unit);
        (imu, a)
    }

    /// No operation is under way: a new one may start.
    pub fn is_idle(&self) -> (r: bool)
        requires
            self.wf(),
        ensures
            r == self@.idle(),
    {
        !self.busy
    }

    /// The length of the frame whose outcome the driver waits for, if it
    /// waits for one.
    pub fn awaiting_len(&self) -> (r: Option<usize>)
        requires
            self.wf(),
        ensures
            r is Some <==> self@.awaiting(),
            r matches Some(n) ==> n == IcmImu::spec_pending_len(self@),
    {
        if self.busy && self.pc < self.prog.len() {
            match self.prog[self.pc] {
                Step::Transfer { start, end, .. } => Some(end - start),
                _ => None,
            }
        } else {
            None
        }
    }

    /// Checks if the interrupt is enabled.
    pub fn int_on(&self) -> (r: bool)
        ensures
            r == (self@.int_enabled == INT_ENABLED),
    {
        self.int_enabled == INT_ENABLED
    }

    /// Checks if the gyro is enabled.
    pub fn gyro_on(&self) -> (r: bool)
        ensures
            r == (self@.gyro_en == GyroStates::GyroOn),
    {
        self.gyro_en == GyroStates::GyroOn
    }

    /// Checks if the accelerometer is enabled.
    pub fn acc_on(&self) -> (r: bool)
        ensures
            r == (self@.acc_en == AccStates::AccOn),
    {
        self.acc_en == AccStates::AccOn
    }

    /// Checks if the magnetometer is enabled (it never is: the driver cannot
    /// use it yet).
    pub fn mag_on(&self) -> (r: bool)
        ensures
            r == (self@.mag_en == MagStates::MagOn),
    {
        self.mag_en == MagStates::MagOn
    }

    /// The accelerometer's counts per g at its current range.
    pub fn accel_sen(&self) -> (r: u16)
        ensures
            r == self@.accel_sen,
    {
        self.accel_sen
    }

    /// The gyro's current full scale range.
    pub fn gyro_sen(&self) -> (r: GyroSensitivity)
        ensures
            r == self@.gyro_sen,
    {
        self.gyro_sen
    }

}

} // verus!
