//! The driver's operations are written as short programs over the driver's
//! five byte scratch buffer. A program is run step by step; at every SPI
//! transfer it stops and hands the frame to whoever owns the bus, and it
//! goes on when the bytes that came back are handed in.
//!
//! This file holds the steps, the abstract state of the driver, and the
//! meaning of running a program, as spec functions.
use vstd::prelude::*;
use crate::registers::{AccStates, GyroStates, MagStates, GyroSensitivity, IcmError};
use crate::sample::spec_sample;

verus! {

/// Number of bytes in the driver's scratch buffer.
pub const BUF_LEN: usize = 5;

/// Number of bytes that a program can set aside for its reply.
pub const SLOT_LEN: usize = 6;

/// One step of a driver program.
#[derive(Clone, Copy, Debug, PartialEq, Eq, Structural)]
pub enum Step {
    /// `buf[at] = value`
    Put { at: usize, value: u8 },
    /// `buf[at] = (buf[from] & keep) | set`
    Mask { at: usize, from: usize, keep: u8, set: u8 },
    /// Clock `buf[start..end]` out on the bus and store what comes back in
    /// its place. `select` pulls chip select low before the transfer,
    /// `release` lets it go high after a transfer that succeeded.
    Transfer { start: usize, end: usize, select: bool, release: bool },
    /// `slots[slot] = buf[at]`
    Capture { at: usize, slot: usize },
    /// Busy-wait a while (after a reset of the chip).
    Spin,
    /// Record the accelerometer's power state.
    SetAcc { acc: AccStates },
    /// Record the gyro's power state.
    SetGyro { gyro: GyroStates },
    /// Record whether the data ready interrupt is on.
    SetInt { enabled: bool },
    /// Record the accelerometer's counts per g.
    SetAccelSen { counts: u16 },
    /// Record the gyro's full scale range.
    SetGyroSen { sen: GyroSensitivity },
}

impl Step {
    /// True of a transfer step.
    pub fn is_transfer(&self) -> (r: bool)
        ensures
            r == (*self is Transfer),
    {
        match self {
            Step::Transfer { .. } => true,
            _ => false,
        }
    }

    /// The indices that the step names are inside the buffer and the slots.
    pub open spec fn wf(self) -> bool {
        match self {
            Step::Put { at, .. } => at < BUF_LEN,
            Step::Mask { at, from, .. } => at < BUF_LEN && from < BUF_LEN,
            Step::Transfer { start, end, .. } => start < end <= BUF_LEN,
            Step::Capture { at, slot } => at < BUF_LEN && slot < SLOT_LEN,
            _ => true,
        }
    }
}

/// Every step of the program is well formed.
pub open spec fn prog_wf(p: Seq<Step>) -> bool {
    forall|i: int| 0 <= i < p.len() ==> (#[trigger] p[i]).wf()
}

/// What a finished program answers.
#[derive(Clone, Copy, Debug, PartialEq, Eq, Structural)]
pub enum ReplyKind {
    Unit,
    Byte,
    Sample,
    Samples,
}

/// The answer of an operation that went through.
#[derive(Clone, Copy, Debug, PartialEq, Eq, Structural)]
pub enum Reply {
    /// The operation has no value to give.
    Unit,
    /// A register's value.
    Byte(u8),
    /// One raw sensor reading.
    Sample(i16),
    /// Three raw sensor readings, x then y then z.
    Samples(i16, i16, i16),
}

/// The reply that a program of kind `kind` gives from the bytes it set
/// aside: a byte is slot 0; a sample is slots 0 (high) and 1 (low); three
/// samples are the pairs 0/1, 2/3 and 4/5.
pub open spec fn reply_of(kind: ReplyKind, slots: Seq<u8>) -> Reply {
    match kind {
        ReplyKind::Unit => Reply::Unit,
        ReplyKind::Byte => Reply::Byte(slots[0]),
        ReplyKind::Sample => Reply::Sample(spec_sample(slots[0], slots[1]) as i16),
        ReplyKind::Samples => Reply::Samples(
            spec_sample(slots[0], slots[1]) as i16,
            spec_sample(slots[2], slots[3]) as i16,
            spec_sample(slots[4], slots[5]) as i16,
        ),
    }
}

/// A program under way: its steps, the index of the next step, what it
/// answers and the bytes it has set aside so far.
pub struct JobModel {
    pub prog: Seq<Step>,
    pub pc: int,
    pub kind: ReplyKind,
    pub slots: Seq<u8>,
}

/// The abstract state of the driver.
pub struct ImuModel {
    pub acc_en: AccStates,
    pub gyro_en: GyroStates,
    pub mag_en: MagStates,
    pub databuf: Seq<u8>,
    pub accel_sen: u16,
    pub gyro_sen: GyroSensitivity,
    pub int_enabled: bool,
    /// The operation under way, if any.
    pub job: Option<JobModel>,
}

/// What the driver asks of the bus owner next.
pub enum ActionModel {
    /// Clock these bytes out and hand back what came in.
    Transfer { bytes: Seq<u8>, select: bool, release: bool },
    /// The operation is over, with this outcome.
    Done { result: Result<Reply, IcmError> },
}

impl JobModel {
    pub open spec fn wf(self) -> bool {
        &&& prog_wf(self.prog)
        &&& 0 <= self.pc <= self.prog.len()
        &&& self.slots.len() == SLOT_LEN
    }
}

impl ImuModel {
    pub open spec fn wf(self) -> bool {
        &&& self.databuf.len() == BUF_LEN
        &&& (self.job matches Some(j) ==> j.wf())
    }

    /// No operation is under way.
    pub open spec fn idle(self) -> bool {
        self.job is None
    }

    /// Steps left before the end of the program under way.
    pub open spec fn remaining(self) -> nat {
        match self.job {
            Some(j) => if j.pc < j.prog.len() {
                (j.prog.len() - j.pc) as nat
            } else {
                0
            },
            None => 0,
        }
    }

    /// The program under way stands at a transfer and waits for its bytes.
    pub open spec fn awaiting(self) -> bool {
        &&& self.job matches Some(j)
        &&& 0 <= j.pc < j.prog.len()
        &&& j.prog[j.pc] is Transfer
    }

    /// The step at which the program under way stands.
    pub open spec fn current(self) -> Step {
        self.job.unwrap().prog[self.job.unwrap().pc]
    }

    /// The same state with program `prog`, answering `kind`, started.
    pub open spec fn with_job(self, prog: Seq<Step>, kind: ReplyKind) -> ImuModel {
        ImuModel {
            job: Some(JobModel { prog, pc: 0, kind, slots: Seq::new(SLOT_LEN as nat, |i: int| 0u8) }),
            ..self
        }
    }
}

/// `buf` with `bytes` written from index `start` on.
pub open spec fn splice(buf: Seq<u8>, start: int, bytes: Seq<u8>) -> Seq<u8> {
    Seq::new(
        buf.len(),
        |i: int|
            if start <= i < start + bytes.len() {
                bytes[i - start]
            } else {
                buf[i]
            },
    )
}

/// The effect of one step other than a transfer, and the move to the next step.
pub open spec fn run_step(m: ImuModel, st: Step) -> ImuModel {
    let j = m.job.unwrap();
    let j2 = JobModel {
        pc: j.pc + 1,
        slots: match st {
            Step::Capture { at, slot } => j.slots.update(slot as int, m.databuf[at as int]),
            _ => j.slots,
        },
        ..j
    };
    let m2 = ImuModel { job: Some(j2), ..m };
    match st {
        Step::Put { at, value } => ImuModel { databuf: m.databuf.update(at as int, value), ..m2 },
        Step::Mask { at, from, keep, set } => ImuModel {
            databuf: m.databuf.update(at as int, (m.databuf[from as int] & keep) | set),
            ..m2
        },
        Step::SetAcc { acc } => ImuModel { acc_en: acc, ..m2 },
        Step::SetGyro { gyro } => ImuModel { gyro_en: gyro, ..m2 },
        Step::SetInt { enabled } => ImuModel { int_enabled: enabled, ..m2 },
        Step::SetAccelSen { counts } => ImuModel { accel_sen: counts, ..m2 },
        Step::SetGyroSen { sen } => ImuModel { gyro_sen: sen, ..m2 },
        _ => m2,
    }
}

/// Runs the program under way up to its next transfer or its end.
pub open spec fn settle(m: ImuModel) -> ImuModel
    decreases m.remaining(),
{
    match m.job {
        Some(j) => if 0 <= j.pc < j.prog.len() && !(j.prog[j.pc] is Transfer) {
            settle(run_step(m, j.prog[j.pc]))
        } else {
            m
        },
        None => m,
    }
}

/// The state and the request to the bus owner once the program under way
/// has run as far as it can: the frame of the transfer it stands at, or, at
/// its end, its reply, with the driver idle again.
pub open spec fn launch(m: ImuModel) -> (ImuModel, ActionModel) {
    let s = settle(m);
    let j = s.job.unwrap();
    if 0 <= j.pc < j.prog.len() {
        match j.prog[j.pc] {
            Step::Transfer { start, end, select, release } => (
                s,
                ActionModel::Transfer {
                    bytes: s.databuf.subrange(start as int, end as int),
                    select,
                    release,
                },
            ),
            _ => (s, ActionModel::Done { result: Ok(Reply::Unit) }),
        }
    } else {
        (
            ImuModel { job: None, ..s },
            ActionModel::Done { result: Ok(reply_of(j.kind, j.slots)) },
        )
    }
}

/// The state and the next request once the bytes of the transfer that the
/// program waits for come back: they take the place of the bytes sent; if
/// the transfer went through the program goes on, else it ends with a bus
/// error.
pub open spec fn deliver(m: ImuModel, received: Seq<u8>, ok: bool) -> (ImuModel, ActionModel) {
    let j = m.job.unwrap();
    let start = m.current()->Transfer_start;
    let m2 = ImuModel {
        databuf: splice(m.databuf, start as int, received),
        job: Some(JobModel { pc: j.pc + 1, ..j }),
        ..m
    };
    if ok {
        launch(m2)
    } else {
        (ImuModel { job: None, ..m2 }, ActionModel::Done { result: Err(IcmError::BusError) })
    }
}

/// Running a local step keeps the state well formed.
pub proof fn lemma_run_step_wf(m: ImuModel)
    requires
        m.wf(),
        m.job is Some,
        0 <= m.job.unwrap().pc < m.job.unwrap().prog.len(),
    ensures
        run_step(m, m.current()).wf(),
        run_step(m, m.current()).job is Some,
        run_step(m, m.current()).job.unwrap().pc == m.job.unwrap().pc + 1,
        run_step(m, m.current()).job.unwrap().prog == m.job.unwrap().prog,
        run_step(m, m.current()).job.unwrap().kind == m.job.unwrap().kind,
{
    let j = m.job.unwrap();
    assert(j.prog[j.pc].wf());
}

/// Settling keeps the state well formed, leaves a program under way, and
/// stops at a transfer or at the end.
pub proof fn lemma_settle(m: ImuModel)
    requires
        m.wf(),
        m.job is Some,
    ensures
        settle(m).wf(),
        settle(m).job is Some,
        settle(m).job.unwrap().prog == m.job.unwrap().prog,
        settle(m).job.unwrap().kind == m.job.unwrap().kind,
        settle(m).job.unwrap().pc >= m.job.unwrap().pc,
        settle(m).job.unwrap().pc < settle(m).job.unwrap().prog.len() ==> settle(m).awaiting(),
    decreases m.remaining(),
{
    let j = m.job.unwrap();
    if 0 <= j.pc < j.prog.len() && !(j.prog[j.pc] is Transfer) {
        lemma_run_step_wf(m);
        lemma_settle(run_step(m, j.prog[j.pc]));
    }
}

} // verus!
