//! The aggregate operations over all three controls.
//!
//! `values` and `set_values` touch the three files in the fixed order
//! min → max → no_turbo and stop at the first failure. Each aggregate is a
//! small machine: the caller asks what is pending, performs that one file
//! operation, and feeds the raw outcome back in. A failure ends the machine
//! at once, so the remaining files are never asked for.

use vstd::prelude::*;

verus! {

use crate::{Field, FieldValue, IoFault, PState, PStateError, PStateValues, WriteRequest};
use crate::{interpret, spec_max_perf_pct, spec_min_perf_pct, spec_no_turbo};
use crate::codec;
use vstd::pervasive::unreached;

/// Progress of an aggregate read of all three controls.
#[derive(Debug)]
pub enum ReadProgress {
    /// The minimum performance percent is wanted.
    NeedMin,
    /// The maximum performance percent is wanted.
    NeedMax { min: u8 },
    /// The turbo flag is wanted.
    NeedNoTurbo { min: u8, max: u8 },
    /// Every read succeeded, or one failed with its own error.
    Done { result: Result<PStateValues, PStateError> },
}

/// The transition of an aggregate read on one raw outcome: the pending
/// getter's result either fills its slot or ends the read with that getter's
/// error. A finished read ignores further outcomes.
pub open spec fn read_step(st: ReadProgress, raw: Result<Vec<u8>, IoFault>) -> ReadProgress {
    match st {
        ReadProgress::NeedMin => match spec_min_perf_pct(raw) {
            Ok(v) => ReadProgress::NeedMax { min: v },
            Err(e) => ReadProgress::Done { result: Err(e) },
        },
        ReadProgress::NeedMax { min } => match spec_max_perf_pct(raw) {
            Ok(v) => ReadProgress::NeedNoTurbo { min, max: v },
            Err(e) => ReadProgress::Done { result: Err(e) },
        },
        ReadProgress::NeedNoTurbo { min, max } => match spec_no_turbo(raw) {
            Ok(b) => ReadProgress::Done {
                result: Ok(PStateValues { min_perf_pct: min, max_perf_pct: max, no_turbo: b }),
            },
            Err(e) => ReadProgress::Done { result: Err(e) },
        },
        ReadProgress::Done { .. } => st,
    }
}

/// The field an aggregate read wants next.
pub open spec fn spec_read_pending(st: ReadProgress) -> Option<Field> {
    match st {
        ReadProgress::NeedMin => Some(Field::MinPerfPct),
        ReadProgress::NeedMax { .. } => Some(Field::MaxPerfPct),
        ReadProgress::NeedNoTurbo { .. } => Some(Field::NoTurbo),
        ReadProgress::Done { .. } => None,
    }
}

impl ReadProgress {
    /// The file to read next, in the fixed order min → max → no_turbo;
    /// nothing once the read is done or has failed.
    pub fn pending(&self) -> (r: Option<Field>)
        ensures
            r == spec_read_pending(*self),
            r is None <==> self is Done,
    {
        match self {
            ReadProgress::NeedMin => Some(Field::MinPerfPct),
            ReadProgress::NeedMax { .. } => Some(Field::MaxPerfPct),
            ReadProgress::NeedNoTurbo { .. } => Some(Field::NoTurbo),
            ReadProgress::Done { .. } => None,
        }
    }

    /// Feed the raw outcome of the pending file's read.
    pub fn step(self, raw: Result<Vec<u8>, IoFault>) -> (r: ReadProgress)
        requires
            !(self is Done),
        ensures
            r == read_step(self, raw),
    {
        match self {
            ReadProgress::NeedMin => match interpret(raw) {
                Ok(v) => ReadProgress::NeedMax { min: v },
                Err(f) => ReadProgress::Done { result: Err(PStateError::GetMinPerf(f)) },
            },
            ReadProgress::NeedMax { min } => match interpret(raw) {
                Ok(v) => ReadProgress::NeedNoTurbo { min, max: v },
                Err(f) => ReadProgress::Done { result: Err(PStateError::GetMaxPerf(f)) },
            },
            ReadProgress::NeedNoTurbo { min, max } => match interpret(raw) {
                Ok(v) => ReadProgress::Done {
                    result: Ok(
                        PStateValues { min_perf_pct: min, max_perf_pct: max, no_turbo: v > 0 },
                    ),
                },
                Err(f) => ReadProgress::Done { result: Err(PStateError::GetNoTurbo(f)) },
            },
            ReadProgress::Done { .. } => unreached(),
        }
    }

    /// The assembled record, or the error of the read that failed.
    pub fn finish(self) -> (r: Result<PStateValues, PStateError>)
        requires
            self is Done,
        ensures
            self matches ReadProgress::Done { result } ==> r == result,
    {
        match self {
            ReadProgress::Done { result } => result,
            _ => unreached(),
        }
    }
}

/// Progress of an aggregate write of all three controls.
#[derive(Debug)]
pub enum WriteProgress {
    /// The minimum performance percent write is pending.
    NeedMin { values: PStateValues },
    /// The maximum performance percent write is pending.
    NeedMax { values: PStateValues },
    /// The turbo flag write is pending.
    NeedNoTurbo { values: PStateValues },
    /// Every write succeeded, or one failed with its own error.
    Done { result: Result<(), PStateError> },
}

/// The transition of an aggregate write on one raw outcome: success moves to
/// the next field, failure ends the write with the failing setter's error, so
/// the fields before it keep their new contents and the fields after it are
/// never written. A finished write ignores further outcomes.
pub open spec fn write_step(st: WriteProgress, outcome: Result<(), IoFault>) -> WriteProgress {
    match st {
        WriteProgress::NeedMin { values } => match outcome {
            Ok(_) => WriteProgress::NeedMax { values },
            Err(f) => WriteProgress::Done {
                result: Err(PStateError::SetMinPerf(values.min_perf_pct, f)),
            },
        },
        WriteProgress::NeedMax { values } => match outcome {
            Ok(_) => WriteProgress::NeedNoTurbo { values },
            Err(f) => WriteProgress::Done {
                result: Err(PStateError::SetMaxPerf(values.max_perf_pct, f)),
            },
        },
        WriteProgress::NeedNoTurbo { values } => match outcome {
            Ok(_) => WriteProgress::Done { result: Ok(()) },
            Err(f) => WriteProgress::Done {
                result: Err(PStateError::SetNoTurbo(values.no_turbo, f)),
            },
        },
        WriteProgress::Done { .. } => st,
    }
}

/// The field an aggregate write stages next.
pub open spec fn spec_write_pending(st: WriteProgress) -> Option<Field> {
    match st {
        WriteProgress::NeedMin { .. } => Some(Field::MinPerfPct),
        WriteProgress::NeedMax { .. } => Some(Field::MaxPerfPct),
        WriteProgress::NeedNoTurbo { .. } => Some(Field::NoTurbo),
        WriteProgress::Done { .. } => None,
    }
}

impl WriteProgress {
    /// The write to perform next, fully staged, in the fixed order
    /// min → max → no_turbo; nothing once the write is done or has failed.
    pub fn pending(&self) -> (r: Option<WriteRequest>)
        ensures
            r is None <==> self is Done,
            r matches Some(req) ==> Some(req.field) == spec_write_pending(*self) && req.wf(),
            self matches WriteProgress::NeedMin { values } ==> (r matches Some(req)
                && req.value == FieldValue::Pct(values.min_perf_pct)),
            self matches WriteProgress::NeedMax { values } ==> (r matches Some(req)
                && req.value == FieldValue::Pct(values.max_perf_pct)),
            self matches WriteProgress::NeedNoTurbo { values } ==> (r matches Some(req)
                && req.value == FieldValue::Flag(values.no_turbo)),
    {
        match self {
            WriteProgress::NeedMin { values } => Some(
                WriteRequest {
                    field: Field::MinPerfPct,
                    value: FieldValue::Pct(values.min_perf_pct),
                    data: codec::render_pct(values.min_perf_pct),
                },
            ),
            WriteProgress::NeedMax { values } => Some(
                WriteRequest {
                    field: Field::MaxPerfPct,
                    value: FieldValue::Pct(values.max_perf_pct),
                    data: codec::render_pct(values.max_perf_pct),
                },
            ),
            WriteProgress::NeedNoTurbo { values } => Some(
                WriteRequest {
                    field: Field::NoTurbo,
                    value: FieldValue::Flag(values.no_turbo),
                    data: codec::render_flag(values.no_turbo),
                },
            ),
            WriteProgress::Done { .. } => None,
        }
    }

    /// Feed the raw outcome of the pending write.
    pub fn step(self, outcome: Result<(), IoFault>) -> (r: WriteProgress)
        requires
            !(self is Done),
        ensures
            r == write_step(self, outcome),
    {
        match self {
            WriteProgress::NeedMin { values } => match outcome {
                Ok(()) => WriteProgress::NeedMax { values },
                Err(f) => WriteProgress::Done {
                    result: Err(PStateError::SetMinPerf(values.min_perf_pct, f)),
                },
            },
            WriteProgress::NeedMax { values } => match outcome {
                Ok(()) => WriteProgress::NeedNoTurbo { values },
                Err(f) => WriteProgress::Done {
                    result: Err(PStateError::SetMaxPerf(values.max_perf_pct, f)),
                },
            },
            WriteProgress::NeedNoTurbo { values } => match outcome {
                Ok(()) => WriteProgress::Done { result: Ok(()) },
                Err(f) => WriteProgress::Done {
                    result: Err(PStateError::SetNoTurbo(values.no_turbo, f)),
                },
            },
            WriteProgress::Done { .. } => unreached(),
        }
    }

    /// Success, or the error of the write that failed.
    pub fn finish(self) -> (r: Result<(), PStateError>)
        requires
            self is Done,
        ensures
            self matches WriteProgress::Done { result } ==> r == result,
    {
        match self {
            WriteProgress::Done { result } => result,
            _ => unreached(),
        }
    }
}

impl PState {
    /// Begin the aggregate read of all three controls, in the fixed order
    /// min → max → no_turbo.
    pub fn values(&self) -> (r: ReadProgress)
        ensures
            r == ReadProgress::NeedMin,
    {
        ReadProgress::NeedMin
    }

    /// Begin the aggregate write of all three values, applied in the fixed
    /// order min → max → no_turbo.
    pub fn set_values(&self, values: PStateValues) -> (r: WriteProgress)
        ensures
            r == (WriteProgress::NeedMin { values }),
    {
        WriteProgress::NeedMin { values }
    }
}

/// The result of an aggregate read, as the composition of the three getters
/// in the fixed order: the first failing getter decides, and once it has
/// failed the later raw outcomes do not matter.
pub open spec fn values_of(
    raw1: Result<Vec<u8>, IoFault>,
    raw2: Result<Vec<u8>, IoFault>,
    raw3: Result<Vec<u8>, IoFault>,
) -> Result<PStateValues, PStateError> {
    match spec_min_perf_pct(raw1) {
        Err(e) => Err(e),
        Ok(min) => match spec_max_perf_pct(raw2) {
            Err(e) => Err(e),
            Ok(max) => match spec_no_turbo(raw3) {
                Err(e) => Err(e),
                Ok(nt) => Ok(PStateValues { min_perf_pct: min, max_perf_pct: max, no_turbo: nt }),
            },
        },
    }
}

/// The aggregate read composes exactly the three individual getters: running
/// the machine on the three raw outcomes ends with their composition, whatever
/// the outcomes are.
pub proof fn lemma_values_composes(
    raw1: Result<Vec<u8>, IoFault>,
    raw2: Result<Vec<u8>, IoFault>,
    raw3: Result<Vec<u8>, IoFault>,
)
    ensures
        read_step(read_step(read_step(ReadProgress::NeedMin, raw1), raw2), raw3)
            == (ReadProgress::Done { result: values_of(raw1, raw2, raw3) }),
{
}

/// A failed read ends the aggregate at once: the machine wants no further
/// field, so the getters after the failing one never run.
pub proof fn lemma_values_short_circuit(st: ReadProgress, raw: Result<Vec<u8>, IoFault>)
    requires
        st is Done,
    ensures
        read_step(st, raw) == st,
        spec_read_pending(st) is None,
{
}

/// The result of an aggregate write on the three raw outcomes: the first
/// failing write decides, and once it has failed the later outcomes do not
/// matter.
pub open spec fn set_values_of(
    values: PStateValues,
    o1: Result<(), IoFault>,
    o2: Result<(), IoFault>,
    o3: Result<(), IoFault>,
) -> Result<(), PStateError> {
    match o1 {
        Err(f) => Err(PStateError::SetMinPerf(values.min_perf_pct, f)),
        Ok(_) => match o2 {
            Err(f) => Err(PStateError::SetMaxPerf(values.max_perf_pct, f)),
            Ok(_) => match o3 {
                Err(f) => Err(PStateError::SetNoTurbo(values.no_turbo, f)),
                Ok(_) => Ok(()),
            },
        },
    }
}

/// The aggregate write composes the three individual setters in the fixed
/// order min → max → no_turbo, and stages them in that order.
pub proof fn lemma_set_values_order(
    values: PStateValues,
    o1: Result<(), IoFault>,
    o2: Result<(), IoFault>,
    o3: Result<(), IoFault>,
)
    ensures
        write_step(write_step(write_step(WriteProgress::NeedMin { values }, o1), o2), o3)
            == (WriteProgress::Done { result: set_values_of(values, o1, o2, o3) }),
        spec_write_pending(WriteProgress::NeedMin { values }) == Some(Field::MinPerfPct),
        o1 is Ok ==> spec_write_pending(write_step(WriteProgress::NeedMin { values }, o1))
            == Some(Field::MaxPerfPct),
        o1 is Ok && o2 is Ok ==> spec_write_pending(
            write_step(write_step(WriteProgress::NeedMin { values }, o1), o2),
        ) == Some(Field::NoTurbo),
{
}

/// Short circuit: if the min write succeeds and the max write fails, the
/// aggregate ends with the max setter's error — the min write's effect stands,
/// and the turbo flag's file is never staged.
pub proof fn lemma_set_values_short_circuit(values: PStateValues, f: IoFault)
    ensures
        ({
            let st1 = write_step(WriteProgress::NeedMin { values }, Ok(()));
            let st2 = write_step(st1, Err(f));
            &&& st1 == (WriteProgress::NeedMax { values })
            &&& st2 == (WriteProgress::Done {
                result: Err::<(), PStateError>(PStateError::SetMaxPerf(values.max_perf_pct, f)),
            })
            &&& spec_write_pending(st2) is None
            &&& write_step(st2, Ok(())) == st2
        }),
{
}

} // verus!
