//! Verified core of an accessor for the Linux `intel_pstate` driver's
//! frequency-scaling controls.
//!
//! The driver exposes three scalar tunables as text pseudo-files under a fixed
//! sysfs directory: `min_perf_pct`, `max_perf_pct` and `no_turbo`. This crate
//! holds everything about those controls that can be checked: how a file's
//! text is parsed, what bytes a write must carry, how failures are classified,
//! and in which order the aggregate operations touch the three fields. The
//! actual file reads and writes are left to the caller, who feeds each raw
//! outcome back in.

use vstd::prelude::*;

pub mod codec;
pub mod session;

verus! {

use crate::codec::ParseFault;
use vstd::pervasive::unreached;

/// A set of pstate values that was retrieved, or is to be set.
#[derive(Clone, Copy, Debug, PartialEq, Eq, Hash, Structural)]
pub struct PStateValues {
    pub min_perf_pct: u8,
    pub max_perf_pct: u8,
    pub no_turbo: bool,
}

impl PStateValues {
    pub fn new(min: u8, max: u8, no_turbo: bool) -> (r: Self)
        ensures
            r == (PStateValues { min_perf_pct: min, max_perf_pct: max, no_turbo }),
    {
        Self { min_perf_pct: min, max_perf_pct: max, no_turbo }
    }
}

impl Default for PStateValues {
    /// No lower bound, the full upper bound, and turbo left available.
    fn default() -> (r: Self)
        ensures
            r == (PStateValues { min_perf_pct: 0u8, max_perf_pct: 100u8, no_turbo: false }),
    {
        PStateValues { min_perf_pct: 0, max_perf_pct: 100, no_turbo: false }
    }
}

/// The three control files of the driver.
#[derive(Clone, Copy, Debug, PartialEq, Eq, Structural)]
pub enum Field {
    MinPerfPct,
    MaxPerfPct,
    NoTurbo,
}

impl Field {
    /// The file's name inside the control directory.
    pub open spec fn spec_file_name(self) -> Seq<char> {
        match self {
            Field::MinPerfPct => "min_perf_pct"@,
            Field::MaxPerfPct => "max_perf_pct"@,
            Field::NoTurbo => "no_turbo"@,
        }
    }

    /// The file's name inside the control directory.
    pub fn file_name(&self) -> (r: &'static str)
        ensures
            r@ == self.spec_file_name(),
    {
        match self {
            Field::MinPerfPct => "min_perf_pct",
            Field::MaxPerfPct => "max_perf_pct",
            Field::NoTurbo => "no_turbo",
        }
    }
}

/// How a single file operation failed.
#[derive(Debug)]
pub enum IoFault {
    /// The file's content did not hold the field's value.
    Data(ParseFault),
    /// The OS call itself failed; the message as the OS gave it.
    Os(String),
}

impl IoFault {
    /// The message the fault carries.
    pub open spec fn text(self) -> Seq<char> {
        match self {
            IoFault::Data(pf) => pf.text(),
            IoFault::Os(m) => m@,
        }
    }

    /// The message the fault carries.
    pub fn message(&self) -> (r: &str)
        ensures
            r@ == self.text(),
    {
        match self {
            IoFault::Data(pf) => pf.message(),
            IoFault::Os(m) => m.as_str(),
        }
    }
}

/// The error of an operation on the controls. Each variant wraps the fault of
/// the one file operation that failed; the setter variants also carry the
/// value that was being applied.
#[derive(Debug)]
pub enum PStateError {
    /// Reading the minimum performance percent failed.
    GetMinPerf(IoFault),
    /// Reading the maximum performance percent failed.
    GetMaxPerf(IoFault),
    /// Reading the turbo flag failed.
    GetNoTurbo(IoFault),
    /// The control directory is absent: the driver is not on this host.
    NotFound,
    /// Writing the minimum performance percent failed.
    SetMinPerf(u8, IoFault),
    /// Writing the maximum performance percent failed.
    SetMaxPerf(u8, IoFault),
    /// Writing the turbo flag failed.
    SetNoTurbo(bool, IoFault),
}

/// What a read yields from the raw outcome of its file operation: the OS
/// fault as it came, or the trimmed content parsed as a `u8`, a parse fault
/// folded in as a data fault.
pub open spec fn interpret_read(raw: Result<Vec<u8>, IoFault>) -> Result<u8, IoFault> {
    match raw {
        Ok(b) => match codec::parse_u8(codec::trimmed(b@)) {
            Ok(v) => Ok(v),
            Err(pf) => Err(IoFault::Data(pf)),
        },
        Err(f) => Err(f),
    }
}

/// The result of a minimum performance percent read.
pub open spec fn spec_min_perf_pct(raw: Result<Vec<u8>, IoFault>) -> Result<u8, PStateError> {
    match interpret_read(raw) {
        Ok(v) => Ok(v),
        Err(f) => Err(PStateError::GetMinPerf(f)),
    }
}

/// The result of a maximum performance percent read.
pub open spec fn spec_max_perf_pct(raw: Result<Vec<u8>, IoFault>) -> Result<u8, PStateError> {
    match interpret_read(raw) {
        Ok(v) => Ok(v),
        Err(f) => Err(PStateError::GetMaxPerf(f)),
    }
}

/// The result of a turbo flag read: true exactly when the stored value is
/// nonzero.
pub open spec fn spec_no_turbo(raw: Result<Vec<u8>, IoFault>) -> Result<bool, PStateError> {
    match interpret_read(raw) {
        Ok(v) => Ok(v > 0),
        Err(f) => Err(PStateError::GetNoTurbo(f)),
    }
}

pub(crate) fn interpret(raw: Result<Vec<u8>, IoFault>) -> (r: Result<u8, IoFault>)
    ensures
        r == interpret_read(raw),
{
    match raw {
        Ok(b) => match codec::parse_field(&b) {
            Ok(v) => Ok(v),
            Err(pf) => Err(IoFault::Data(pf)),
        },
        Err(f) => Err(f),
    }
}

/// The value a write carries, as the error reports it on failure.
#[derive(Clone, Copy, Debug, PartialEq, Eq, Structural)]
pub enum FieldValue {
    /// A performance percentage.
    Pct(u8),
    /// The turbo flag.
    Flag(bool),
}

/// One staged write: the file it goes to, the logical value, and the exact
/// bytes to be written.
#[derive(Debug)]
pub struct WriteRequest {
    pub field: Field,
    pub value: FieldValue,
    pub data: Vec<u8>,
}

impl WriteRequest {
    /// The bytes a value is written as: plain decimal digits for a
    /// percentage, a single `1` or `0` byte for the flag.
    pub open spec fn rendered(value: FieldValue) -> Seq<u8> {
        match value {
            FieldValue::Pct(p) => codec::dec_digits(p as nat),
            FieldValue::Flag(b) => codec::flag_bytes(b),
        }
    }

    /// A request is well formed when its value belongs to its field and its
    /// bytes are that value's rendering.
    pub open spec fn wf(self) -> bool {
        &&& match self.field {
            Field::MinPerfPct | Field::MaxPerfPct => self.value is Pct,
            Field::NoTurbo => self.value is Flag,
        }
        &&& self.data@ == Self::rendered(self.value)
    }
}

/// The error a failed write raises: the field picks the variant, the value
/// being applied and the fault ride along.
pub open spec fn spec_write_error(field: Field, value: FieldValue, f: IoFault) -> PStateError {
    match (field, value) {
        (Field::MinPerfPct, FieldValue::Pct(p)) => PStateError::SetMinPerf(p, f),
        (Field::MaxPerfPct, FieldValue::Pct(p)) => PStateError::SetMaxPerf(p, f),
        (Field::NoTurbo, FieldValue::Flag(b)) => PStateError::SetNoTurbo(b, f),
        _ => arbitrary(),
    }
}

/// Fold the raw outcome of a staged write back into the operation's result.
pub fn complete_write(req: &WriteRequest, outcome: Result<(), IoFault>) -> (r: Result<
    (),
    PStateError,
>)
    requires
        req.wf(),
    ensures
        outcome is Ok ==> r is Ok,
        outcome matches Err(f) ==> r == Err::<(), PStateError>(
            spec_write_error(req.field, req.value, f),
        ),
{
    match outcome {
        Ok(()) => Ok(()),
        Err(f) => match (req.field, req.value) {
            (Field::MinPerfPct, FieldValue::Pct(p)) => Err(PStateError::SetMinPerf(p, f)),
            (Field::MaxPerfPct, FieldValue::Pct(p)) => Err(PStateError::SetMaxPerf(p, f)),
            (Field::NoTurbo, FieldValue::Flag(b)) => Err(PStateError::SetNoTurbo(b, f)),
            _ => unreached(),
        },
    }
}

/// The fixed path of the driver's control directory.
pub open spec fn sysfs_dir() -> Seq<char> {
    "/sys/devices/system/cpu/intel_pstate"@
}

/// Handle for fetching and modifying Intel PState kernel parameters.
///
/// The handle itself never touches the filesystem: its caller performs each
/// file operation and hands the raw outcome back in. Setting parameters on a
/// real host will require root permissions.
pub struct PState {
    path: &'static str,
}

impl PState {
    /// The path the handle is bound to.
    pub closed spec fn spec_path(self) -> Seq<char> {
        self.path@
    }

    /// Attempt to fetch a handle to the Intel PState sysfs kernel instance,
    /// given whether the control directory is present on this host. An absent
    /// directory means the driver is not there.
    pub fn new(dir_present: bool) -> (r: Result<PState, PStateError>)
        ensures
            dir_present ==> (r matches Ok(p) && p.spec_path() == sysfs_dir()),
            !dir_present ==> (r matches Err(e) && e == PStateError::NotFound),
    {
        if dir_present {
            Ok(PState { path: "/sys/devices/system/cpu/intel_pstate" })
        } else {
            Err(PStateError::NotFound)
        }
    }

    /// The control directory's path.
    pub fn path(&self) -> (r: &'static str)
        ensures
            r@ == self.spec_path(),
    {
        self.path
    }

    /// Get the minimum performance percent, from the raw content of its file.
    pub fn min_perf_pct(&self, raw: Result<Vec<u8>, IoFault>) -> (r: Result<u8, PStateError>)
        ensures
            r == spec_min_perf_pct(raw),
    {
        match interpret(raw) {
            Ok(v) => Ok(v),
            Err(f) => Err(PStateError::GetMinPerf(f)),
        }
    }

    /// Get the maximum performance percent, from the raw content of its file.
    pub fn max_perf_pct(&self, raw: Result<Vec<u8>, IoFault>) -> (r: Result<u8, PStateError>)
        ensures
            r == spec_max_perf_pct(raw),
    {
        match interpret(raw) {
            Ok(v) => Ok(v),
            Err(f) => Err(PStateError::GetMaxPerf(f)),
        }
    }

    /// Whether turbo is disabled, from the raw content of the flag's file:
    /// true for any stored value above zero, false exactly for zero.
    pub fn no_turbo(&self, raw: Result<Vec<u8>, IoFault>) -> (r: Result<bool, PStateError>)
        ensures
            r == spec_no_turbo(raw),
    {
        match interpret(raw) {
            Ok(v) => Ok(v > 0),
            Err(f) => Err(PStateError::GetNoTurbo(f)),
        }
    }

    /// Stage the write that sets the minimum performance percent.
    pub fn set_min_perf_pct(&self, min: u8) -> (r: WriteRequest)
        ensures
            r.field == Field::MinPerfPct,
            r.value == FieldValue::Pct(min),
            r.wf(),
    {
        WriteRequest {
            field: Field::MinPerfPct,
            value: FieldValue::Pct(min),
            data: codec::render_pct(min),
        }
    }

    /// Stage the write that sets the maximum performance percent.
    pub fn set_max_perf_pct(&self, max: u8) -> (r: WriteRequest)
        ensures
            r.field == Field::MaxPerfPct,
            r.value == FieldValue::Pct(max),
            r.wf(),
    {
        WriteRequest {
            field: Field::MaxPerfPct,
            value: FieldValue::Pct(max),
            data: codec::render_pct(max),
        }
    }

    /// Stage the write that sets the turbo flag; `true` will disable turbo.
    pub fn set_no_turbo(&self, no_turbo: bool) -> (r: WriteRequest)
        ensures
            r.field == Field::NoTurbo,
            r.value == FieldValue::Flag(no_turbo),
            r.wf(),
    {
        WriteRequest {
            field: Field::NoTurbo,
            value: FieldValue::Flag(no_turbo),
            data: codec::render_flag(no_turbo),
        }
    }
}

/// Round trip: the bytes staged for writing a percentage read back as that
/// same value, for every value of the field's type, through both percentage
/// getters.
pub proof fn lemma_pct_round_trip(v: u8, raw: Result<Vec<u8>, IoFault>)
    requires
        raw matches Ok(d) && d@ == WriteRequest::rendered(FieldValue::Pct(v)),
    ensures
        spec_min_perf_pct(raw) == Ok::<u8, PStateError>(v),
        spec_max_perf_pct(raw) == Ok::<u8, PStateError>(v),
{
    codec::lemma_pct_text_round_trip(v);
}

/// Round trip for the turbo flag: the byte staged for either flag value reads
/// back as that flag.
pub proof fn lemma_flag_round_trip(b: bool, raw: Result<Vec<u8>, IoFault>)
    requires
        raw matches Ok(d) && d@ == WriteRequest::rendered(FieldValue::Flag(b)),
    ensures
        spec_no_turbo(raw) == Ok::<bool, PStateError>(b),
{
    codec::lemma_flag_text_round_trip(b);
}

/// The turbo flag read reports turbo disabled for any stored value above zero,
/// and enabled exactly for a stored zero.
pub proof fn lemma_no_turbo_nonzero(raw: Result<Vec<u8>, IoFault>, v: u8)
    requires
        interpret_read(raw) == Ok::<u8, IoFault>(v),
    ensures
        spec_no_turbo(raw) == Ok::<bool, PStateError>(v > 0),
        spec_no_turbo(raw) == Ok::<bool, PStateError>(false) <==> v == 0,
{
}

} // verus!
