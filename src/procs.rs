//! Process-level tables: processes, open file descriptors, users, the
//! environment, and temperature sensors.

use vstd::prelude::*;

use crate::host::{or_unknown, unknown_if_absent};
use crate::table::{
    cells, column, columns_view, usage_percent, usage_share, Cell, Column, ColumnType, Real,
    Record, Value,
};
use crate::text::{chars_of, contains, has_infix, lower_of, to_lower};

verus! {

/// The run state of a process.
#[derive(Clone, Copy, Debug, PartialEq, Eq, Structural)]
pub enum ProcState {
    Run,
    Sleep,
    Stop,
    Zombie,
    Idle,
    Other,
}

/// The text reported for a run state.
pub open spec fn state_label(s: ProcState) -> Seq<char> {
    match s {
        ProcState::Run => "Running"@,
        ProcState::Sleep => "Sleeping"@,
        ProcState::Stop => "Stopped"@,
        ProcState::Zombie => "Zombie"@,
        ProcState::Idle => "Idle"@,
        ProcState::Other => "Unknown"@,
    }
}

impl ProcState {
    /// The text reported for this run state.
    pub fn label(&self) -> (r: &'static str)
        ensures
            r@ == state_label(*self),
    {
        match self {
            ProcState::Run => "Running",
            ProcState::Sleep => "Sleeping",
            ProcState::Stop => "Stopped",
            ProcState::Zombie => "Zombie",
            ProcState::Idle => "Idle",
            ProcState::Other => "Unknown",
        }
    }
}

/// The text given, or nothing where there is none.
pub open spec fn or_empty(s: Option<String>) -> Seq<char> {
    match s {
        Some(t) => t@,
        None => Seq::empty(),
    }
}

/// One process, and the host's total memory, against which its memory use
/// is reported.
#[derive(Debug)]
pub struct ProcessInfo {
    pub pid: u32,
    pub name: String,
    pub exe_path: Option<String>,
    pub status: ProcState,
    /// Bit pattern of the `f32` processor usage in percent.
    pub cpu_bits: u32,
    pub memory_bytes: u64,
    pub start_time: u64,
    pub run_time: u64,
    /// The owner's user id, as text.
    pub user: Option<String>,
    pub total_memory: u64,
}

impl Record for ProcessInfo {
    open spec fn spec_schema() -> Seq<(Seq<char>, ColumnType)> {
        seq![
            ("pid"@, ColumnType::UInteger),
            ("name"@, ColumnType::Varchar),
            ("exe_path"@, ColumnType::Varchar),
            ("status"@, ColumnType::Varchar),
            ("cpu_percent"@, ColumnType::Float),
            ("memory_bytes"@, ColumnType::UBigInt),
            ("memory_percent"@, ColumnType::Float),
            ("start_time"@, ColumnType::UBigInt),
            ("run_time_seconds"@, ColumnType::UBigInt),
            ("user"@, ColumnType::Varchar),
        ]
    }

    open spec fn spec_row(&self) -> Seq<Cell> {
        seq![
            Cell::UInt(self.pid),
            Cell::Text(self.name@),
            Cell::Text(or_empty(self.exe_path)),
            Cell::Text(state_label(self.status)),
            Cell::Float(Real::Reading(self.cpu_bits as u64)),
            Cell::UBigInt(self.memory_bytes),
            Cell::Float(usage_share(self.memory_bytes, self.total_memory)),
            Cell::UBigInt(self.start_time),
            Cell::UBigInt(self.run_time),
            Cell::Text(or_unknown(self.user)),
        ]
    }

    fn schema() -> (r: Vec<Column>) {
        let r = vec![
            column("pid", ColumnType::UInteger),
            column("name", ColumnType::Varchar),
            column("exe_path", ColumnType::Varchar),
            column("status", ColumnType::Varchar),
            column("cpu_percent", ColumnType::Float),
            column("memory_bytes", ColumnType::UBigInt),
            column("memory_percent", ColumnType::Float),
            column("start_time", ColumnType::UBigInt),
            column("run_time_seconds", ColumnType::UBigInt),
            column("user", ColumnType::Varchar),
        ];
        assert(columns_view(r@) =~= Self::spec_schema());
        r
    }

    fn row(&self) -> (r: Vec<Value>) {
        let exe = match &self.exe_path {
            Some(p) => p.clone(),
            None => String::new(),
        };
        let r = vec![
            Value::UInt(self.pid),
            Value::Text(self.name.clone()),
            Value::Text(exe),
            Value::Text(String::from_str(self.status.label())),
            Value::Float(Real::Reading(self.cpu_bits as u64)),
            Value::UBigInt(self.memory_bytes),
            Value::Float(usage_percent(self.memory_bytes, self.total_memory)),
            Value::UBigInt(self.start_time),
            Value::UBigInt(self.run_time),
            Value::Text(unknown_if_absent(&self.user)),
        ];
        assert(cells(r@) =~= self.spec_row());
        r
    }
}

/// A process with the pid `pid` passes the filter `filter`: there is none,
/// or it names that pid.
pub open spec fn pid_passes(filter: Option<u32>, pid: u32) -> bool {
    match filter {
        Some(f) => pid == f,
        None => true,
    }
}

/// Whether a process with the pid `pid` passes the filter `filter`.
pub fn pid_selected(filter: Option<u32>, pid: u32) -> (r: bool)
    ensures
        r == pid_passes(filter, pid),
{
    match filter {
        Some(f) => pid == f,
        None => true,
    }
}

/// How many file descriptors one process holds open.
#[derive(Debug)]
pub struct FdInfo {
    pub pid: u32,
    pub process_name: String,
    pub fd_count: u64,
}

impl FdInfo {
    /// A copy of this record.
    pub fn duplicate(&self) -> (r: FdInfo)
        ensures
            r == *self,
    {
        FdInfo { pid: self.pid, process_name: self.process_name.clone(), fd_count: self.fd_count }
    }
}

/// The record reported for `f` under the filter `filter`, if any.
pub open spec fn reported_fd(filter: Option<u32>, f: FdInfo) -> Option<FdInfo> {
    if pid_passes(filter, f.pid) {
        Some(f)
    } else {
        None
    }
}

/// The records of the processes that pass the filter, in their order.
pub fn collect_fds(all: &Vec<FdInfo>, filter: Option<u32>) -> (r: Vec<FdInfo>)
    ensures
        r@ == all@.filter_map(|f: FdInfo| reported_fd(filter, f)),
{
    let mut out: Vec<FdInfo> = Vec::new();
    for i in 0..all.len()
        invariant
            out@ == all@.take(i as int).filter_map(|f: FdInfo| reported_fd(filter, f)),
    {
        assert(all@.take(i + 1).drop_last() =~= all@.take(i as int));
        if pid_selected(filter, all[i].pid) {
            out.push(all[i].duplicate());
        }
    }
    assert(all@.take(all@.len() as int) =~= all@);
    out
}

impl Record for FdInfo {
    open spec fn spec_schema() -> Seq<(Seq<char>, ColumnType)> {
        seq![
            ("pid"@, ColumnType::Integer),
            ("process_name"@, ColumnType::Varchar),
            ("fd_count"@, ColumnType::Integer),
        ]
    }

    open spec fn spec_row(&self) -> Seq<Cell> {
        seq![
            Cell::Int(self.pid as i32),
            Cell::Text(self.process_name@),
            Cell::Int(self.fd_count as i32),
        ]
    }

    fn schema() -> (r: Vec<Column>) {
        let r = vec![
            column("pid", ColumnType::Integer),
            column("process_name", ColumnType::Varchar),
            column("fd_count", ColumnType::Integer),
        ];
        assert(columns_view(r@) =~= Self::spec_schema());
        r
    }

    fn row(&self) -> (r: Vec<Value>) {
        let r = vec![
            Value::Int(#[verifier::truncate] (self.pid as i32)),
            Value::Text(self.process_name.clone()),
            Value::Int(#[verifier::truncate] (self.fd_count as i32)),
        ];
        assert(cells(r@) =~= self.spec_row());
        r
    }
}

/// One user account.
#[derive(Debug)]
pub struct UserInfo {
    pub uid: String,
    pub gid: String,
    pub name: String,
}

impl Record for UserInfo {
    open spec fn spec_schema() -> Seq<(Seq<char>, ColumnType)> {
        seq![
            ("uid"@, ColumnType::Varchar),
            ("gid"@, ColumnType::Varchar),
            ("name"@, ColumnType::Varchar),
        ]
    }

    open spec fn spec_row(&self) -> Seq<Cell> {
        seq![Cell::Text(self.uid@), Cell::Text(self.gid@), Cell::Text(self.name@)]
    }

    fn schema() -> (r: Vec<Column>) {
        let r = vec![
            column("uid", ColumnType::Varchar),
            column("gid", ColumnType::Varchar),
            column("name", ColumnType::Varchar),
        ];
        assert(columns_view(r@) =~= Self::spec_schema());
        r
    }

    fn row(&self) -> (r: Vec<Value>) {
        let r = vec![
            Value::Text(self.uid.clone()),
            Value::Text(self.gid.clone()),
            Value::Text(self.name.clone()),
        ];
        assert(cells(r@) =~= self.spec_row());
        r
    }
}

/// One environment variable.
#[derive(Debug)]
pub struct EnvVar {
    pub name: String,
    pub value: String,
}

impl EnvVar {
    /// A copy of this variable.
    pub fn duplicate(&self) -> (r: EnvVar)
        ensures
            r == *self,
    {
        EnvVar { name: self.name.clone(), value: self.value.clone() }
    }
}

/// Whether a lower-case variable name holds a lower-case filter.
pub fn name_matches_lowered(name_lower: &str, filter_lower: &str) -> (r: bool)
    ensures
        r == has_infix(name_lower@, filter_lower@),
{
    contains(&chars_of(name_lower), &chars_of(filter_lower))
}

/// A variable named `name` passes the filter `filter`: there is none, or
/// the name holds it, both read without regard to case.
pub open spec fn env_passes(filter: Option<String>, name: Seq<char>) -> bool {
    match filter {
        Some(f) => has_infix(lower_of(name), lower_of(f@)),
        None => true,
    }
}

/// The variable reported for `v` under the filter `filter`, if any.
pub open spec fn reported_var(filter: Option<String>, v: EnvVar) -> Option<EnvVar> {
    if env_passes(filter, v.name@) {
        Some(v)
    } else {
        None
    }
}

/// The variables whose names pass the filter, in their order.
pub fn collect_environment(vars: &Vec<EnvVar>, filter: &Option<String>) -> (r: Vec<EnvVar>)
    ensures
        r@ == vars@.filter_map(|v: EnvVar| reported_var(*filter, v)),
{
    let lowered_filter = match filter {
        Some(f) => Some(to_lower(f.as_str())),
        None => None,
    };
    let mut out: Vec<EnvVar> = Vec::new();
    for i in 0..vars.len()
        invariant
            out@ == vars@.take(i as int).filter_map(|v: EnvVar| reported_var(*filter, v)),
            match *filter {
                Some(f) => lowered_filter matches Some(l) && l@ == lower_of(f@),
                None => lowered_filter is None,
            },
    {
        assert(vars@.take(i + 1).drop_last() =~= vars@.take(i as int));
        let keep = match &lowered_filter {
            Some(l) => {
                let name_lower = to_lower(vars[i].name.as_str());
                name_matches_lowered(name_lower.as_str(), l.as_str())
            },
            None => true,
        };
        if keep {
            out.push(vars[i].duplicate());
        }
    }
    assert(vars@.take(vars@.len() as int) =~= vars@);
    out
}

impl Record for EnvVar {
    open spec fn spec_schema() -> Seq<(Seq<char>, ColumnType)> {
        seq![("name"@, ColumnType::Varchar), ("value"@, ColumnType::Varchar)]
    }

    open spec fn spec_row(&self) -> Seq<Cell> {
        seq![Cell::Text(self.name@), Cell::Text(self.value@)]
    }

    fn schema() -> (r: Vec<Column>) {
        let r = vec![column("name", ColumnType::Varchar), column("value", ColumnType::Varchar)];
        assert(columns_view(r@) =~= Self::spec_schema());
        r
    }

    fn row(&self) -> (r: Vec<Value>) {
        let r = vec![Value::Text(self.name.clone()), Value::Text(self.value.clone())];
        assert(cells(r@) =~= self.spec_row());
        r
    }
}

/// One temperature sensor; temperatures are bit patterns of `f32` readings
/// in degrees Celsius.
#[derive(Debug)]
pub struct ComponentInfo {
    pub label: String,
    pub temperature_bits: u32,
    pub max_bits: u32,
    pub critical_bits: Option<u32>,
}

impl Record for ComponentInfo {
    open spec fn spec_schema() -> Seq<(Seq<char>, ColumnType)> {
        seq![
            ("label"@, ColumnType::Varchar),
            ("temperature_celsius"@, ColumnType::Float),
            ("max_temperature_celsius"@, ColumnType::Float),
            ("critical_temperature_celsius"@, ColumnType::Float),
        ]
    }

    /// A sensor without a critical temperature reports zero, whose bit
    /// pattern is all zeros.
    open spec fn spec_row(&self) -> Seq<Cell> {
        seq![
            Cell::Text(self.label@),
            Cell::Float(Real::Reading(self.temperature_bits as u64)),
            Cell::Float(Real::Reading(self.max_bits as u64)),
            Cell::Float(
                Real::Reading(
                    match self.critical_bits {
                        Some(b) => b as u64,
                        None => 0,
                    },
                ),
            ),
        ]
    }

    fn schema() -> (r: Vec<Column>) {
        let r = vec![
            column("label", ColumnType::Varchar),
            column("temperature_celsius", ColumnType::Float),
            column("max_temperature_celsius", ColumnType::Float),
            column("critical_temperature_celsius", ColumnType::Float),
        ];
        assert(columns_view(r@) =~= Self::spec_schema());
        r
    }

    fn row(&self) -> (r: Vec<Value>) {
        let critical: u64 = match self.critical_bits {
            Some(b) => b as u64,
            None => 0,
        };
        let r = vec![
            Value::Text(self.label.clone()),
            Value::Float(Real::Reading(self.temperature_bits as u64)),
            Value::Float(Real::Reading(self.max_bits as u64)),
            Value::Float(Real::Reading(critical)),
        ];
        assert(cells(r@) =~= self.spec_row());
        r
    }
}

} // verus!
