//! Graphics processors: turning a device's readings into the record that
//! the GPU table reports.

use vstd::prelude::*;

use crate::table::{cells, column, columns_view, Cell, Column, ColumnType, Record, Value};

verus! {

/// A device's memory, in bytes.
#[derive(Clone, Copy, Debug, PartialEq, Eq, Structural)]
pub struct GpuMemory {
    pub total: u64,
    pub used: u64,
    pub free: u64,
}

/// A device's utilisation, in percent.
#[derive(Clone, Copy, Debug, PartialEq, Eq, Structural)]
pub struct GpuUtilization {
    pub gpu: u32,
    pub memory: u32,
}

/// What one device reported; a reading it could not give is absent.
#[derive(Debug)]
pub struct GpuReading {
    pub index: u32,
    pub name: Option<String>,
    pub memory: Option<GpuMemory>,
    pub temperature_celsius: Option<u32>,
    pub power_milliwatts: Option<u32>,
    pub utilization: Option<GpuUtilization>,
}

/// One device as the GPU table reports it.
#[derive(Debug)]
pub struct GpuInfo {
    pub index: u32,
    pub name: String,
    pub driver_version: String,
    pub memory_total_mb: u64,
    pub memory_used_mb: u64,
    pub memory_free_mb: u64,
    pub temperature_celsius: Option<u32>,
    pub power_usage_watts: Option<u32>,
    pub utilization_gpu_percent: Option<u32>,
    pub utilization_memory_percent: Option<u32>,
}

/// A byte count in whole megabytes of a million bytes.
pub open spec fn megabytes(b: u64) -> u64 {
    b / 1_000_000
}

/// The record for device reading `g` under the driver version `driver`:
/// a missing name reads `Unknown GPU`, a missing driver version `unknown`,
/// missing memory zero; memory is in whole megabytes and power in whole
/// watts.
pub open spec fn gpu_matches(o: GpuInfo, g: GpuReading, driver: Option<String>) -> bool {
    &&& o.index == g.index
    &&& o.name@ == match g.name {
        Some(n) => n@,
        None => "Unknown GPU"@,
    }
    &&& o.driver_version@ == match driver {
        Some(d) => d@,
        None => "unknown"@,
    }
    &&& match g.memory {
        Some(m) => o.memory_total_mb == megabytes(m.total) && o.memory_used_mb == megabytes(m.used)
            && o.memory_free_mb == megabytes(m.free),
        None => o.memory_total_mb == 0 && o.memory_used_mb == 0 && o.memory_free_mb == 0,
    }
    &&& o.temperature_celsius == g.temperature_celsius
    &&& o.power_usage_watts == match g.power_milliwatts {
        Some(mw) => Some((mw / 1000) as u32),
        None => None,
    }
    &&& o.utilization_gpu_percent == match g.utilization {
        Some(u) => Some(u.gpu),
        None => None,
    }
    &&& o.utilization_memory_percent == match g.utilization {
        Some(u) => Some(u.memory),
        None => None,
    }
}

/// The records for `readings`, in their order, under the driver version
/// `driver`.
pub fn collect_gpus(driver: &Option<String>, readings: &Vec<GpuReading>) -> (r: Vec<GpuInfo>)
    ensures
        r@.len() == readings@.len(),
        forall|i: int| 0 <= i < r@.len() ==> gpu_matches(#[trigger] r@[i], readings@[i], *driver),
{
    let mut out: Vec<GpuInfo> = Vec::new();
    for i in 0..readings.len()
        invariant
            out@.len() == i,
            forall|k: int|
                0 <= k < i ==> gpu_matches(#[trigger] out@[k], readings@[k], *driver),
    {
        let g = &readings[i];
        let name = match &g.name {
            Some(n) => n.clone(),
            None => String::from_str("Unknown GPU"),
        };
        let driver_version = match driver {
            Some(d) => d.clone(),
            None => String::from_str("unknown"),
        };
        let (total, used, free) = match g.memory {
            Some(m) => (m.total / 1_000_000, m.used / 1_000_000, m.free / 1_000_000),
            None => (0, 0, 0),
        };
        let power = match g.power_milliwatts {
            Some(mw) => Some(mw / 1000),
            None => None,
        };
        let (util_gpu, util_memory) = match g.utilization {
            Some(u) => (Some(u.gpu), Some(u.memory)),
            None => (None, None),
        };
        out.push(
            GpuInfo {
                index: g.index,
                name,
                driver_version,
                memory_total_mb: total,
                memory_used_mb: used,
                memory_free_mb: free,
                temperature_celsius: g.temperature_celsius,
                power_usage_watts: power,
                utilization_gpu_percent: util_gpu,
                utilization_memory_percent: util_memory,
            },
        );
    }
    out
}

/// A reading, or zero where it is absent, as a signed 32-bit value.
pub open spec fn int_or_zero(x: Option<u32>) -> i32 {
    match x {
        Some(v) => v as i32,
        None => 0,
    }
}

fn int_or_zero_of(x: Option<u32>) -> (r: i32)
    ensures
        r == int_or_zero(x),
{
    match x {
        Some(v) => #[verifier::truncate] (v as i32),
        None => 0,
    }
}

impl Record for GpuInfo {
    open spec fn spec_schema() -> Seq<(Seq<char>, ColumnType)> {
        seq![
            ("index"@, ColumnType::Integer),
            ("name"@, ColumnType::Varchar),
            ("driver_version"@, ColumnType::Varchar),
            ("memory_total_mb"@, ColumnType::BigInt),
            ("memory_used_mb"@, ColumnType::BigInt),
            ("memory_free_mb"@, ColumnType::BigInt),
            ("temperature_celsius"@, ColumnType::Integer),
            ("power_usage_watts"@, ColumnType::Integer),
            ("utilization_gpu_percent"@, ColumnType::Integer),
            ("utilization_memory_percent"@, ColumnType::Integer),
        ]
    }

    open spec fn spec_row(&self) -> Seq<Cell> {
        seq![
            Cell::Int(self.index as i32),
            Cell::Text(self.name@),
            Cell::Text(self.driver_version@),
            Cell::BigInt(self.memory_total_mb as i64),
            Cell::BigInt(self.memory_used_mb as i64),
            Cell::BigInt(self.memory_free_mb as i64),
            Cell::Int(int_or_zero(self.temperature_celsius)),
            Cell::Int(int_or_zero(self.power_usage_watts)),
            Cell::Int(int_or_zero(self.utilization_gpu_percent)),
            Cell::Int(int_or_zero(self.utilization_memory_percent)),
        ]
    }

    fn schema() -> (r: Vec<Column>) {
        let r = vec![
            column("index", ColumnType::Integer),
            column("name", ColumnType::Varchar),
            column("driver_version", ColumnType::Varchar),
            column("memory_total_mb", ColumnType::BigInt),
            column("memory_used_mb", ColumnType::BigInt),
            column("memory_free_mb", ColumnType::BigInt),
            column("temperature_celsius", ColumnType::Integer),
            column("power_usage_watts", ColumnType::Integer),
            column("utilization_gpu_percent", ColumnType::Integer),
            column("utilization_memory_percent", ColumnType::Integer),
        ];
        assert(columns_view(r@) =~= Self::spec_schema());
        r
    }

    fn row(&self) -> (r: Vec<Value>) {
        let r = vec![
            Value::Int(#[verifier::truncate] (self.index as i32)),
            Value::Text(self.name.clone()),
            Value::Text(self.driver_version.clone()),
            Value::BigInt(#[verifier::truncate] (self.memory_total_mb as i64)),
            Value::BigInt(#[verifier::truncate] (self.memory_used_mb as i64)),
            Value::BigInt(#[verifier::truncate] (self.memory_free_mb as i64)),
            Value::Int(int_or_zero_of(self.temperature_celsius)),
            Value::Int(int_or_zero_of(self.power_usage_watts)),
            Value::Int(int_or_zero_of(self.utilization_gpu_percent)),
            Value::Int(int_or_zero_of(self.utilization_memory_percent)),
        ];
        assert(cells(r@) =~= self.spec_row());
        r
    }
}

} // verus!
