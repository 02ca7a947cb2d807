//! Whole-host tables: processors, memory, swap, the operating system, load,
//! uptime and the library's own version.

use vstd::prelude::*;

use crate::table::{
    cells, column, columns_view, usage_percent, usage_share, Cell, Column, ColumnType, Real,
    Record, Value,
};
use crate::text::{decimal_digits, decimal_text};
use crate::units::{unit_divisor, unit_label, SizeUnit};

verus! {

/// Relies on `u16::from_ne_bytes`: the bytes read in the machine's own
/// order, which is either little- or big-endian.
#[verifier::external_body]
fn native_u16(bytes: [u8; 2]) -> (r: u16)
    ensures
        r == bytes[0] + 256 * bytes[1] || r == bytes[1] + 256 * bytes[0],
{
    u16::from_ne_bytes(bytes)
}

/// The byte order of this machine, by name.
pub fn get_byte_order() -> (r: &'static str)
    ensures
        r@ == "Little Endian"@ || r@ == "Big Endian"@,
{
    if native_u16([1, 0]) == 1 {
        "Little Endian"
    } else {
        "Big Endian"
    }
}

/// The text reported for a value that the host did not give.
pub open spec fn or_unknown(s: Option<String>) -> Seq<char> {
    match s {
        Some(t) => t@,
        None => "Unknown"@,
    }
}

/// The text given, or `Unknown` where there is none.
pub fn unknown_if_absent(s: &Option<String>) -> (r: String)
    ensures
        r@ == or_unknown(*s),
{
    match s {
        Some(t) => t.clone(),
        None => String::from_str("Unknown"),
    }
}

/// One processor as the host reports it.
#[derive(Debug)]
pub struct CpuReading {
    pub name: String,
    /// Bit pattern of the `f32` usage in percent.
    pub usage_bits: u32,
    pub frequency_mhz: u64,
    pub brand: String,
    pub vendor_id: String,
}

/// One processor, numbered by its place in the host's list.
#[derive(Debug)]
pub struct CpuInfo {
    pub core_id: u64,
    pub name: String,
    /// Bit pattern of the `f32` usage in percent.
    pub usage_bits: u32,
    pub frequency_mhz: u64,
    pub brand: String,
    pub vendor_id: String,
    pub byte_order: String,
}

/// The processor records for `readings`, numbered from zero in their order,
/// each with the machine's byte order.
pub fn collect_cpus(readings: &Vec<CpuReading>, byte_order: &str) -> (r: Vec<CpuInfo>)
    ensures
        r@.len() == readings@.len(),
        forall|i: int|
            0 <= i < r@.len() ==> {
                let c = #[trigger] r@[i];
                let g = readings@[i];
                &&& c.core_id == i
                &&& c.name == g.name
                &&& c.usage_bits == g.usage_bits
                &&& c.frequency_mhz == g.frequency_mhz
                &&& c.brand == g.brand
                &&& c.vendor_id == g.vendor_id
                &&& c.byte_order@ == byte_order@
            },
{
    let mut out: Vec<CpuInfo> = Vec::new();
    for i in 0..readings.len()
        invariant
            out@.len() == i,
            forall|k: int|
                0 <= k < i ==> {
                    let c = #[trigger] out@[k];
                    let g = readings@[k];
                    &&& c.core_id == k
                    &&& c.name == g.name
                    &&& c.usage_bits == g.usage_bits
                    &&& c.frequency_mhz == g.frequency_mhz
                    &&& c.brand == g.brand
                    &&& c.vendor_id == g.vendor_id
                    &&& c.byte_order@ == byte_order@
                },
    {
        let g = &readings[i];
        out.push(
            CpuInfo {
                core_id: i as u64,
                name: g.name.clone(),
                usage_bits: g.usage_bits,
                frequency_mhz: g.frequency_mhz,
                brand: g.brand.clone(),
                vendor_id: g.vendor_id.clone(),
                byte_order: String::from_str(byte_order),
            },
        );
    }
    out
}

impl Record for CpuInfo {
    open spec fn spec_schema() -> Seq<(Seq<char>, ColumnType)> {
        seq![
            ("core_id"@, ColumnType::UBigInt),
            ("name"@, ColumnType::Varchar),
            ("usage_percent"@, ColumnType::Float),
            ("frequency_mhz"@, ColumnType::UBigInt),
            ("brand"@, ColumnType::Varchar),
            ("vendor_id"@, ColumnType::Varchar),
            ("byte_order"@, ColumnType::Varchar),
        ]
    }

    open spec fn spec_row(&self) -> Seq<Cell> {
        seq![
            Cell::UBigInt(self.core_id),
            Cell::Text(self.name@),
            Cell::Float(Real::Reading(self.usage_bits as u64)),
            Cell::UBigInt(self.frequency_mhz),
            Cell::Text(self.brand@),
            Cell::Text(self.vendor_id@),
            Cell::Text(self.byte_order@),
        ]
    }

    fn schema() -> (r: Vec<Column>) {
        let r = vec![
            column("core_id", ColumnType::UBigInt),
            column("name", ColumnType::Varchar),
            column("usage_percent", ColumnType::Float),
            column("frequency_mhz", ColumnType::UBigInt),
            column("brand", ColumnType::Varchar),
            column("vendor_id", ColumnType::Varchar),
            column("byte_order", ColumnType::Varchar),
        ];
        assert(columns_view(r@) =~= Self::spec_schema());
        r
    }

    fn row(&self) -> (r: Vec<Value>) {
        let r = vec![
            Value::UBigInt(self.core_id),
            Value::Text(self.name.clone()),
            Value::Float(Real::Reading(self.usage_bits as u64)),
            Value::UBigInt(self.frequency_mhz),
            Value::Text(self.brand.clone()),
            Value::Text(self.vendor_id.clone()),
            Value::Text(self.byte_order.clone()),
        ];
        assert(cells(r@) =~= self.spec_row());
        r
    }
}

/// One processor core, numbered by its place in the host's list.
#[derive(Debug)]
pub struct CpuCoreInfo {
    pub core_id: u64,
    /// Bit pattern of the `f32` usage in percent.
    pub usage_bits: u32,
    pub frequency_mhz: u64,
    pub vendor: String,
    pub brand: String,
}

/// The core records for `readings`, numbered from zero in their order.
pub fn collect_cores(readings: &Vec<CpuReading>) -> (r: Vec<CpuCoreInfo>)
    ensures
        r@.len() == readings@.len(),
        forall|i: int|
            0 <= i < r@.len() ==> {
                let c = #[trigger] r@[i];
                let g = readings@[i];
                &&& c.core_id == i
                &&& c.usage_bits == g.usage_bits
                &&& c.frequency_mhz == g.frequency_mhz
                &&& c.vendor == g.vendor_id
                &&& c.brand == g.brand
            },
{
    let mut out: Vec<CpuCoreInfo> = Vec::new();
    for i in 0..readings.len()
        invariant
            out@.len() == i,
            forall|k: int|
                0 <= k < i ==> {
                    let c = #[trigger] out@[k];
                    let g = readings@[k];
                    &&& c.core_id == k
                    &&& c.usage_bits == g.usage_bits
                    &&& c.frequency_mhz == g.frequency_mhz
                    &&& c.vendor == g.vendor_id
                    &&& c.brand == g.brand
                },
    {
        let g = &readings[i];
        out.push(
            CpuCoreInfo {
                core_id: i as u64,
                usage_bits: g.usage_bits,
                frequency_mhz: g.frequency_mhz,
                vendor: g.vendor_id.clone(),
                brand: g.brand.clone(),
            },
        );
    }
    out
}

impl Record for CpuCoreInfo {
    open spec fn spec_schema() -> Seq<(Seq<char>, ColumnType)> {
        seq![
            ("core_id"@, ColumnType::Integer),
            ("usage_percent"@, ColumnType::Float),
            ("frequency_mhz"@, ColumnType::BigInt),
            ("vendor"@, ColumnType::Varchar),
            ("brand"@, ColumnType::Varchar),
        ]
    }

    open spec fn spec_row(&self) -> Seq<Cell> {
        seq![
            Cell::Int(self.core_id as i32),
            Cell::Float(Real::Reading(self.usage_bits as u64)),
            Cell::BigInt(self.frequency_mhz as i64),
            Cell::Text(self.vendor@),
            Cell::Text(self.brand@),
        ]
    }

    fn schema() -> (r: Vec<Column>) {
        let r = vec![
            column("core_id", ColumnType::Integer),
            column("usage_percent", ColumnType::Float),
            column("frequency_mhz", ColumnType::BigInt),
            column("vendor", ColumnType::Varchar),
            column("brand", ColumnType::Varchar),
        ];
        assert(columns_view(r@) =~= Self::spec_schema());
        r
    }

    fn row(&self) -> (r: Vec<Value>) {
        let r = vec![
            Value::Int(#[verifier::truncate] (self.core_id as i32)),
            Value::Float(Real::Reading(self.usage_bits as u64)),
            Value::BigInt(#[verifier::truncate] (self.frequency_mhz as i64)),
            Value::Text(self.vendor.clone()),
            Value::Text(self.brand.clone()),
        ];
        assert(cells(r@) =~= self.spec_row());
        r
    }
}

/// Memory and swap sizes in bytes, and the unit to report them in.
#[derive(Debug)]
pub struct MemoryInfo {
    pub unit: SizeUnit,
    pub total_memory: u64,
    pub used_memory: u64,
    pub free_memory: u64,
    pub available_memory: u64,
    pub total_swap: u64,
    pub used_swap: u64,
    pub free_swap: u64,
}

impl Record for MemoryInfo {
    open spec fn spec_schema() -> Seq<(Seq<char>, ColumnType)> {
        seq![
            ("unit"@, ColumnType::Varchar),
            ("total_memory"@, ColumnType::Double),
            ("used_memory"@, ColumnType::Double),
            ("free_memory"@, ColumnType::Double),
            ("available_memory"@, ColumnType::Double),
            ("memory_usage_percent"@, ColumnType::Float),
            ("total_swap"@, ColumnType::Double),
            ("used_swap"@, ColumnType::Double),
            ("free_swap"@, ColumnType::Double),
            ("swap_usage_percent"@, ColumnType::Float),
        ]
    }

    open spec fn spec_row(&self) -> Seq<Cell> {
        let d = unit_divisor(self.unit) as u64;
        seq![
            Cell::Text(unit_label(self.unit)),
            Cell::Double(Real::Ratio(self.total_memory, d)),
            Cell::Double(Real::Ratio(self.used_memory, d)),
            Cell::Double(Real::Ratio(self.free_memory, d)),
            Cell::Double(Real::Ratio(self.available_memory, d)),
            Cell::Float(usage_share(self.used_memory, self.total_memory)),
            Cell::Double(Real::Ratio(self.total_swap, d)),
            Cell::Double(Real::Ratio(self.used_swap, d)),
            Cell::Double(Real::Ratio(self.free_swap, d)),
            Cell::Float(usage_share(self.used_swap, self.total_swap)),
        ]
    }

    fn schema() -> (r: Vec<Column>) {
        let r = vec![
            column("unit", ColumnType::Varchar),
            column("total_memory", ColumnType::Double),
            column("used_memory", ColumnType::Double),
            column("free_memory", ColumnType::Double),
            column("available_memory", ColumnType::Double),
            column("memory_usage_percent", ColumnType::Float),
            column("total_swap", ColumnType::Double),
            column("used_swap", ColumnType::Double),
            column("free_swap", ColumnType::Double),
            column("swap_usage_percent", ColumnType::Float),
        ];
        assert(columns_view(r@) =~= Self::spec_schema());
        r
    }

    fn row(&self) -> (r: Vec<Value>) {
        let d = self.unit.divisor();
        let r = vec![
            Value::Text(String::from_str(self.unit.name())),
            Value::Double(Real::Ratio(self.total_memory, d)),
            Value::Double(Real::Ratio(self.used_memory, d)),
            Value::Double(Real::Ratio(self.free_memory, d)),
            Value::Double(Real::Ratio(self.available_memory, d)),
            Value::Float(usage_percent(self.used_memory, self.total_memory)),
            Value::Double(Real::Ratio(self.total_swap, d)),
            Value::Double(Real::Ratio(self.used_swap, d)),
            Value::Double(Real::Ratio(self.free_swap, d)),
            Value::Float(usage_percent(self.used_swap, self.total_swap)),
        ];
        assert(cells(r@) =~= self.spec_row());
        r
    }
}

/// Swap sizes in bytes, and the unit to report them in.
#[derive(Debug)]
pub struct SwapInfo {
    pub unit: SizeUnit,
    pub total_swap: u64,
    pub used_swap: u64,
    pub free_swap: u64,
}

impl Record for SwapInfo {
    open spec fn spec_schema() -> Seq<(Seq<char>, ColumnType)> {
        seq![
            ("total_swap"@, ColumnType::Double),
            ("used_swap"@, ColumnType::Double),
            ("free_swap"@, ColumnType::Double),
            ("swap_usage_percent"@, ColumnType::Double),
            ("unit"@, ColumnType::Varchar),
        ]
    }

    open spec fn spec_row(&self) -> Seq<Cell> {
        let d = unit_divisor(self.unit) as u64;
        seq![
            Cell::Double(Real::Ratio(self.total_swap, d)),
            Cell::Double(Real::Ratio(self.used_swap, d)),
            Cell::Double(Real::Ratio(self.free_swap, d)),
            Cell::Double(usage_share(self.used_swap, self.total_swap)),
            Cell::Text(unit_label(self.unit)),
        ]
    }

    fn schema() -> (r: Vec<Column>) {
        let r = vec![
            column("total_swap", ColumnType::Double),
            column("used_swap", ColumnType::Double),
            column("free_swap", ColumnType::Double),
            column("swap_usage_percent", ColumnType::Double),
            column("unit", ColumnType::Varchar),
        ];
        assert(columns_view(r@) =~= Self::spec_schema());
        r
    }

    fn row(&self) -> (r: Vec<Value>) {
        let d = self.unit.divisor();
        let r = vec![
            Value::Double(Real::Ratio(self.total_swap, d)),
            Value::Double(Real::Ratio(self.used_swap, d)),
            Value::Double(Real::Ratio(self.free_swap, d)),
            Value::Double(usage_percent(self.used_swap, self.total_swap)),
            Value::Text(String::from_str(self.unit.name())),
        ];
        assert(cells(r@) =~= self.spec_row());
        r
    }
}

/// Load averages over one, five and fifteen minutes, as bit patterns of
/// `f64` readings.
#[derive(Debug)]
pub struct LoadInfo {
    pub one_bits: u64,
    pub five_bits: u64,
    pub fifteen_bits: u64,
}

impl Record for LoadInfo {
    open spec fn spec_schema() -> Seq<(Seq<char>, ColumnType)> {
        seq![
            ("load_1min"@, ColumnType::Double),
            ("load_5min"@, ColumnType::Double),
            ("load_15min"@, ColumnType::Double),
        ]
    }

    open spec fn spec_row(&self) -> Seq<Cell> {
        seq![
            Cell::Double(Real::Reading(self.one_bits)),
            Cell::Double(Real::Reading(self.five_bits)),
            Cell::Double(Real::Reading(self.fifteen_bits)),
        ]
    }

    fn schema() -> (r: Vec<Column>) {
        let r = vec![
            column("load_1min", ColumnType::Double),
            column("load_5min", ColumnType::Double),
            column("load_15min", ColumnType::Double),
        ];
        assert(columns_view(r@) =~= Self::spec_schema());
        r
    }

    fn row(&self) -> (r: Vec<Value>) {
        let r = vec![
            Value::Double(Real::Reading(self.one_bits)),
            Value::Double(Real::Reading(self.five_bits)),
            Value::Double(Real::Reading(self.fifteen_bits)),
        ];
        assert(cells(r@) =~= self.spec_row());
        r
    }
}

/// The version of this library, as text.
#[derive(Debug)]
pub struct VersionInfo {
    pub version: String,
}

impl VersionInfo {
    /// The version of this library.
    pub fn current() -> (r: VersionInfo)
        ensures
            r.version@ == "0.3.0"@,
    {
        VersionInfo { version: String::from_str("0.3.0") }
    }
}

impl Record for VersionInfo {
    open spec fn spec_schema() -> Seq<(Seq<char>, ColumnType)> {
        seq![("version"@, ColumnType::Varchar)]
    }

    open spec fn spec_row(&self) -> Seq<Cell> {
        seq![Cell::Text(self.version@)]
    }

    fn schema() -> (r: Vec<Column>) {
        let r = vec![column("version", ColumnType::Varchar)];
        assert(columns_view(r@) =~= Self::spec_schema());
        r
    }

    fn row(&self) -> (r: Vec<Value>) {
        let r = vec![Value::Text(self.version.clone())];
        assert(cells(r@) =~= self.spec_row());
        r
    }
}

/// Uptime `s` seconds written as days, hours, minutes and seconds:
/// `<d>d <h>h <m>m <s>s`.
pub open spec fn uptime_text(s: nat) -> Seq<char> {
    decimal_digits(s / 86400) + "d "@ + decimal_digits((s % 86400) / 3600) + "h "@
        + decimal_digits((s % 3600) / 60) + "m "@ + decimal_digits(s % 60) + "s"@
}

/// Uptime `secs` seconds written as days, hours, minutes and seconds.
pub fn format_uptime(secs: u64) -> (r: String)
    ensures
        r@ == uptime_text(secs as nat),
{
    let mut out = decimal_text(secs / 86400);
    out.append("d ");
    let hours = decimal_text((secs % 86400) / 3600);
    out.append(hours.as_str());
    out.append("h ");
    let minutes = decimal_text((secs % 3600) / 60);
    out.append(minutes.as_str());
    out.append("m ");
    let seconds = decimal_text(secs % 60);
    out.append(seconds.as_str());
    out.append("s");
    out
}

/// Seconds since boot, and the boot time in seconds since the epoch.
#[derive(Debug)]
pub struct UptimeInfo {
    pub uptime_seconds: u64,
    pub boot_time: u64,
}

impl Record for UptimeInfo {
    open spec fn spec_schema() -> Seq<(Seq<char>, ColumnType)> {
        seq![
            ("uptime_seconds"@, ColumnType::BigInt),
            ("uptime_minutes"@, ColumnType::Double),
            ("uptime_hours"@, ColumnType::Double),
            ("uptime_days"@, ColumnType::Double),
            ("uptime_formatted"@, ColumnType::Varchar),
            ("boot_time_epoch"@, ColumnType::BigInt),
        ]
    }

    open spec fn spec_row(&self) -> Seq<Cell> {
        seq![
            Cell::BigInt(self.uptime_seconds as i64),
            Cell::Double(Real::Ratio(self.uptime_seconds, 60)),
            Cell::Double(Real::Ratio(self.uptime_seconds, 3600)),
            Cell::Double(Real::Ratio(self.uptime_seconds, 86400)),
            Cell::Text(uptime_text(self.uptime_seconds as nat)),
            Cell::BigInt(self.boot_time as i64),
        ]
    }

    fn schema() -> (r: Vec<Column>) {
        let r = vec![
            column("uptime_seconds", ColumnType::BigInt),
            column("uptime_minutes", ColumnType::Double),
            column("uptime_hours", ColumnType::Double),
            column("uptime_days", ColumnType::Double),
            column("uptime_formatted", ColumnType::Varchar),
            column("boot_time_epoch", ColumnType::BigInt),
        ];
        assert(columns_view(r@) =~= Self::spec_schema());
        r
    }

    fn row(&self) -> (r: Vec<Value>) {
        let r = vec![
            Value::BigInt(#[verifier::truncate] (self.uptime_seconds as i64)),
            Value::Double(Real::Ratio(self.uptime_seconds, 60)),
            Value::Double(Real::Ratio(self.uptime_seconds, 3600)),
            Value::Double(Real::Ratio(self.uptime_seconds, 86400)),
            Value::Text(format_uptime(self.uptime_seconds)),
            Value::BigInt(#[verifier::truncate] (self.boot_time as i64)),
        ];
        assert(cells(r@) =~= self.spec_row());
        r
    }
}

/// The operating system as the host reports it; a field that the host
/// could not give is absent.
#[derive(Debug)]
pub struct OsReading {
    pub os_name: Option<String>,
    pub os_version: Option<String>,
    pub kernel_version: Option<String>,
    pub hostname: Option<String>,
    pub architecture: Option<String>,
    pub distribution_id: String,
    pub uptime_seconds: u64,
    pub boot_time: u64,
    pub process_count: u64,
}

/// The operating system, with `Unknown` for what the host could not give.
#[derive(Debug)]
pub struct OsInfo {
    pub os_name: String,
    pub os_version: String,
    pub kernel_version: String,
    pub hostname: String,
    pub architecture: String,
    pub distribution_id: String,
    pub uptime_seconds: u64,
    pub boot_time: u64,
    pub process_count: u64,
}

impl OsInfo {
    /// The record for reading `r`.
    pub fn from_reading(r: &OsReading) -> (o: OsInfo)
        ensures
            o.os_name@ == or_unknown(r.os_name),
            o.os_version@ == or_unknown(r.os_version),
            o.kernel_version@ == or_unknown(r.kernel_version),
            o.hostname@ == or_unknown(r.hostname),
            o.architecture@ == or_unknown(r.architecture),
            o.distribution_id == r.distribution_id,
            o.uptime_seconds == r.uptime_seconds,
            o.boot_time == r.boot_time,
            o.process_count == r.process_count,
    {
        OsInfo {
            os_name: unknown_if_absent(&r.os_name),
            os_version: unknown_if_absent(&r.os_version),
            kernel_version: unknown_if_absent(&r.kernel_version),
            hostname: unknown_if_absent(&r.hostname),
            architecture: unknown_if_absent(&r.architecture),
            distribution_id: r.distribution_id.clone(),
            uptime_seconds: r.uptime_seconds,
            boot_time: r.boot_time,
            process_count: r.process_count,
        }
    }
}

impl Record for OsInfo {
    open spec fn spec_schema() -> Seq<(Seq<char>, ColumnType)> {
        seq![
            ("os_name"@, ColumnType::Varchar),
            ("os_version"@, ColumnType::Varchar),
            ("kernel_version"@, ColumnType::Varchar),
            ("hostname"@, ColumnType::Varchar),
            ("architecture"@, ColumnType::Varchar),
            ("distribution_id"@, ColumnType::Varchar),
            ("uptime_seconds"@, ColumnType::UBigInt),
            ("boot_time"@, ColumnType::UBigInt),
            ("process_count"@, ColumnType::UBigInt),
        ]
    }

    open spec fn spec_row(&self) -> Seq<Cell> {
        seq![
            Cell::Text(self.os_name@),
            Cell::Text(self.os_version@),
            Cell::Text(self.kernel_version@),
            Cell::Text(self.hostname@),
            Cell::Text(self.architecture@),
            Cell::Text(self.distribution_id@),
            Cell::UBigInt(self.uptime_seconds),
            Cell::UBigInt(self.boot_time),
            Cell::UBigInt(self.process_count),
        ]
    }

    fn schema() -> (r: Vec<Column>) {
        let r = vec![
            column("os_name", ColumnType::Varchar),
            column("os_version", ColumnType::Varchar),
            column("kernel_version", ColumnType::Varchar),
            column("hostname", ColumnType::Varchar),
            column("architecture", ColumnType::Varchar),
            column("distribution_id", ColumnType::Varchar),
            column("uptime_seconds", ColumnType::UBigInt),
            column("boot_time", ColumnType::UBigInt),
            column("process_count", ColumnType::UBigInt),
        ];
        assert(columns_view(r@) =~= Self::spec_schema());
        r
    }

    fn row(&self) -> (r: Vec<Value>) {
        let r = vec![
            Value::Text(self.os_name.clone()),
            Value::Text(self.os_version.clone()),
            Value::Text(self.kernel_version.clone()),
            Value::Text(self.hostname.clone()),
            Value::Text(self.architecture.clone()),
            Value::Text(self.distribution_id.clone()),
            Value::UBigInt(self.uptime_seconds),
            Value::UBigInt(self.boot_time),
            Value::UBigInt(self.process_count),
        ];
        assert(cells(r@) =~= self.spec_row());
        r
    }
}

/// An overview of the host as it reports it; a field that the host could
/// not give is absent.
#[derive(Debug)]
pub struct SystemReading {
    pub os_name: Option<String>,
    pub os_version: Option<String>,
    pub hostname: Option<String>,
    pub architecture: Option<String>,
    pub cpu_count: u64,
    pub physical_core_count: Option<u64>,
    /// The brand of the first processor.
    pub cpu_brand: Option<String>,
    /// Bit pattern of the `f32` usage of all processors, in percent.
    pub global_cpu_usage_bits: u32,
    pub total_memory: u64,
    pub used_memory: u64,
    pub available_memory: u64,
    pub uptime_seconds: u64,
    pub process_count: u64,
}

/// An overview of the host, with `Unknown` or zero for what it could not
/// give.
#[derive(Debug)]
pub struct SystemInfo {
    pub os_name: String,
    pub os_version: String,
    pub hostname: String,
    pub architecture: String,
    pub cpu_count: u64,
    pub physical_core_count: u64,
    pub cpu_brand: String,
    /// Bit pattern of the `f32` usage of all processors, in percent.
    pub global_cpu_usage_bits: u32,
    pub total_memory: u64,
    pub used_memory: u64,
    pub available_memory: u64,
    pub uptime_seconds: u64,
    pub process_count: u64,
}

impl SystemInfo {
    /// The record for reading `r`.
    pub fn from_reading(r: &SystemReading) -> (o: SystemInfo)
        ensures
            o.os_name@ == or_unknown(r.os_name),
            o.os_version@ == or_unknown(r.os_version),
            o.hostname@ == or_unknown(r.hostname),
            o.architecture@ == or_unknown(r.architecture),
            o.cpu_count == r.cpu_count,
            o.physical_core_count == match r.physical_core_count {
                Some(n) => n,
                None => 0,
            },
            o.cpu_brand@ == or_unknown(r.cpu_brand),
            o.global_cpu_usage_bits == r.global_cpu_usage_bits,
            o.total_memory == r.total_memory,
            o.used_memory == r.used_memory,
            o.available_memory == r.available_memory,
            o.uptime_seconds == r.uptime_seconds,
            o.process_count == r.process_count,
    {
        SystemInfo {
            os_name: unknown_if_absent(&r.os_name),
            os_version: unknown_if_absent(&r.os_version),
            hostname: unknown_if_absent(&r.hostname),
            architecture: unknown_if_absent(&r.architecture),
            cpu_count: r.cpu_count,
            physical_core_count: match r.physical_core_count {
                Some(n) => n,
                None => 0,
            },
            cpu_brand: unknown_if_absent(&r.cpu_brand),
            global_cpu_usage_bits: r.global_cpu_usage_bits,
            total_memory: r.total_memory,
            used_memory: r.used_memory,
            available_memory: r.available_memory,
            uptime_seconds: r.uptime_seconds,
            process_count: r.process_count,
        }
    }
}

impl Record for SystemInfo {
    open spec fn spec_schema() -> Seq<(Seq<char>, ColumnType)> {
        seq![
            ("os_name"@, ColumnType::Varchar),
            ("os_version"@, ColumnType::Varchar),
            ("hostname"@, ColumnType::Varchar),
            ("architecture"@, ColumnType::Varchar),
            ("cpu_count"@, ColumnType::UBigInt),
            ("physical_core_count"@, ColumnType::UBigInt),
            ("cpu_brand"@, ColumnType::Varchar),
            ("global_cpu_usage_percent"@, ColumnType::Float),
            ("total_memory_bytes"@, ColumnType::UBigInt),
            ("used_memory_bytes"@, ColumnType::UBigInt),
            ("available_memory_bytes"@, ColumnType::UBigInt),
            ("memory_usage_percent"@, ColumnType::Float),
            ("uptime_seconds"@, ColumnType::UBigInt),
            ("process_count"@, ColumnType::UBigInt),
        ]
    }

    open spec fn spec_row(&self) -> Seq<Cell> {
        seq![
            Cell::Text(self.os_name@),
            Cell::Text(self.os_version@),
            Cell::Text(self.hostname@),
            Cell::Text(self.architecture@),
            Cell::UBigInt(self.cpu_count),
            Cell::UBigInt(self.physical_core_count),
            Cell::Text(self.cpu_brand@),
            Cell::Float(Real::Reading(self.global_cpu_usage_bits as u64)),
            Cell::UBigInt(self.total_memory),
            Cell::UBigInt(self.used_memory),
            Cell::UBigInt(self.available_memory),
            Cell::Float(usage_share(self.used_memory, self.total_memory)),
            Cell::UBigInt(self.uptime_seconds),
            Cell::UBigInt(self.process_count),
        ]
    }

    fn schema() -> (r: Vec<Column>) {
        let r = vec![
            column("os_name", ColumnType::Varchar),
            column("os_version", ColumnType::Varchar),
            column("hostname", ColumnType::Varchar),
            column("architecture", ColumnType::Varchar),
            column("cpu_count", ColumnType::UBigInt),
            column("physical_core_count", ColumnType::UBigInt),
            column("cpu_brand", ColumnType::Varchar),
            column("global_cpu_usage_percent", ColumnType::Float),
            column("total_memory_bytes", ColumnType::UBigInt),
            column("used_memory_bytes", ColumnType::UBigInt),
            column("available_memory_bytes", ColumnType::UBigInt),
            column("memory_usage_percent", ColumnType::Float),
            column("uptime_seconds", ColumnType::UBigInt),
            column("process_count", ColumnType::UBigInt),
        ];
        assert(columns_view(r@) =~= Self::spec_schema());
        r
    }

    fn row(&self) -> (r: Vec<Value>) {
        let r = vec![
            Value::Text(self.os_name.clone()),
            Value::Text(self.os_version.clone()),
            Value::Text(self.hostname.clone()),
            Value::Text(self.architecture.clone()),
            Value::UBigInt(self.cpu_count),
            Value::UBigInt(self.physical_core_count),
            Value::Text(self.cpu_brand.clone()),
            Value::Float(Real::Reading(self.global_cpu_usage_bits as u64)),
            Value::UBigInt(self.total_memory),
            Value::UBigInt(self.used_memory),
            Value::UBigInt(self.available_memory),
            Value::Float(usage_percent(self.used_memory, self.total_memory)),
            Value::UBigInt(self.uptime_seconds),
            Value::UBigInt(self.process_count),
        ];
        assert(cells(r@) =~= self.spec_row());
        r
    }
}

} // verus!
