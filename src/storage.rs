//! Mounted disks: which mounts count as real storage, and the rows that
//! report them.

use vstd::prelude::*;

use crate::table::{column, usage_percent, usage_share, Cell, Column, ColumnType, Real, Record, Value};
use crate::text::{chars_of, contains, has_infix, has_prefix, lower_of, starts_with, to_lower};
use crate::units::{unit_divisor, unit_label, SizeUnit};

verus! {

/// A mount point under one of the kernel's virtual trees.
pub open spec fn virtual_mount(m: Seq<char>) -> bool {
    has_prefix(m, "/proc"@) || has_prefix(m, "/sys"@) || has_prefix(m, "/dev"@) || has_prefix(
        m,
        "/run"@,
    ) || has_prefix(m, "/snap"@)
}

/// A lower-case file-system type that names a virtual file system.
pub open spec fn virtual_fs_type(t: Seq<char>) -> bool {
    has_infix(t, "proc"@) || has_infix(t, "sysfs"@) || has_infix(t, "devfs"@) || has_infix(
        t,
        "devtmpfs"@,
    ) || has_infix(t, "tmpfs"@) || has_infix(t, "overlay"@) || has_infix(t, "squashfs"@)
}

/// Whether a mount is virtual, given its mount point and its file-system
/// type already in lower case.
pub fn is_virtual_lowered(mount_point: &str, fs_lower: &str) -> (r: bool)
    ensures
        r == (virtual_mount(mount_point@) || virtual_fs_type(fs_lower@)),
{
    let m = chars_of(mount_point);
    let t = chars_of(fs_lower);
    starts_with(&m, &chars_of("/proc")) || starts_with(&m, &chars_of("/sys")) || starts_with(
        &m,
        &chars_of("/dev"),
    ) || starts_with(&m, &chars_of("/run")) || starts_with(&m, &chars_of("/snap")) || contains(
        &t,
        &chars_of("proc"),
    ) || contains(&t, &chars_of("sysfs")) || contains(&t, &chars_of("devfs")) || contains(
        &t,
        &chars_of("devtmpfs"),
    ) || contains(&t, &chars_of("tmpfs")) || contains(&t, &chars_of("overlay")) || contains(
        &t,
        &chars_of("squashfs"),
    )
}

/// Whether a mount is virtual: its mount point lies under a virtual tree,
/// or its file-system type, read without regard to case, names a virtual
/// file system.
pub fn is_virtual_filesystem(mount_point: &str, fs_type: &str) -> (r: bool)
    ensures
        r == (virtual_mount(mount_point@) || virtual_fs_type(lower_of(fs_type@))),
{
    let lower = to_lower(fs_type);
    is_virtual_lowered(mount_point, lower.as_str())
}

/// Bytes in use on a disk: its total less what is available, and never
/// below zero.
pub open spec fn used_space(total: u64, available: u64) -> u64 {
    if total >= available {
        (total - available) as u64
    } else {
        0
    }
}

/// One mounted disk, and the unit its sizes are reported in.
#[derive(Debug)]
pub struct DiskInfo {
    pub name: String,
    pub mount_point: String,
    pub file_system: String,
    pub total_bytes: u64,
    pub available_bytes: u64,
    pub is_removable: bool,
    pub kind: String,
    pub unit: SizeUnit,
}

impl DiskInfo {
    /// A copy of this disk.
    pub fn duplicate(&self) -> (r: DiskInfo)
        ensures
            r == *self,
    {
        DiskInfo {
            name: self.name.clone(),
            mount_point: self.mount_point.clone(),
            file_system: self.file_system.clone(),
            total_bytes: self.total_bytes,
            available_bytes: self.available_bytes,
            is_removable: self.is_removable,
            kind: self.kind.clone(),
            unit: self.unit,
        }
    }

    /// Bytes in use: total less available, never below zero.
    pub fn used_bytes(&self) -> (r: u64)
        ensures
            r == used_space(self.total_bytes, self.available_bytes),
    {
        self.total_bytes.saturating_sub(self.available_bytes)
    }
}

/// A disk that the disks table reports: one that is not virtual.
pub open spec fn reported_disk(d: DiskInfo) -> Option<DiskInfo> {
    if virtual_mount(d.mount_point@) || virtual_fs_type(lower_of(d.file_system@)) {
        None
    } else {
        Some(d)
    }
}

/// A disk's used space never exceeds its total and never wraps below
/// zero: with more available than total, nothing is in use.
pub proof fn lemma_used_space_saturates(total: u64, available: u64)
    ensures
        used_space(total, available) <= total,
        available >= total ==> used_space(total, available) == 0,
        available <= total ==> used_space(total, available) == total - available,
{
}

/// The disks that the disks table reports, in their order: the virtual
/// ones are left out.
pub fn collect_disks(disks: &Vec<DiskInfo>) -> (r: Vec<DiskInfo>)
    ensures
        r@ == disks@.filter_map(|d: DiskInfo| reported_disk(d)),
{
    let mut out: Vec<DiskInfo> = Vec::new();
    for i in 0..disks.len()
        invariant
            out@ == disks@.take(i as int).filter_map(|d: DiskInfo| reported_disk(d)),
    {
        let d = &disks[i];
        assert(disks@.take(i + 1).drop_last() =~= disks@.take(i as int));
        if !is_virtual_filesystem(d.mount_point.as_str(), d.file_system.as_str()) {
            out.push(d.duplicate());
        }
    }
    assert(disks@.take(disks@.len() as int) =~= disks@);
    out
}

impl Record for DiskInfo {
    open spec fn spec_schema() -> Seq<(Seq<char>, ColumnType)> {
        seq![
            ("name"@, ColumnType::Varchar),
            ("mount_point"@, ColumnType::Varchar),
            ("file_system"@, ColumnType::Varchar),
            ("unit"@, ColumnType::Varchar),
            ("total_space"@, ColumnType::Double),
            ("available_space"@, ColumnType::Double),
            ("used_space"@, ColumnType::Double),
            ("usage_percent"@, ColumnType::Float),
            ("is_removable"@, ColumnType::Boolean),
            ("kind"@, ColumnType::Varchar),
        ]
    }

    open spec fn spec_row(&self) -> Seq<Cell> {
        let d = unit_divisor(self.unit) as u64;
        let used = used_space(self.total_bytes, self.available_bytes);
        seq![
            Cell::Text(self.name@),
            Cell::Text(self.mount_point@),
            Cell::Text(self.file_system@),
            Cell::Text(unit_label(self.unit)),
            Cell::Double(Real::Ratio(self.total_bytes, d)),
            Cell::Double(Real::Ratio(self.available_bytes, d)),
            Cell::Double(Real::Ratio(used, d)),
            Cell::Float(usage_share(used, self.total_bytes)),
            Cell::Bool(self.is_removable),
            Cell::Text(self.kind@),
        ]
    }

    fn schema() -> (r: Vec<Column>) {
        let r = vec![
            column("name", ColumnType::Varchar),
            column("mount_point", ColumnType::Varchar),
            column("file_system", ColumnType::Varchar),
            column("unit", ColumnType::Varchar),
            column("total_space", ColumnType::Double),
            column("available_space", ColumnType::Double),
            column("used_space", ColumnType::Double),
            column("usage_percent", ColumnType::Float),
            column("is_removable", ColumnType::Boolean),
            column("kind", ColumnType::Varchar),
        ];
        assert(crate::table::columns_view(r@) =~= Self::spec_schema());
        r
    }

    fn row(&self) -> (r: Vec<Value>) {
        let d = self.unit.divisor();
        let used = self.used_bytes();
        let r = vec![
            Value::Text(self.name.clone()),
            Value::Text(self.mount_point.clone()),
            Value::Text(self.file_system.clone()),
            Value::Text(String::from_str(self.unit.name())),
            Value::Double(Real::Ratio(self.total_bytes, d)),
            Value::Double(Real::Ratio(self.available_bytes, d)),
            Value::Double(Real::Ratio(used, d)),
            Value::Float(usage_percent(used, self.total_bytes)),
            Value::Bool(self.is_removable),
            Value::Text(self.kind.clone()),
        ];
        assert(crate::table::cells(r@) =~= self.spec_row());
        r
    }
}

} // verus!
