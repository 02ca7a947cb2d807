use sazgar::host::MemoryInfo;
use sazgar::procs::{ProcState, ProcessInfo, UserInfo};
use sazgar::storage::DiskInfo;
use sazgar::table::{
    usage_percent, Batch, ColumnType, EncodingError, Real, Record, TableProvider, Value,
    BATCH_SIZE,
};
use sazgar::units::SizeUnit;

fn real_value(r: &Real) -> f64 {
    match *r {
        Real::Reading(bits) => f64::from_bits(bits),
        Real::Ratio(n, d) => n as f64 / d as f64,
        Real::Percent(p, w) => (p as f64 / w as f64) * 100.0,
    }
}

fn users(n: usize) -> Vec<UserInfo> {
    (0..n)
        .map(|i| UserInfo { uid: i.to_string(), gid: "100".to_string(), name: format!("user{}", i) })
        .collect()
}

fn process(pid: u32) -> ProcessInfo {
    ProcessInfo {
        pid,
        name: format!("proc{}", pid),
        exe_path: None,
        status: ProcState::Run,
        cpu_bits: 0,
        memory_bytes: 1024,
        start_time: 10,
        run_time: 20,
        user: Some("1000".to_string()),
        total_memory: 4096,
    }
}

fn drain(p: &mut TableProvider) -> Vec<usize> {
    let mut sizes = Vec::new();
    loop {
        let b = p.produce().expect("rows encode");
        sizes.push(b.len);
        if b.len == 0 {
            return sizes;
        }
    }
}

#[test]
fn batches_cover_snapshot_exactly_once() {
    for n in [0usize, 1, 2047, 2048, 5000] {
        let mut p = TableProvider::from_records(&users(n));
        let mut seen = vec![0u32; n];
        let mut next = 0usize;
        loop {
            let b = p.produce().expect("rows encode");
            assert_eq!(b.start, next);
            assert!(b.len <= BATCH_SIZE);
            for i in b.start..b.start + b.len {
                seen[i] += 1;
            }
            next += b.len;
            if b.len == 0 {
                break;
            }
        }
        assert_eq!(next, n);
        assert!(seen.iter().all(|&c| c == 1));
        assert!(p.is_exhausted());
    }
}

#[test]
fn empty_batch_repeats_forever() {
    let mut p = TableProvider::from_records(&users(3));
    assert_eq!(p.produce(), Ok(Batch { start: 0, len: 3 }));
    for _ in 0..5 {
        assert_eq!(p.produce(), Ok(Batch { start: 3, len: 0 }));
        assert_eq!(p.cursor(), 3);
    }
}

#[test]
fn process_snapshot_of_three_thousand() {
    let procs: Vec<ProcessInfo> = (0..3000).map(process).collect();
    let mut p = TableProvider::from_records(&procs);
    assert_eq!(p.produce(), Ok(Batch { start: 0, len: 2048 }));
    assert_eq!(p.cursor(), 2048);
    assert_eq!(p.produce(), Ok(Batch { start: 2048, len: 952 }));
    assert_eq!(p.cursor(), 3000);
    assert_eq!(p.produce(), Ok(Batch { start: 3000, len: 0 }));
    assert_eq!(drain(&mut p), vec![0]);
}

#[test]
fn rows_come_in_snapshot_order() {
    let procs: Vec<ProcessInfo> = (0..5).map(|i| process(100 + i)).collect();
    let p = TableProvider::from_records(&procs);
    for i in 0..5 {
        assert_eq!(p.row(i)[0], Value::UInt(100 + i as u32));
    }
    assert_eq!(p.row_count(), 5);
}

#[test]
fn nul_in_text_aborts_the_batch() {
    let mut list = users(4);
    list[2].name = "bad\u{0}name".to_string();
    let mut p = TableProvider::from_records(&list);
    assert_eq!(p.produce(), Err(EncodingError { row: 2, column: 2 }));
    assert_eq!(p.cursor(), 0);
}

#[test]
fn memory_row_in_gib() {
    let m = MemoryInfo {
        unit: SizeUnit::GiB,
        total_memory: 16_000_000_000,
        used_memory: 8_000_000_000,
        free_memory: 8_000_000_000,
        available_memory: 8_000_000_000,
        total_swap: 0,
        used_swap: 0,
        free_swap: 0,
    };
    let mut p = TableProvider::from_records(&vec![m]);
    assert_eq!(p.produce(), Ok(Batch { start: 0, len: 1 }));
    let row = p.row(0);
    assert_eq!(row[0], Value::Text("GiB".to_string()));
    match &row[1] {
        Value::Double(r) => assert!((real_value(r) - 14.9012).abs() < 1e-4),
        other => panic!("unexpected {:?}", other),
    }
    match &row[5] {
        Value::Float(r) => assert_eq!(real_value(r) as f32, 50.0),
        other => panic!("unexpected {:?}", other),
    }
    match &row[9] {
        Value::Float(r) => assert_eq!(real_value(r), 0.0),
        other => panic!("unexpected {:?}", other),
    }
    assert_eq!(p.produce(), Ok(Batch { start: 1, len: 0 }));
}

#[test]
fn usage_percent_guards_zero_total() {
    assert_eq!(usage_percent(5, 0), Real::Percent(0, 1));
    assert_eq!(real_value(&usage_percent(u64::MAX, 0)), 0.0);
    assert_eq!(real_value(&usage_percent(1, 4)), 25.0);
}

#[test]
fn disk_used_space_saturates() {
    let d = DiskInfo {
        name: "sda1".to_string(),
        mount_point: "/".to_string(),
        file_system: "ext4".to_string(),
        total_bytes: 100,
        available_bytes: 150,
        is_removable: false,
        kind: "SSD".to_string(),
        unit: SizeUnit::Bytes,
    };
    assert_eq!(d.used_bytes(), 0);
    let row = d.row();
    assert_eq!(row[6], Value::Double(Real::Ratio(0, 1)));
    assert_eq!(row[7], Value::Float(Real::Percent(0, 100)));
    let schema = DiskInfo::schema();
    assert_eq!(schema.len(), row.len());
    assert_eq!(schema[6].name, "used_space");
    assert_eq!(schema[7].ty, ColumnType::Float);
}

#[test]
fn schema_matches_row_types() {
    let p = TableProvider::from_records(&vec![process(1)]);
    let cols = p.columns();
    let row = p.row(0);
    assert_eq!(cols.len(), row.len());
    for (c, v) in cols.iter().zip(row.iter()) {
        let ok = matches!(
            (c.ty, v),
            (ColumnType::Varchar, Value::Text(_))
                | (ColumnType::UInteger, Value::UInt(_))
                | (ColumnType::UBigInt, Value::UBigInt(_))
                | (ColumnType::Float, Value::Float(_))
        );
        assert!(ok, "column {} holds {:?}", c.name, v);
    }
    assert_eq!(row[3], Value::Text("Running".to_string()));
    assert_eq!(row[2], Value::Text(String::new()));
    assert_eq!(row[9], Value::Text("1000".to_string()));
}
