use dcollector::models::{DefaultWithTime, DiskStat, ProcStat, SysStat, UpsStat};
use dcollector::postgres::{
    keep, keep_all, keep_one, persist_result, print_entries, query_limit, store_entries, Batch,
    PersistError, Recent, StoreAction, Table,
};
use dcollector::systeminfo::{sys_stats_entry, SystemReading};
use dcollector::time::Timestamp;
use dcollector::ups::ups_stats_entry;

fn at(millis: u64) -> Timestamp {
    Timestamp::after_epoch(1_700_000_000, (millis * 1_000_000) as u32)
}

fn disk(millis: u64, name: &str) -> DiskStat {
    DiskStat { name: Some(String::from(name)), ..DiskStat::new(at(millis)) }
}

fn process(millis: u64, name: &str) -> ProcStat {
    ProcStat { name: Some(String::from(name)), ..ProcStat::new(at(millis)) }
}

fn full_batch() -> Batch {
    Batch::new(
        SysStat { processors: Some(4), ..SysStat::new(at(0)) },
        UpsStat { load: Some(20), ..UpsStat::new(at(0)) },
        vec![disk(1, "/dev/ada0"), disk(2, "/dev/ada1")],
        vec![process(1, "init"), process(2, "sh"), process(3, "cron")],
    )
}

/// Runs the transaction on a store that refuses the statements on `failing`.
fn run(batch: &Batch, failing: &[Table]) -> Vec<StoreAction> {
    let mut trace = Vec::new();
    let mut last = None;
    loop {
        let action = store_entries(batch, last);
        trace.push(action);
        match action {
            StoreAction::Insert(table) => last = Some((table, !failing.contains(&table))),
            StoreAction::Commit | StoreAction::Rollback => return trace,
        }
        assert!(trace.len() <= 5);
    }
}

#[test]
fn keep_is_the_opposite_of_is_empty() {
    let blank = SysStat::new(at(0));
    let filled = SysStat { used_swap: Some(0), ..SysStat::new(at(0)) };
    assert!(!keep(&blank));
    assert!(keep(&filled));
    assert_eq!(keep_one(blank), None);
    assert_eq!(keep_one(filled.clone()), Some(filled));
}

#[test]
fn the_filter_never_forwards_an_empty_sample() {
    let samples = vec![
        DiskStat::new(at(1)),
        disk(2, "/dev/ada0"),
        DiskStat::new(at(3)),
        DiskStat::new(at(4)),
        disk(5, "/dev/ada1"),
        DiskStat { crc_errors: Some(0), ..DiskStat::new(at(6)) },
        DiskStat::new(at(7)),
    ];
    let survivors = keep_all(samples.clone());
    assert_eq!(survivors, vec![samples[1].clone(), samples[4].clone(), samples[5].clone()]);
    assert!(survivors.iter().all(|sample| !sample.is_empty()));
    assert_eq!(keep_all(Vec::<ProcStat>::new()), vec![]);
    assert_eq!(keep_all(vec![ProcStat::new(at(1)), ProcStat::new(at(2))]), vec![]);
}

#[test]
fn the_filter_applied_twice_changes_nothing() {
    let samples = vec![
        ProcStat::new(at(1)),
        process(2, "init"),
        ProcStat::new(at(3)),
        process(4, "sh"),
    ];
    let once = keep_all(samples);
    let twice = keep_all(once.clone());
    assert_eq!(once, vec![process(2, "init"), process(4, "sh")]);
    assert_eq!(twice, once);
}

#[test]
fn the_batch_holds_what_the_filter_leaves() {
    let batch = Batch::new(
        SysStat::new(at(0)),
        UpsStat { model: Some(String::from("1600 SINUS")), ..UpsStat::new(at(0)) },
        vec![DiskStat::new(at(1)), disk(2, "/dev/da0")],
        vec![process(1, "init"), ProcStat::new(at(2))],
    );
    assert_eq!(batch.system, None);
    assert_eq!(
        batch.ups,
        Some(UpsStat { model: Some(String::from("1600 SINUS")), ..UpsStat::new(at(0)) })
    );
    assert_eq!(batch.disks, vec![disk(2, "/dev/da0")]);
    assert_eq!(batch.processes, vec![process(1, "init")]);
    assert_eq!(batch.row_count(Table::System), 0);
    assert_eq!(batch.row_count(Table::Ups), 1);
    assert_eq!(batch.row_count(Table::Disks), 1);
    assert_eq!(batch.row_count(Table::Processes), 1);
}

#[test]
fn a_full_batch_is_written_table_by_table_and_committed() {
    assert_eq!(
        run(&full_batch(), &[]),
        vec![
            StoreAction::Insert(Table::System),
            StoreAction::Insert(Table::Ups),
            StoreAction::Insert(Table::Disks),
            StoreAction::Insert(Table::Processes),
            StoreAction::Commit,
        ]
    );
}

#[test]
fn a_table_without_rows_is_passed_over() {
    let batch = Batch::new(
        SysStat::new(at(0)),
        UpsStat { load: Some(20), ..UpsStat::new(at(0)) },
        vec![],
        vec![process(1, "init")],
    );
    assert_eq!(
        run(&batch, &[]),
        vec![
            StoreAction::Insert(Table::Ups),
            StoreAction::Insert(Table::Processes),
            StoreAction::Commit,
        ]
    );
    let nothing = Batch::new(SysStat::new(at(0)), UpsStat::new(at(0)), vec![], vec![]);
    assert_eq!(run(&nothing, &[]), vec![StoreAction::Commit]);
}

#[test]
fn a_failure_on_any_one_insert_rolls_the_iteration_back() {
    let tables = [Table::System, Table::Ups, Table::Disks, Table::Processes];
    for (place, failing) in tables.iter().enumerate() {
        let trace = run(&full_batch(), &[*failing]);
        let mut expected: Vec<StoreAction> =
            tables[..=place].iter().map(|table| StoreAction::Insert(*table)).collect();
        expected.push(StoreAction::Rollback);
        assert_eq!(trace, expected);
        assert!(!trace.contains(&StoreAction::Commit));
        assert_eq!(persist_result(*trace.last().unwrap()), Err(PersistError::WriteError));
    }
}

#[test]
fn nothing_follows_a_failed_statement_but_the_rollback() {
    let batch = full_batch();
    for table in [Table::System, Table::Ups, Table::Disks, Table::Processes] {
        assert_eq!(store_entries(&batch, Some((table, false))), StoreAction::Rollback);
    }
    assert_eq!(
        run(&batch, &[Table::Ups, Table::Processes]),
        vec![
            StoreAction::Insert(Table::System),
            StoreAction::Insert(Table::Ups),
            StoreAction::Rollback,
        ]
    );
}

#[test]
fn a_failure_on_a_table_without_rows_never_comes_about() {
    let batch = Batch::new(
        SysStat { processors: Some(4), ..SysStat::new(at(0)) },
        UpsStat::new(at(0)),
        vec![],
        vec![],
    );
    assert_eq!(
        run(&batch, &[Table::Ups, Table::Disks, Table::Processes]),
        vec![StoreAction::Insert(Table::System), StoreAction::Commit]
    );
}

#[test]
fn persist_result_tells_commit_from_the_rest() {
    assert_eq!(persist_result(StoreAction::Commit), Ok(()));
    assert_eq!(persist_result(StoreAction::Rollback), Err(PersistError::WriteError));
    assert_eq!(
        persist_result(StoreAction::Insert(Table::Disks)),
        Err(PersistError::WriteError)
    );
}

#[test]
fn a_system_sample_of_zero_usage_and_nothing_else_is_dropped() {
    let reading = SystemReading { cpu_usage: Some(0.0f32.to_bits()), ..SystemReading::default() };
    let sample = sys_stats_entry(at(0), reading);
    assert!(sample.is_empty());
    let batch = Batch::new(sample, UpsStat::new(at(0)), vec![], vec![]);
    assert_eq!(batch.system, None);
    assert_eq!(batch.row_count(Table::System), 0);
    assert_eq!(run(&batch, &[]), vec![StoreAction::Commit]);
}

#[test]
fn a_system_sample_of_some_usage_is_kept_with_all_else_absent() {
    let reading = SystemReading { cpu_usage: Some(42.5f32.to_bits()), ..SystemReading::default() };
    let sample = sys_stats_entry(at(0), reading);
    assert!(!sample.is_empty());
    let batch = Batch::new(sample, UpsStat::new(at(0)), vec![], vec![]);
    let row = batch.system.clone().unwrap();
    assert_eq!(row.cpu_usage.map(f32::from_bits), Some(42.5));
    assert_eq!(row, SysStat { cpu_usage: Some(42.5f32.to_bits()), ..SysStat::new(at(0)) });
    assert_eq!(batch.row_count(Table::System), 1);
    assert_eq!(
        run(&batch, &[]),
        vec![StoreAction::Insert(Table::System), StoreAction::Commit]
    );
}

#[test]
fn a_failed_ups_session_writes_no_ups_row() {
    let sample = ups_stats_entry(at(0), &None);
    assert!(sample.is_empty());
    let batch = Batch::new(
        SysStat { processors: Some(2), ..SysStat::new(at(0)) },
        sample,
        vec![],
        vec![],
    );
    assert_eq!(batch.ups, None);
    let trace = run(&batch, &[]);
    assert!(!trace.contains(&StoreAction::Insert(Table::Ups)));
    assert_eq!(trace, vec![StoreAction::Insert(Table::System), StoreAction::Commit]);
}

#[test]
fn query_limit_is_never_negative() {
    assert_eq!(query_limit(0), 0);
    assert_eq!(query_limit(1), 1);
    assert_eq!(query_limit(5), 5);
    assert_eq!(query_limit(i64::MAX as usize), i64::MAX);
    assert_eq!(query_limit(usize::MAX), i64::MAX);
    assert_eq!(query_limit(i64::MAX as usize + 1), i64::MAX);
}

#[test]
fn print_entries_reports_each_kind_under_its_heading() {
    let recent = Recent {
        disks: vec![String::from("d1"), String::from("d2")],
        processes: vec![String::from("p1")],
        ups: vec![],
        systems: vec![String::from("s1"), String::from("s2"), String::from("s3")],
    };
    assert_eq!(
        print_entries(&Some(recent)),
        vec![
            "Displaying 2 Disk entries",
            "Disks: d1",
            "Disks: d2",
            "Displaying 1 Process entry",
            "Processes: p1",
            "Displaying 0 UPS entry",
            "Displaying 3 system entries",
            "System: s1",
            "System: s2",
            "System: s3",
        ]
    );
}

#[test]
fn print_entries_shows_nothing_of_a_failed_read_back() {
    assert_eq!(print_entries(&None), Vec::<String>::new());
    assert_eq!(
        print_entries(&Some(Recent::default())),
        vec![
            "Displaying 0 Disk entry",
            "Displaying 0 Process entry",
            "Displaying 0 UPS entry",
            "Displaying 0 system entry",
        ]
    );
}
