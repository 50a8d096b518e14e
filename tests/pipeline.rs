use unrarall::orchestrator::{is_hidden, Opt, Orchestrator, Step};
use unrarall::output::{
    Data, FancyHandler, Handler, LogHandler, Output, OutputType, RealOutput, Report,
    StdoutHandler,
};
use unrarall::progress::parse_progress;
use unrarall::rarfiles::{DirEntryInfo, ExtractionError, JobState, RarFiles, ToolExit};

fn file(path: &str) -> DirEntryInfo {
    DirEntryInfo { path: path.to_string(), is_file: true }
}

fn dir(path: &str) -> DirEntryInfo {
    DirEntryInfo { path: path.to_string(), is_file: false }
}

fn set_of(paths: &[&str]) -> RarFiles {
    let entries: Vec<DirEntryInfo> = paths.iter().map(|p| file(p)).collect();
    RarFiles::new(&entries)
}

#[test]
fn progress_line_with_percent() {
    assert_eq!(parse_progress("...  42%  OK"), Some(42));
}

#[test]
fn progress_line_without_percent() {
    assert_eq!(parse_progress("no percent here"), None);
}

#[test]
fn progress_line_full() {
    assert_eq!(parse_progress("100%"), Some(100));
}

#[test]
fn progress_single_digit_and_first_wins() {
    assert_eq!(parse_progress("Extracting  x.bin   7%"), Some(7));
    assert_eq!(parse_progress("3% then 9%"), Some(3));
}

#[test]
fn progress_over_hundred_is_skipped() {
    assert_eq!(parse_progress("101%"), None);
    assert_eq!(parse_progress("250% and 12%"), Some(12));
    assert_eq!(parse_progress("%"), None);
    assert_eq!(parse_progress(""), None);
}

#[test]
fn hidden_names() {
    assert!(is_hidden(".git"));
    assert!(!is_hidden("movies"));
    assert!(!is_hidden(""));
}

#[test]
fn detect_single_primary_with_volumes() {
    let entries = vec![
        file("d/movie.r00"),
        file("d/movie.rar"),
        file("d/readme.txt"),
        file("d/movie.r01"),
        dir("d/extra.rar"),
        file("d/noext"),
    ];
    let set = RarFiles::new(&entries);
    assert!(set.has_primary());
    assert_eq!(set.get_main_rar_opt(), Some("d/movie.rar".to_string()));
    assert_eq!(set.get_main_rar(), "d/movie.rar".to_string());
    assert_eq!(
        set.get_other_rars(),
        vec!["d/movie.r00".to_string(), "d/movie.r01".to_string()]
    );
    assert!(set.get_extra_rars().is_empty());
}

#[test]
fn detect_two_primaries_first_wins() {
    let set = set_of(&["d/b.rar", "d/a.rar", "d/a.r00"]);
    assert_eq!(set.get_main_rar_opt(), Some("d/b.rar".to_string()));
    assert_eq!(set.get_extra_rars(), vec!["d/a.rar".to_string()]);
    assert_eq!(set.get_other_rars(), vec!["d/a.r00".to_string()]);
}

#[test]
fn detect_volumes_without_primary() {
    let set = set_of(&["d/a.r00", "d/a.r01"]);
    assert!(!set.has_primary());
    assert_eq!(set.get_main_rar_opt(), None);
    assert_eq!(set.get_other_rars().len(), 2);
}

#[test]
fn detect_empty_directory() {
    let set = RarFiles::new(&Vec::new());
    assert!(!set.has_primary());
    assert!(set.get_other_rars().is_empty());
}

#[test]
fn no_primary_is_skipped_without_using_an_id() {
    let mut orch = Orchestrator::new(false);
    let empty = set_of(&["d/a.r00"]);
    assert!(matches!(orch.visit("d".to_string(), &empty), Step::Skip));
    let full = set_of(&["e/a.rar"]);
    match orch.visit("e".to_string(), &full) {
        Step::Extract { visit, id } => {
            assert_eq!(visit, Output::Visit("e".to_string()));
            assert_eq!(id, 0);
        }
        Step::Skip => panic!("a set with a primary archive must be extracted"),
    }
    match orch.visit("f".to_string(), &full) {
        Step::Extract { id, .. } => assert_eq!(id, 1),
        Step::Skip => panic!("a set with a primary archive must be extracted"),
    }
}

#[test]
fn successful_job_events() {
    let set = set_of(&["d/a.rar"]);
    let (mut job, started) = set.unrar(5);
    assert_eq!(started, Output::New { path: "d/a.rar".to_string(), id: 5 });
    assert_eq!(job.get_id(), 5);
    assert_eq!(job.on_line("UNRAR 6.00"), None);
    assert_eq!(job.on_line("  10%"), Some(Output::Progress { id: 5, procent: 10 }));
    assert_eq!(job.on_line("  99%"), Some(Output::Progress { id: 5, procent: 99 }));
    assert_eq!(job.finish(ToolExit::Success), Ok(Output::Done { id: 5 }));
    assert_eq!(job.get_state(), JobState::Succeeded);
}

#[test]
fn failed_job_has_no_completion() {
    let set = set_of(&["d/a.rar"]);
    let (mut job, _) = set.unrar(2);
    assert_eq!(job.on_line("  50%"), Some(Output::Progress { id: 2, procent: 50 }));
    assert_eq!(
        job.finish(ToolExit::Failure { code: Some(3) }),
        Err(ExtractionError::ToolFailed { exit_code: Some(3) })
    );
    assert_eq!(job.get_state(), JobState::Failed);
}

#[test]
fn job_io_error() {
    let set = set_of(&["d/a.rar"]);
    let (mut job, _) = set.unrar(0);
    let r = job.finish(ToolExit::IoError { message: "no such file".to_string() });
    assert_eq!(r, Err(ExtractionError::Io { message: "no such file".to_string() }));
    assert_eq!(job.get_state(), JobState::Failed);
}

#[test]
fn remove_members_all_succeed() {
    let set = set_of(&["a.r00", "a.rar", "a.r01"]);
    let mut cleanup = set.remove_rars();
    let mut removed = Vec::new();
    while let Some(p) = cleanup.next_target() {
        removed.push(p);
        cleanup.record(true);
    }
    assert_eq!(removed, vec!["a.rar".to_string(), "a.r00".to_string(), "a.r01".to_string()]);
    assert!(cleanup.all_removed());
}

#[test]
fn remove_members_stops_at_first_failure() {
    let set = set_of(&["a.rar", "a.r00", "a.r01"]);
    let mut cleanup = set.remove_rars();
    assert_eq!(cleanup.next_target(), Some("a.rar".to_string()));
    cleanup.record(true);
    assert_eq!(cleanup.next_target(), Some("a.r00".to_string()));
    cleanup.record(false);
    assert_eq!(cleanup.next_target(), None);
    assert!(!cleanup.all_removed());
}

#[test]
fn stdout_handler_correlates_ids() {
    let mut h = StdoutHandler::new();
    assert_eq!(
        h.handle(Output::Visit("d".to_string())),
        Report::Visiting { path: "d".to_string() }
    );
    assert_eq!(
        h.handle(Output::New { path: "d/a.rar".to_string(), id: 1 }),
        Report::Unraring { path: "d/a.rar".to_string() }
    );
    assert_eq!(
        h.handle(Output::Progress { id: 1, procent: 30 }),
        Report::Progress { id: 1, procent: 30 }
    );
    assert_eq!(h.handle(Output::Done { id: 1 }), Report::DoneWith(Some("d/a.rar".to_string())));
    assert_eq!(h.handle(Output::Done { id: 1 }), Report::DoneWith(None));
}

#[test]
fn log_handler_unknown_job() {
    let mut h = LogHandler::new();
    assert_eq!(h.handle(Output::Done { id: 9 }), Report::DoneWith(None));
}

#[test]
fn fancy_handler_tracks_percent() {
    let mut h = FancyHandler::new();
    h.handle(Output::New { path: "x.rar".to_string(), id: 4 });
    assert_eq!(h.percent_of(4), Some(0));
    h.handle(Output::Progress { id: 4, procent: 64 });
    assert_eq!(h.percent_of(4), Some(64));
    h.handle(Output::Progress { id: 8, procent: 10 });
    assert_eq!(h.percent_of(8), None);
    assert_eq!(h.handle(Output::Done { id: 4 }), Report::DoneWith(Some("x.rar".to_string())));
    assert_eq!(h.percent_of(4), None);
}

#[test]
fn sink_stops_on_exit() {
    let mut data = Data { output: OutputType::Log.into_output() };
    let o = Output::New { path: "p.rar".to_string(), id: 0 };
    assert_eq!(
        data.accept(RealOutput::from(o)),
        Some(Report::Unraring { path: "p.rar".to_string() })
    );
    assert_eq!(data.accept(RealOutput::Exit), None);
}

#[test]
fn options_default_to_stdout() {
    let mut opt = Opt { path: "/".to_string(), remove: false, output: None };
    let data = opt.get_output();
    assert!(matches!(data.output, Handler::Stdout(_)));
    let mut opt = Opt { path: "/".to_string(), remove: true, output: Some(OutputType::Fancy) };
    let data = opt.get_output();
    assert!(matches!(data.output, Handler::Fancy(_)));
    assert!(opt.output.is_none());
}

#[test]
fn removal_only_after_success() {
    let orch = Orchestrator::new(true);
    assert!(orch.should_remove(&Ok(Output::Done { id: 0 })));
    assert!(!orch.should_remove(&Err(ExtractionError::ToolFailed { exit_code: Some(1) })));
    let keep = Orchestrator::new(false);
    assert!(!keep.should_remove(&Ok(Output::Done { id: 0 })));
    assert!(matches!(keep.finish(), RealOutput::Exit));
}

#[test]
fn end_to_end_with_removal() {
    let mut orch = Orchestrator::new(true);
    let entries = vec![file("root/sub/movie.rar"), file("root/sub/movie.r00")];
    let set = RarFiles::new(&entries);
    let mut data = Data { output: OutputType::Stdout.into_output() };
    let mut events: Vec<Output> = Vec::new();
    match orch.visit("root/sub".to_string(), &set) {
        Step::Extract { visit, id } => {
            events.push(visit);
            let (mut job, started) = set.unrar(id);
            events.push(started);
            for line in ["Extracting movie.mkv   45%", "All OK"] {
                if let Some(e) = job.on_line(line) {
                    events.push(e);
                }
            }
            let result = job.finish(ToolExit::Success);
            if let Ok(done) = &result {
                events.push(done.clone());
            }
            assert!(orch.should_remove(&result));
        }
        Step::Skip => panic!("the directory holds a primary archive"),
    }
    assert_eq!(
        events,
        vec![
            Output::Visit("root/sub".to_string()),
            Output::New { path: "root/sub/movie.rar".to_string(), id: 0 },
            Output::Progress { id: 0, procent: 45 },
            Output::Done { id: 0 },
        ]
    );
    let reports: Vec<Report> = events
        .into_iter()
        .map(|e| data.accept(RealOutput::from(e)).unwrap())
        .collect();
    assert_eq!(reports[3], Report::DoneWith(Some("root/sub/movie.rar".to_string())));
    let mut cleanup = set.remove_rars();
    let mut removed = Vec::new();
    while let Some(p) = cleanup.next_target() {
        removed.push(p);
        cleanup.record(true);
    }
    assert_eq!(
        removed,
        vec!["root/sub/movie.rar".to_string(), "root/sub/movie.r00".to_string()]
    );
}
