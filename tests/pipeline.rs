use bambixploit::config::{Config, ConfigError};
use bambixploit::dedup::DedupSet;
use bambixploit::matcher::FlagMatcher;
use bambixploit::stats::BambiStats;
use bambixploit::submit::{submission_line, SubmitAction, SubmitEvent, Submitter};
use bambixploit::worker::{command_for, harvest, keep_novel, worker_step, WorkerAction, WorkerEvent, WorkerPhase};

const PATTERN: &str = "FLAG_[A-Za-z0-9]{16}";

fn matcher() -> FlagMatcher {
    FlagMatcher::new(PATTERN).unwrap()
}

fn config(pattern: &str, interval: usize) -> Config {
    Config {
        flag_re: pattern.to_string(),
        addresses: vec!["10.0.0.5".to_string()],
        flagbot_address: "127.0.0.1:1337".to_string(),
        interval,
    }
}

/// Feeds one flag through a submitter whose connection comes up at once and
/// answers.
fn submit_ok(submitter: &mut Submitter, stats: &mut BambiStats, flag: &str) {
    let a = submitter.step(SubmitEvent::Flag(flag.to_string()), stats);
    match a {
        SubmitAction::Connect => {
            let a = submitter.step(SubmitEvent::Connected, stats);
            assert!(matches!(a, SubmitAction::Send(_)));
        }
        SubmitAction::Send(_) => {}
        SubmitAction::AwaitFlag => panic!("flag was not taken"),
    }
    let a = submitter.step(SubmitEvent::Answered, stats);
    assert!(matches!(a, SubmitAction::AwaitFlag));
}

#[test]
fn extracts_matches_in_order() {
    let m = matcher();
    let text = "a FLAG_aaaaaaaaaaaaaaaa b FLAG_bbbbbbbbbbbbbbbb c FLAG_aaaaaaaaaaaaaaaa";
    assert_eq!(
        m.extract(text),
        vec![
            "FLAG_aaaaaaaaaaaaaaaa".to_string(),
            "FLAG_bbbbbbbbbbbbbbbb".to_string(),
            "FLAG_aaaaaaaaaaaaaaaa".to_string(),
        ]
    );
}

#[test]
fn extracts_nothing_without_matches() {
    let m = matcher();
    assert!(m.extract("").is_empty());
    assert!(m.extract("FLAG_short and nothing else").is_empty());
}

#[test]
fn matcher_keeps_pattern() {
    assert_eq!(matcher().pattern(), PATTERN);
}

#[test]
fn invalid_pattern_is_refused() {
    assert!(FlagMatcher::new("FLAG_(").is_none());
}

#[test]
fn config_validation() {
    assert!(config(PATTERN, 30).validate().is_ok());
    assert_eq!(config(PATTERN, 0).validate().err(), Some(ConfigError::ZeroInterval));
    assert_eq!(config("FLAG_[", 30).validate().err(), Some(ConfigError::InvalidPattern));
    assert_eq!(config("FLAG_[", 0).validate().err(), Some(ConfigError::ZeroInterval));
}

#[test]
fn dedup_admits_once() {
    let mut d = DedupSet::new();
    assert!(d.admit_flag("FLAG_x"));
    assert!(!d.admit_flag("FLAG_x"));
    assert!(!d.admit_flag("FLAG_x"));
    assert!(d.admit_flag("FLAG_y"));
}

#[test]
fn dedup_admit_all_marks_first_presentations() {
    let mut d = DedupSet::new();
    assert!(d.admit_flag("FLAG_seen"));
    let flags = vec![
        "FLAG_a".to_string(),
        "FLAG_a".to_string(),
        "FLAG_seen".to_string(),
        "FLAG_b".to_string(),
        "FLAG_a".to_string(),
    ];
    assert_eq!(d.admit_all(&flags), vec![true, false, false, true, false]);
    assert!(d.admit_all(&flags).iter().all(|b| !b));
}

#[test]
fn worker_skips_tick_while_running() {
    assert_eq!(
        worker_step(WorkerPhase::Idle, WorkerEvent::Tick),
        (WorkerPhase::Running, WorkerAction::Launch)
    );
    assert_eq!(
        worker_step(WorkerPhase::Running, WorkerEvent::Tick),
        (WorkerPhase::Running, WorkerAction::SkipTick)
    );
    assert_eq!(
        worker_step(WorkerPhase::Running, WorkerEvent::Finished),
        (WorkerPhase::Idle, WorkerAction::Wait)
    );
    assert_eq!(
        worker_step(WorkerPhase::Idle, WorkerEvent::Finished),
        (WorkerPhase::Idle, WorkerAction::Wait)
    );
}

#[test]
fn command_gets_address_last() {
    let template = vec!["python3".to_string(), "-u".to_string(), "x.py".to_string()];
    assert_eq!(
        command_for(&template, "10.0.0.5"),
        vec!["python3", "-u", "x.py", "10.0.0.5"]
    );
    assert_eq!(command_for(&Vec::new(), "10.0.0.5"), vec!["10.0.0.5"]);
}

#[test]
fn harvest_drops_repeats_within_and_across_outputs() {
    let m = matcher();
    let mut d = DedupSet::new();
    let out = "FLAG_aaaaaaaaaaaaaaaa FLAG_bbbbbbbbbbbbbbbb FLAG_aaaaaaaaaaaaaaaa";
    assert_eq!(
        harvest(&m, &mut d, out),
        vec!["FLAG_aaaaaaaaaaaaaaaa".to_string(), "FLAG_bbbbbbbbbbbbbbbb".to_string()]
    );
    assert!(harvest(&m, &mut d, out).is_empty());
    assert_eq!(
        harvest(&m, &mut d, "FLAG_cccccccccccccccc FLAG_bbbbbbbbbbbbbbbb"),
        vec!["FLAG_cccccccccccccccc".to_string()]
    );
}

#[test]
fn flag_from_failed_run_is_queued() {
    let m = matcher();
    let mut d = DedupSet::new();
    let (phase, action) = worker_step(WorkerPhase::Idle, WorkerEvent::Tick);
    assert_eq!(action, WorkerAction::Launch);
    // The exploit printed a flag, then exited with a nonzero status.
    let output = "Traceback: FLAG_0123456789abcdef\nerror: exit 1\n";
    let queued = harvest(&m, &mut d, output);
    let (phase, _) = worker_step(phase, WorkerEvent::Finished);
    assert_eq!(phase, WorkerPhase::Idle);
    assert_eq!(queued, vec!["FLAG_0123456789abcdef".to_string()]);
}

#[test]
fn single_target_end_to_end() {
    let cfg = config(PATTERN, 30);
    let m = cfg.validate().unwrap();
    let mut d = DedupSet::new();
    let mut stats = BambiStats::new();
    let mut submitter = Submitter::new();
    let output = "got it: FLAG_abcdefgh12345678 done";

    let queued = harvest(&m, &mut d, output);
    assert_eq!(queued, vec!["FLAG_abcdefgh12345678".to_string()]);
    for flag in &queued {
        submit_ok(&mut submitter, &mut stats, flag);
    }
    assert_eq!(stats.get_ok(), 1);

    // The next run prints the same thing: nothing new is queued.
    let queued = harvest(&m, &mut d, output);
    assert!(queued.is_empty());
    for flag in &queued {
        submit_ok(&mut submitter, &mut stats, flag);
    }
    assert_eq!(stats.get_ok(), 1);
}

#[test]
fn two_targets_same_flag_counted_once() {
    let m = matcher();
    let mut d = DedupSet::new();
    let mut stats = BambiStats::new();
    let mut submitter = Submitter::new();
    let mut queue: Vec<String> = Vec::new();
    for _target in ["10.0.0.5", "10.0.0.6"] {
        queue.extend(harvest(&m, &mut d, "FLAG_sharedsharedsha1"));
    }
    assert_eq!(queue.len(), 1);
    for flag in &queue {
        submit_ok(&mut submitter, &mut stats, flag);
    }
    assert_eq!(stats.get_ok(), 1);
}

#[test]
fn submitter_retries_until_connected() {
    let mut stats = BambiStats::new();
    let mut s = Submitter::new();
    let failures = 3;
    let mut connects = 0;
    let mut a = s.step(SubmitEvent::Flag("FLAG_one".to_string()), &mut stats);
    for _ in 0..failures {
        assert!(matches!(a, SubmitAction::Connect));
        connects += 1;
        a = s.step(SubmitEvent::ConnectFailed, &mut stats);
    }
    assert!(matches!(a, SubmitAction::Connect));
    connects += 1;
    a = s.step(SubmitEvent::Connected, &mut stats);
    match &a {
        SubmitAction::Send(line) => assert_eq!(line, "FLAG_one\n"),
        _ => panic!("expected a send"),
    }
    assert_eq!(connects, failures + 1);
    assert_eq!(stats.get_ok(), 0);
    a = s.step(SubmitEvent::Answered, &mut stats);
    assert!(matches!(a, SubmitAction::AwaitFlag));
    assert_eq!(stats.get_ok(), 1);
}

#[test]
fn submitter_resends_same_flag_after_failed_round_trip() {
    let mut stats = BambiStats::new();
    let mut s = Submitter::new();
    s.step(SubmitEvent::Flag("FLAG_two".to_string()), &mut stats);
    s.step(SubmitEvent::Connected, &mut stats);
    let a = s.step(SubmitEvent::Failed, &mut stats);
    assert!(matches!(a, SubmitAction::Connect));
    let a = s.step(SubmitEvent::Connected, &mut stats);
    match a {
        SubmitAction::Send(line) => assert_eq!(line, "FLAG_two\n"),
        _ => panic!("expected a send"),
    }
    assert_eq!(stats.get_ok(), 0);
    // The connection stays up for the next flag.
    s.step(SubmitEvent::Answered, &mut stats);
    let a = s.step(SubmitEvent::Flag("FLAG_three".to_string()), &mut stats);
    assert!(matches!(a, SubmitAction::Send(_)));
    assert_eq!(stats.get_ok(), 1);
}

#[test]
fn submitter_expects_events_in_order() {
    let mut stats = BambiStats::new();
    let mut s = Submitter::new();
    assert!(matches!(s.action(), SubmitAction::AwaitFlag));
    assert!(s.expects_event(&SubmitEvent::Flag("f".to_string())));
    assert!(!s.expects_event(&SubmitEvent::Answered));
    assert!(!s.expects_event(&SubmitEvent::Connected));
    s.step(SubmitEvent::Flag("f".to_string()), &mut stats);
    assert!(!s.expects_event(&SubmitEvent::Flag("g".to_string())));
    assert!(s.expects_event(&SubmitEvent::ConnectFailed));
    assert!(!s.expects_event(&SubmitEvent::Failed));
}

#[test]
fn line_has_newline_terminator() {
    assert_eq!(submission_line("FLAG_abc"), "FLAG_abc\n");
    assert_eq!(submission_line(""), "\n");
}

#[test]
fn stats_count_up() {
    let mut s = BambiStats::new();
    assert_eq!(s.get_ok(), 0);
    s.add_ok(1);
    s.add_ok(2);
    assert_eq!(s.get_ok(), 3);
}

#[test]
fn keep_novel_filters_seen_and_repeated() {
    let mut d = DedupSet::new();
    assert!(d.admit_flag("old"));
    let flags = vec![
        "a".to_string(),
        "old".to_string(),
        "b".to_string(),
        "a".to_string(),
    ];
    assert_eq!(keep_novel(&mut d, &flags), vec!["a".to_string(), "b".to_string()]);
    assert!(keep_novel(&mut d, &flags).is_empty());
    assert!(keep_novel(&mut d, &Vec::new()).is_empty());
}
