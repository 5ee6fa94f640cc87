use deployment_copy::copy::{CopyQueue, CopyStep, Outcome};
use deployment_copy::error::CopyError;
use deployment_copy::progress::{percentage, CopyingState};
use deployment_copy::Args;

fn two_destinations() -> CopyQueue {
    CopyQueue::new(String::from("src"), vec![String::from("first"), String::from("second")])
}

#[test]
fn queue_keeps_source_and_order() {
    let queue = CopyQueue::from((
        String::from("test_dir"),
        vec![String::from("copy_to_1"), String::from("copy_to_2"), String::from("copy_to_1")],
    ));
    assert_eq!(queue.source(), "test_dir");
    assert_eq!(queue.destinations(), &vec!["copy_to_1", "copy_to_2", "copy_to_1"]);
    let copy = queue.clone();
    assert_eq!(copy.source(), queue.source());
    assert_eq!(copy.destinations(), queue.destinations());
}

#[test]
fn queue_from_arguments() {
    let args = Args {
        copy_from: String::from("from"),
        drives: vec![String::from("D:\\"), String::from("E:\\")],
        yes: true,
    };
    let queue = CopyQueue::from(&args);
    assert_eq!(queue.source(), "from");
    assert_eq!(queue.destinations(), &vec!["D:\\", "E:\\"]);
    assert_eq!(args.drives.len(), 2);
}

#[test]
fn percentage_is_the_floor_of_the_share() {
    assert_eq!(percentage(0, 1000), 0);
    assert_eq!(percentage(1, 1000), 0);
    assert_eq!(percentage(10, 1000), 1);
    assert_eq!(percentage(333, 1000), 33);
    assert_eq!(percentage(999, 1000), 99);
    assert_eq!(percentage(1000, 1000), 100);
    assert_eq!(percentage(1, 3), 33);
    assert_eq!(percentage(2, 3), 66);
}

#[test]
fn percentage_stays_at_100() {
    assert_eq!(percentage(1001, 1000), 100);
    assert_eq!(percentage(u64::MAX, 1), 100);
    assert_eq!(percentage(u64::MAX, u64::MAX), 100);
    assert_eq!(percentage(u64::MAX - 1, u64::MAX), 99);
}

#[test]
fn percentage_of_an_empty_source() {
    assert_eq!(percentage(0, 0), 0);
    assert_eq!(percentage(1, 0), 100);
}

#[test]
fn percentage_never_falls() {
    let total = 777;
    let mut last = 0;
    for copied in 0..=800 {
        let now = percentage(copied, total);
        assert!(now >= last);
        assert!(now <= 100);
        last = now;
    }
    assert_eq!(last, 100);
}

#[test]
fn report_carries_its_values() {
    let state = CopyingState::new(512, 2048, String::from("D:\\"));
    assert_eq!(state.bytes_copied, 512);
    assert_eq!(state.percentage, 25);
    assert_eq!(state.destination, "D:\\");
    let copy = state.clone();
    assert_eq!(copy.bytes_copied, 512);
    assert_eq!(copy.percentage, 25);
    assert_eq!(copy.destination, "D:\\");
}

#[test]
fn unreadable_source_fails_before_any_destination() {
    let started = two_destinations().start_copy(None);
    assert!(matches!(started, Err(CopyError::SourceUnreadable)));
}

#[test]
fn run_copies_the_first_destination_before_the_second() {
    let total = 4096;
    let mut session = two_destinations().start_copy(Some(total)).expect("the source was measured");
    assert_eq!(session.total_bytes(), total);
    assert_eq!(session.attempted(), 0);
    assert!(!session.is_complete());

    let mut completions = 0;
    let mut reports: Vec<(String, usize, u64)> = Vec::new();
    loop {
        match session.next_step() {
            CopyStep::CopyTo(index) => {
                assert_eq!(index, session.attempted());
                for copied in [0, 1024, 2048, 4096] {
                    let state = session.progress(copied).expect("a destination is being copied to");
                    reports.push((state.destination, state.percentage, state.bytes_copied));
                }
                session = session.record(Outcome::Copied);
            }
            CopyStep::Complete => completions += 1,
            CopyStep::Finished => break,
        }
    }

    assert_eq!(completions, 1);
    assert!(session.is_complete());
    assert_eq!(session.attempted(), 2);
    let expected: Vec<(String, usize, u64)> = ["first", "second"]
        .iter()
        .flat_map(|name| {
            [(0, 0), (25, 1024), (50, 2048), (100, 4096)]
                .iter()
                .map(|&(percent, bytes)| (name.to_string(), percent, bytes))
                .collect::<Vec<_>>()
        })
        .collect();
    assert_eq!(reports, expected);

    let summary = session.summary();
    assert_eq!(summary.succeeded, vec!["first", "second"]);
    assert!(summary.failed.is_empty());
}

#[test]
fn failed_destination_does_not_stop_the_run() {
    let queue = CopyQueue::new(
        String::from("src"),
        vec![String::from("locked"), String::from("open"), String::from("full")],
    );
    let mut session = queue.start_copy(Some(10)).expect("the source was measured");

    assert_eq!(session.next_step(), CopyStep::CopyTo(0));
    session = session.record(Outcome::Failed(String::from("permission denied")));
    assert_eq!(session.next_step(), CopyStep::CopyTo(1));
    assert_eq!(session.progress(10).map(|state| state.destination), Some(String::from("open")));
    session = session.record(Outcome::Copied);
    assert_eq!(session.next_step(), CopyStep::CopyTo(2));
    session = session.record(Outcome::Failed(String::from("disk full")));

    assert_eq!(session.next_step(), CopyStep::Complete);
    assert_eq!(session.next_step(), CopyStep::Finished);
    assert_eq!(session.next_step(), CopyStep::Finished);

    let summary = session.summary();
    assert_eq!(summary.succeeded, vec!["open"]);
    assert_eq!(
        summary.failed,
        vec![
            (String::from("locked"), String::from("permission denied")),
            (String::from("full"), String::from("disk full")),
        ]
    );
}

#[test]
fn step_is_repeated_until_an_outcome_is_recorded() {
    let mut session = two_destinations().start_copy(Some(1)).expect("the source was measured");
    assert_eq!(session.next_step(), CopyStep::CopyTo(0));
    assert_eq!(session.next_step(), CopyStep::CopyTo(0));
    assert_eq!(session.attempted(), 0);
    assert!(session.summary().succeeded.is_empty());
    assert!(session.summary().failed.is_empty());
}

#[test]
fn empty_queue_completes_at_once() {
    let queue = CopyQueue::new(String::from("src"), Vec::new());
    let mut session = queue.start_copy(Some(0)).expect("the source was measured");
    assert!(session.progress(0).is_none());
    assert_eq!(session.next_step(), CopyStep::Complete);
    assert!(session.is_complete());
    assert_eq!(session.next_step(), CopyStep::Finished);
}

#[test]
fn outcome_without_a_destination_is_dropped() {
    let queue = CopyQueue::new(String::from("src"), vec![String::from("only")]);
    let mut session = queue.start_copy(Some(5)).expect("the source was measured");
    session = session.record(Outcome::Copied);
    session = session.record(Outcome::Failed(String::from("late")));
    assert_eq!(session.attempted(), 1);
    assert!(session.progress(5).is_none());
    assert_eq!(session.next_step(), CopyStep::Complete);
    session = session.record(Outcome::Copied);
    assert_eq!(session.attempted(), 1);
    let summary = session.summary();
    assert_eq!(summary.succeeded, vec!["only"]);
    assert!(summary.failed.is_empty());
}

#[test]
fn failures_have_their_own_exit_codes() {
    let failures = [
        CopyError::Argument(String::from("no source")),
        CopyError::SourceUnreadable,
        CopyError::DestinationCopy {
            destination: String::from("D:\\"),
            reason: String::from("disk full"),
        },
        CopyError::RenderIo(String::from("broken pipe")),
    ];
    let codes: Vec<u8> = failures.iter().map(|failure| failure.exit_code()).collect();
    assert_eq!(codes, vec![2, 3, 4, 5]);
    let fatal: Vec<bool> = failures.iter().map(|failure| failure.is_fatal()).collect();
    assert_eq!(fatal, vec![true, true, false, true]);
}

#[test]
fn failures_are_reported_in_one_line() {
    assert_eq!(
        CopyError::Argument(String::from("no source")).message(),
        "invalid arguments: no source"
    );
    assert_eq!(CopyError::SourceUnreadable.message(), "the source directory cannot be read");
    assert_eq!(
        CopyError::DestinationCopy {
            destination: String::from("D:\\"),
            reason: String::from("disk full"),
        }
        .message(),
        "failed to copy to D:\\: disk full"
    );
    assert_eq!(
        CopyError::RenderIo(String::from("broken pipe")).message(),
        "cannot write to the terminal: broken pipe"
    );
}

#[test]
fn summary_reports_successes_and_failures_by_name() {
    let queue = CopyQueue::new(
        String::from("src"),
        vec![String::from("locked"), String::from("open"), String::from("full")],
    );
    let mut session = queue.start_copy(Some(10)).expect("the source was measured");
    session = session.record(Outcome::Failed(String::from("permission denied")));
    session = session.record(Outcome::Copied);
    session = session.record(Outcome::Failed(String::from("disk full")));
    let summary = session.summary();
    assert!(!summary.is_clean());
    assert_eq!(summary.exit_code(), 4);
    assert_eq!(
        summary.report(),
        vec![
            "copied to open",
            "failed to copy to locked: permission denied",
            "failed to copy to full: disk full",
        ]
    );
}

#[test]
fn summary_of_a_clean_run_exits_with_zero() {
    let mut session = two_destinations().start_copy(Some(10)).expect("the source was measured");
    session = session.record(Outcome::Copied);
    session = session.record(Outcome::Copied);
    let summary = session.summary();
    assert!(summary.is_clean());
    assert_eq!(summary.exit_code(), 0);
    assert_eq!(summary.report(), vec!["copied to first", "copied to second"]);

    let untouched = two_destinations().start_copy(Some(10)).expect("the source was measured");
    assert!(untouched.summary().report().is_empty());
    assert_eq!(untouched.summary().exit_code(), 0);
}
