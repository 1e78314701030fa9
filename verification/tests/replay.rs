use loadgen::outcome::TransportResult;
use loadgen::replay::replay;

fn answers(n: usize) -> Vec<TransportResult> {
    vec![TransportResult::Response { status: 200 }; n]
}

fn refusals(n: usize) -> Vec<TransportResult> {
    vec![TransportResult::Failed; n]
}

#[test]
fn replay_of_nothing_reports_zero() {
    assert_eq!(replay(100, &Vec::new()), Some((0, 0)));
    assert_eq!(replay(1, &Vec::new()), Some((0, 0)));
    assert_eq!(replay(0, &Vec::new()), Some((0, 0)));
}

#[test]
fn replay_with_failing_transport() {
    assert_eq!(replay(100, &refusals(1000)), Some((0, 1000)));
    assert_eq!(replay(1, &refusals(5)), Some((0, 5)));
    assert_eq!(replay(7, &refusals(7)), Some((0, 7)));
}

#[test]
fn replay_with_answering_transport() {
    assert_eq!(replay(100, &answers(1000)), Some((1000, 0)));
    assert_eq!(replay(1, &answers(5)), Some((5, 0)));
    assert_eq!(replay(8, &answers(7)), Some((7, 0)));
}

#[test]
fn replay_counts_each_result_once() {
    let results = vec![
        TransportResult::Response { status: 200 },
        TransportResult::Failed,
        TransportResult::Response { status: 404 },
        TransportResult::Response { status: 500 },
        TransportResult::Failed,
    ];
    for max_conn in 1..8 {
        assert_eq!(replay(max_conn, &results), Some((3, 2)));
    }
}

#[test]
fn replay_without_slots_aborts() {
    assert_eq!(replay(0, &answers(1)), None);
    assert_eq!(replay(0, &refusals(12)), None);
}

#[test]
fn replay_of_a_long_run() {
    let mut results = Vec::new();
    for i in 0..30000usize {
        if i % 4 == 0 {
            results.push(TransportResult::Failed);
        } else {
            results.push(TransportResult::Response { status: 200 });
        }
    }
    assert_eq!(replay(100, &results), Some((22500, 7500)));
}
