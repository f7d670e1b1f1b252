use stutterclock::report::{format_line, report_line};
use stutterclock::{Automaton, VisitCounters};

#[test]
fn ratio_scenario_half_dwell() {
    // With counts 5, 3, 1, 1 the total is 10 and the reported ratio
    // must be 4 * 5 / 10 = 2.000.
    let line = format_line(5, 3, 1, 1).expect("total is positive");
    assert_eq!(line, "2.000 5 3 1 1 10\r\n");
}

#[test]
fn ratio_uniform_dwell() {
    let line = format_line(7, 7, 7, 7).expect("total is positive");
    assert_eq!(line, "1.000 7 7 7 7 28\r\n");
}

#[test]
fn ratio_rounds_to_nearest_thousandth() {
    // 4 * 1 / 3 = 1.3333... rounds down; 4 * 2 / 3 = 2.6666... rounds
    // up.
    let line = format_line(1, 1, 1, 0).expect("total is positive");
    assert_eq!(line, "1.333 1 1 1 0 3\r\n");
    let line2 = format_line(2, 1, 0, 0).expect("total is positive");
    assert_eq!(line2, "2.667 2 1 0 0 3\r\n");
}

#[test]
fn ratio_zero_and_full() {
    let line = format_line(0, 4, 3, 3).expect("total is positive");
    assert_eq!(line, "0.000 0 4 3 3 10\r\n");
    let line2 = format_line(9, 0, 0, 0).expect("total is positive");
    assert_eq!(line2, "4.000 9 0 0 0 9\r\n");
}

#[test]
fn largest_counts_format() {
    let line = format_line(u32::MAX, 0, 0, 0).expect("total is positive");
    assert_eq!(line, "4.000 4294967295 0 0 0 4294967295\r\n");
}

#[test]
fn no_line_before_first_transition() {
    // A snapshot with zero total has no defined ratio: nothing is
    // reported.
    assert!(format_line(0, 0, 0, 0).is_none());
    let counters = VisitCounters::new();
    assert!(report_line(&counters).is_none());
}

#[test]
fn formatting_is_idempotent() {
    // The same snapshot always formats to byte-identical lines.
    let a = format_line(5, 3, 1, 1).unwrap();
    let b = format_line(5, 3, 1, 1).unwrap();
    assert_eq!(a.as_bytes(), b.as_bytes());
    let c = format_line(123456, 789, 0, 42).unwrap();
    let d = format_line(123456, 789, 0, 42).unwrap();
    assert_eq!(c.as_bytes(), d.as_bytes());
}

#[test]
fn report_line_reads_the_shared_counters() {
    let mut a = Automaton::new();
    for _ in 0..1_000 {
        a.tick();
    }
    let line = report_line(&a.counters).expect("transitions have occurred");
    let c = &a.counters;
    let total = c.c0 as u64 + c.c1 as u64 + c.c2 as u64 + c.c3 as u64;
    let milli = (4000 * c.c0 as u64 + total / 2) / total;
    let expected = format!(
        "{}.{:03} {} {} {} {} {}\r\n",
        milli / 1000,
        milli % 1000,
        c.c0,
        c.c1,
        c.c2,
        c.c3,
        total
    );
    assert_eq!(line, expected);
}
