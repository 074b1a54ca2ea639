use openpty::{close_targets, closefrom_plan, parse_fd_name};
use rustix::fd::AsRawFd;

fn open_null() -> rustix::fd::OwnedFd {
    rustix::fs::open("/dev/null", rustix::fs::OFlags::RDONLY, rustix::fs::Mode::empty()).unwrap()
}

#[test]
fn parse_decimal_names() {
    assert_eq!(parse_fd_name(&b"0".to_vec()), Some(0));
    assert_eq!(parse_fd_name(&b"42".to_vec()), Some(42));
    assert_eq!(parse_fd_name(&b"007".to_vec()), Some(7));
    assert_eq!(parse_fd_name(&b"2147483647".to_vec()), Some(i32::MAX));
    assert_eq!(parse_fd_name(&b"2147483648".to_vec()), None);
    assert_eq!(parse_fd_name(&b"".to_vec()), None);
    assert_eq!(parse_fd_name(&b".".to_vec()), None);
    assert_eq!(parse_fd_name(&b"4a".to_vec()), None);
    assert_eq!(parse_fd_name(&b"-1".to_vec()), None);
}

#[test]
fn close_targets_selects_by_threshold() {
    let names: Vec<Vec<u8>> = vec![
        b".".to_vec(),
        b"..".to_vec(),
        b"3".to_vec(),
        b"10".to_vec(),
        b"11".to_vec(),
        b"250".to_vec(),
    ];
    // 3 is below the threshold, 11 is the listing descriptor itself.
    assert_eq!(close_targets(&names, 10, 11), Some(vec![10, 250]));
}

#[test]
fn close_targets_rejects_foreign_entry() {
    let names: Vec<Vec<u8>> = vec![b"3".to_vec(), b"socket:[123]".to_vec()];
    assert_eq!(close_targets(&names, 0, -1), None);
}

#[test]
fn plan_splits_at_threshold() {
    let mut below: Vec<rustix::fd::OwnedFd> = Vec::new();
    let mut above: Vec<rustix::fd::OwnedFd> = Vec::new();
    for _ in 0..3 {
        below.push(open_null());
    }
    for _ in 0..3 {
        above.push(open_null());
    }
    let threshold = above[0].as_raw_fd();
    let mut plan = closefrom_plan(threshold).unwrap();
    plan.sort();
    let mut expected: Vec<i32> = above.iter().map(|fd| fd.as_raw_fd()).collect();
    expected.sort();
    assert_eq!(plan, expected);
    for fd in &below {
        assert!(!plan.contains(&fd.as_raw_fd()));
    }
}
