use openpty::{open_user_fallback, openpty, peer_error_falls_back, WindowSize};
use rustix::fd::AsRawFd;

#[test]
fn pair_is_distinct_and_cloexec() {
    let pty = openpty(None, None).unwrap();
    assert_ne!(pty.controller.as_raw_fd(), pty.user.as_raw_fd());
    let controller_flags = rustix::io::fcntl_getfd(&pty.controller).unwrap();
    let user_flags = rustix::io::fcntl_getfd(&pty.user).unwrap();
    assert!(controller_flags.contains(rustix::io::FdFlags::CLOEXEC));
    assert!(user_flags.contains(rustix::io::FdFlags::CLOEXEC));
}

#[test]
fn fallback_yields_functional_pair() {
    // A controller made without opening its user side, so that the
    // path-based fallback alone produces the user descriptor, as it would
    // when the fast peer open reports "unsupported".
    let flags = rustix::pty::OpenptFlags::RDWR | rustix::pty::OpenptFlags::NOCTTY
        | rustix::pty::OpenptFlags::CLOEXEC;
    let controller = rustix::pty::openpt(flags).unwrap();
    rustix::pty::grantpt(&controller).unwrap();
    rustix::pty::unlockpt(&controller).unwrap();
    let user = open_user_fallback(&controller).unwrap();
    assert_ne!(controller.as_raw_fd(), user.as_raw_fd());
    let user_flags = rustix::io::fcntl_getfd(&user).unwrap();
    assert!(user_flags.contains(rustix::io::FdFlags::CLOEXEC));
    rustix::io::write(&controller, b"ping\n").unwrap();
    let mut buf = [0u8; 16];
    let n = rustix::io::read(&user, &mut buf[..]).unwrap();
    assert_eq!(&buf[..n], b"ping\n");
}

#[test]
fn peer_error_classification() {
    let unsupported = rustix::io::Errno::NOSYS.raw_os_error();
    let denied = rustix::io::Errno::PERM.raw_os_error();
    let other = rustix::io::Errno::IO.raw_os_error();
    assert!(peer_error_falls_back(unsupported, unsupported, denied));
    assert!(peer_error_falls_back(denied, unsupported, denied));
    assert!(!peer_error_falls_back(other, unsupported, denied));
}

#[test]
fn allocation_applies_given_terminal_mode() {
    let donor = openpty(None, None).unwrap();
    let settings = rustix::termios::tcgetattr(&donor.user).unwrap();
    let pty = openpty(Some(&settings), None).unwrap();
    rustix::io::write(&pty.controller, b"mode\n").unwrap();
    let mut buf = [0u8; 16];
    let n = rustix::io::read(&pty.user, &mut buf[..]).unwrap();
    assert_eq!(&buf[..n], b"mode\n");
}

#[test]
fn roundtrip_user_to_controller() {
    let pty = openpty(None, None).unwrap();
    rustix::io::write(&pty.user, b"output from user\n").unwrap();
    let mut buf = [0u8; 64];
    let n = rustix::io::read(&pty.controller, &mut buf[..]).unwrap();
    // The default line discipline maps the newline to carriage-return plus
    // newline on the way out of the user side.
    assert_eq!(&buf[..n], b"output from user\r\n");
}

#[test]
fn scenario_winsize_and_roundtrip() {
    let winsize = WindowSize { cols: 42, rows: 43, xpixel: 44, ypixel: 45 };
    let pty = openpty(None, Some(&winsize)).unwrap();
    rustix::io::write(&pty.controller, b"Hello, world!\n\x04").unwrap();
    let mut collected: Vec<u8> = Vec::new();
    let mut buf = [0u8; 64];
    loop {
        let n = rustix::io::read(&pty.user, &mut buf[..]).unwrap();
        if n == 0 {
            break;
        }
        collected.extend_from_slice(&buf[..n]);
    }
    assert_eq!(collected, b"Hello, world!\n".to_vec());
    let check = rustix::termios::tcgetwinsize(&pty.user).unwrap();
    assert_eq!(check.ws_col, 42);
    assert_eq!(check.ws_row, 43);
    assert_eq!(check.ws_xpixel, 44);
    assert_eq!(check.ws_ypixel, 45);
}
