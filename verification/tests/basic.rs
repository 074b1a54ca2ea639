use openpty::{openpty, WindowSize};

#[test]
fn test_openpty_basic() {
    let pty = openpty(None, None).unwrap();
    rustix::io::write(&pty.controller, b"Hello, world!\n\x04").unwrap();
    let mut collected: Vec<u8> = Vec::new();
    let mut buf = [0u8; 64];
    loop {
        let n = rustix::io::read(&pty.user, &mut buf[..]).unwrap();
        if n == 0 {
            break;
        }
        collected.extend_from_slice(&buf[..n]);
    }
    assert_eq!(collected, b"Hello, world!\n".to_vec());
}

#[test]
fn test_openpty_with_winsize() {
    let winsize = WindowSize { rows: 43, cols: 42, xpixel: 44, ypixel: 45 };
    let pty = openpty(None, Some(&winsize)).unwrap();
    let check = rustix::termios::tcgetwinsize(&pty.user).unwrap();
    assert_eq!(check.ws_col, 42);
    assert_eq!(check.ws_row, 43);
    assert_eq!(check.ws_xpixel, 44);
    assert_eq!(check.ws_ypixel, 45);
}
