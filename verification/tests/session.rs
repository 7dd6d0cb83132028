use ptybridge::attributes::snapshot;
use ptybridge::pty::allocate;
use ptybridge::pty::release_slave;
use ptybridge::reader::ReaderStep;
use ptybridge::reader::VACATED_ERRNO;
use ptybridge::reader::reader_step;

use nix::fcntl::FcntlArg;
use nix::fcntl::FdFlag;
use nix::fcntl::fcntl;

#[test]
fn allocation_yields_two_distinct_descriptors() {
    let pair = allocate().unwrap();
    assert!(pair.master >= 0);
    assert!(pair.slave >= 0);
    assert_ne!(pair.master, pair.slave);
    let _ = nix::unistd::close(pair.slave);
    let _ = nix::unistd::close(pair.master);
}

#[test]
fn both_descriptors_carry_close_on_exec() {
    let pair = allocate().unwrap();
    let master_flags = fcntl(pair.master, FcntlArg::F_GETFD).unwrap();
    let slave_flags = fcntl(pair.slave, FcntlArg::F_GETFD).unwrap();
    assert!(FdFlag::from_bits_truncate(master_flags).contains(FdFlag::FD_CLOEXEC));
    assert!(FdFlag::from_bits_truncate(slave_flags).contains(FdFlag::FD_CLOEXEC));
    let _ = nix::unistd::close(pair.slave);
    let _ = nix::unistd::close(pair.master);
}

#[test]
fn released_slave_is_no_longer_held() {
    let pair = allocate().unwrap();
    let slave = pair.slave;
    let master = release_slave(pair);
    assert!(fcntl(slave, FcntlArg::F_GETFD).is_err());
    assert!(fcntl(master.fd, FcntlArg::F_GETFD).is_ok());
    let _ = nix::unistd::close(master.fd);
}

#[test]
fn vacated_terminal_stops_the_reader_quietly() {
    let pair = allocate().unwrap();
    let master = release_slave(pair);
    let mut buf = [0u8; 64];
    let err = nix::unistd::read(master.fd, &mut buf).unwrap_err();
    assert_eq!(err as i32, VACATED_ERRNO);
    let step = reader_step(Err(err as i32));
    assert!(matches!(step, ReaderStep::StopVacated));
    let _ = nix::unistd::close(master.fd);
}

#[test]
fn reader_emits_data_as_text_and_hex() {
    let step = reader_step(Ok(&[0x41u8, 0x42, 0x0a]));
    match step {
        ReaderStep::Emit(rec) => {
            assert_eq!(rec.text, "AB\n");
            assert_eq!(rec.hex, b"41 42 0a".to_vec());
        }
        _ => panic!("data must be emitted"),
    }
}

#[test]
fn reader_renders_invalid_utf8_lossily() {
    let step = reader_step(Ok(&[0xffu8, 0x41]));
    match step {
        ReaderStep::Emit(rec) => {
            assert_eq!(rec.text, "\u{fffd}A");
            assert_eq!(rec.hex, b"ff 41".to_vec());
        }
        _ => panic!("data must be emitted"),
    }
}

#[test]
fn empty_read_is_still_emitted() {
    let step = reader_step(Ok(&[]));
    match step {
        ReaderStep::Emit(rec) => {
            assert_eq!(rec.text, "");
            assert_eq!(rec.hex, Vec::<u8>::new());
        }
        _ => panic!("empty data must be emitted"),
    }
}

#[test]
fn other_errors_stop_the_reader_as_failures() {
    let step = reader_step(Err(9));
    assert!(matches!(step, ReaderStep::StopFailure(9)));
}

#[test]
fn snapshot_partitions_every_flag_table() {
    let pair = allocate().unwrap();
    let snap = snapshot(pair.master).unwrap();
    assert_eq!(snap.input.set.len() + snap.input.clear.len(), 14);
    assert_eq!(snap.output.set.len() + snap.output.clear.len(), 14);
    assert_eq!(snap.control.set.len() + snap.control.clear.len(), 12);
    assert_eq!(snap.local.set.len() + snap.local.clear.len(), 15);
    assert_eq!(snap.special.len(), 17);
    assert!(snap.special.iter().any(|(name, _)| *name == "VMIN"));
    assert!(snap.special.iter().any(|(name, _)| *name == "VINTR"));
    let _ = nix::unistd::close(pair.slave);
    let _ = nix::unistd::close(pair.master);
}

#[test]
fn snapshot_reads_the_configured_control_characters() {
    let pair = allocate().unwrap();
    let term = termios::Termios::from_fd(pair.master).unwrap();
    let snap = snapshot(pair.master).unwrap();
    for (name, value) in &snap.special {
        let index = match *name {
            "VINTR" => termios::os::linux::VINTR,
            "VQUIT" => termios::os::linux::VQUIT,
            "VERASE" => termios::os::linux::VERASE,
            "VKILL" => termios::os::linux::VKILL,
            "VEOF" => termios::os::linux::VEOF,
            "VTIME" => termios::os::linux::VTIME,
            "VMIN" => termios::os::linux::VMIN,
            "VSTART" => termios::os::linux::VSTART,
            "VSTOP" => termios::os::linux::VSTOP,
            "VSUSP" => termios::os::linux::VSUSP,
            "VEOL" => termios::os::linux::VEOL,
            "VREPRINT" => termios::os::linux::VREPRINT,
            "VDISCARD" => termios::os::linux::VDISCARD,
            "VWERASE" => termios::os::linux::VWERASE,
            "VLNEXT" => termios::os::linux::VLNEXT,
            "VEOL2" => termios::os::linux::VEOL2,
            "VSWTCH" => 7usize,
            other => panic!("unexpected role {other}"),
        };
        assert_eq!(*value, term.c_cc[index]);
    }
    let _ = nix::unistd::close(pair.slave);
    let _ = nix::unistd::close(pair.master);
}

#[test]
fn split_flags_partitions_by_mask_overlap() {
    let table = vec![(0b01u32, "LOW"), (0b10u32, "HIGH"), (0b11u32, "BOTH")];
    let split = ptybridge::attributes::split_flags(0b01, &table);
    assert_eq!(split.set, vec!["LOW", "BOTH"]);
    assert_eq!(split.clear, vec!["HIGH"]);
}
