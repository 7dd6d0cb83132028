//! PTY allocation and descriptor lifecycle.
//!
//! `allocate` opens a master/slave pair with default settings and
//! marks both ends close-on-exec, so that nothing inherits them
//! silently across a process replacement; only the explicit
//! duplication at spawn time gives the child the slave.  Once the
//! child is running, `release_slave` drops the launcher's own slave
//! reference — the child keeps its duplicated handles — so that the
//! master can observe the vacated terminal when those close.  The
//! laws these steps obey are stated over the descriptor model in
//! `lifecycle`.

use vstd::prelude::*;

use crate::errors::BridgeError;

verus! {

/// A freshly allocated PTY pair: the two ends of one kernel
/// pseudo-terminal, both marked close-on-exec.
pub struct PtyPair {
    /// The master end, owned by the bridge for its whole lifetime.
    pub master: i32,
    /// The slave end, destined for the child session.
    pub slave: i32,
}

/// The master end alone: what the launcher still holds once its slave
/// reference is released.
pub struct MasterEnd {
    /// The master descriptor.
    pub fd: i32,
}

/// Relies on nix::pty::openpty with default window size and terminal
/// settings: on success the two descriptors of one new
/// pseudo-terminal, freshly opened, hence non-negative and distinct;
/// on failure the OS error number.
#[verifier::external_body]
fn sys_openpty() -> (r: Result<(i32, i32), i32>)
    ensures
        r matches Ok(p) ==> 0 <= p.0 && 0 <= p.1 && p.0 != p.1,
{
    match nix::pty::openpty(None, None) {
        Ok(p) => Ok((p.master, p.slave)),
        Err(e) => Err(e as i32),
    }
}

/// Relies on nix::fcntl::fcntl with F_SETFD(FD_CLOEXEC): marks the
/// descriptor close-on-exec; on failure the OS error number.
#[verifier::external_body]
fn sys_set_cloexec(fd: i32) -> (r: Result<(), i32>) {
    match nix::fcntl::fcntl(fd, nix::fcntl::FcntlArg::F_SETFD(nix::fcntl::FdFlag::FD_CLOEXEC)) {
        Ok(_) => Ok(()),
        Err(e) => Err(e as i32),
    }
}

/// Relies on nix::unistd::close: gives up the calling process's
/// reference to the descriptor; on failure the OS error number.
#[verifier::external_body]
fn sys_close(fd: i32) -> (r: Result<(), i32>) {
    match nix::unistd::close(fd) {
        Ok(()) => Ok(()),
        Err(e) => Err(e as i32),
    }
}

/// Allocate a PTY pair with default settings and mark both ends
/// close-on-exec.  Performs, in order, the open step and the two flag
/// steps of the lifecycle model; each failure is an allocation error
/// carrying the OS error number, fatal to startup.
pub fn allocate() -> (r: Result<PtyPair, BridgeError>)
    ensures
        r matches Ok(p) ==> 0 <= p.master && 0 <= p.slave && p.master != p.slave,
        r matches Err(e) ==> e is Allocation,
{
    let (master, slave) = match sys_openpty() {
        Ok(p) => p,
        Err(e) => {
            return Err(BridgeError::Allocation(e));
        },
    };
    if let Err(e) = sys_set_cloexec(master) {
        return Err(BridgeError::Allocation(e));
    }
    if let Err(e) = sys_set_cloexec(slave) {
        return Err(BridgeError::Allocation(e));
    }
    Ok(PtyPair { master, slave })
}

/// Release the launcher's own slave reference after a successful
/// spawn, keeping only the master.  The child's duplicated handles
/// stay open; a close failure is ignored, as dropping an owned
/// descriptor would ignore it.
pub fn release_slave(pair: PtyPair) -> (m: MasterEnd)
    ensures
        m.fd == pair.master,
{
    let _ = sys_close(pair.slave);
    MasterEnd { fd: pair.master }
}

} // verus!
