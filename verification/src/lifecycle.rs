//! A model of the launcher's descriptor table across the PTY
//! lifecycle.
//!
//! The runtime steps in `pty` act on kernel state that no contract
//! over return values can reach, so the lifecycle is modelled here as
//! transitions over a descriptor table: `allocate` performs the open
//! step followed by one flag step per end, and `release_slave`
//! performs the close step on the slave.  The laws below state what
//! the sequences performed by those functions leave behind.

use vstd::prelude::*;

verus! {

/// What the launcher's table tracks of one descriptor.
pub struct DescriptorState {
    /// The launcher holds the descriptor open.
    pub open: bool,
    /// The descriptor is marked close-on-exec.
    pub cloexec: bool,
}

/// The launcher-side descriptor table, one entry per descriptor
/// number.
pub struct LauncherState {
    /// The table itself.
    pub table: Map<int, DescriptorState>,
}

/// The open step: a fresh pair comes back open and not yet marked
/// close-on-exec.
pub open spec fn open_pair_step(s: LauncherState, master: int, slave: int) -> LauncherState {
    LauncherState {
        table: s.table.insert(master, DescriptorState { open: true, cloexec: false }).insert(
            slave,
            DescriptorState { open: true, cloexec: false },
        ),
    }
}

/// The flag step: marking one descriptor close-on-exec changes
/// nothing else.
pub open spec fn set_cloexec_step(s: LauncherState, fd: int) -> LauncherState
    recommends
        s.table.dom().contains(fd),
{
    LauncherState {
        table: s.table.insert(fd, DescriptorState { open: s.table[fd].open, cloexec: true }),
    }
}

/// The close step: the launcher gives up its reference to one
/// descriptor.
pub open spec fn close_step(s: LauncherState, fd: int) -> LauncherState
    recommends
        s.table.dom().contains(fd),
{
    LauncherState {
        table: s.table.insert(
            fd,
            DescriptorState { open: false, cloexec: s.table[fd].cloexec },
        ),
    }
}

/// The table after a successful allocation: the open step, then the
/// flag step on the master, then the flag step on the slave — the
/// exact sequence `allocate` performs.
pub open spec fn allocated_state(s: LauncherState, master: int, slave: int) -> LauncherState {
    set_cloexec_step(set_cloexec_step(open_pair_step(s, master, slave), master), slave)
}

/// Close-on-exec law: after any successful allocation, whatever table
/// the launcher started from, both resulting descriptors are open and
/// marked close-on-exec.
pub proof fn lemma_allocation_sets_cloexec(s: LauncherState, master: int, slave: int)
    requires
        master != slave,
    ensures
        allocated_state(s, master, slave).table[master].cloexec,
        allocated_state(s, master, slave).table[slave].cloexec,
        allocated_state(s, master, slave).table[master].open,
        allocated_state(s, master, slave).table[slave].open,
{
}

/// Slave-release law: after a successful spawn the launcher holds no
/// open reference to the slave — the close step leaves the slave
/// entry closed and the master entry untouched, so the kernel's
/// last-writer-closed signal depends on the child's handles alone.
pub proof fn lemma_release_frees_slave(s: LauncherState, master: int, slave: int)
    requires
        master != slave,
    ensures
        !close_step(allocated_state(s, master, slave), slave).table[slave].open,
        close_step(allocated_state(s, master, slave), slave).table[slave].cloexec,
        close_step(allocated_state(s, master, slave), slave).table[master] == allocated_state(
            s,
            master,
            slave,
        ).table[master],
{
}

} // verus!
