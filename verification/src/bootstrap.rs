//! The isolation bootstrap: the ordered decisions that turn an ordinary
//! process into a confined one.
//!
//! The system calls themselves — unshare, fork, the mounts, the pivot, the
//! filter installation — happen outside the library.  What the library
//! fixes, and what this module proves, is their order and their arguments:
//! the phases move strictly forward, the identity mapping precedes every
//! mount, the pivot precedes the rendezvous and the filter, and the filter
//! precedes the capability drop.

use vstd::prelude::*;

verus! {

/// Which branch of the fork a process resumed in.  Following standard
/// semantics, a zero return names the child, which remains inside the new
/// namespaces; the parent has no further role.
#[derive(Clone, Copy, Debug, PartialEq, Eq, Structural)]
pub enum ProcessType {
    Parent,
    Child,
}

/// Whether the bootstrap continues in this branch of the fork: only the
/// child — the branch inside the new namespaces — goes on; the parent
/// terminates at once.
pub fn after_fork(t: &ProcessType) -> (cont: bool)
    ensures
        cont <==> t is Child,
{
    match t {
        ProcessType::Child => true,
        ProcessType::Parent => false,
    }
}

/// Mount namespace flag.
pub const CLONE_NEWNS: i32 = 0x0002_0000;
/// Control-group namespace flag.
pub const CLONE_NEWCGROUP: i32 = 0x0200_0000;
/// Hostname (UTS) namespace flag.
pub const CLONE_NEWUTS: i32 = 0x0400_0000;
/// Inter-process-communication namespace flag.
pub const CLONE_NEWIPC: i32 = 0x0800_0000;
/// User namespace flag.
pub const CLONE_NEWUSER: i32 = 0x1000_0000;
/// Process-id namespace flag.
pub const CLONE_NEWPID: i32 = 0x2000_0000;
/// Network namespace flag.
pub const CLONE_NEWNET: i32 = 0x4000_0000;

/// The one unshare argument: every namespace kind at once.  The namespaces
/// are created together, in a single call, before the inner fork.
pub const UNSHARE_ALL_NAMESPACES: i32 = 0x7e02_0000;

/// Law: the combined unshare argument requests exactly the union of the
/// seven namespace flags, so one call creates them all together.
pub proof fn lemma_unshare_covers_all_namespaces()
    ensures
        UNSHARE_ALL_NAMESPACES == (CLONE_NEWUSER | CLONE_NEWNS | CLONE_NEWPID | CLONE_NEWCGROUP
            | CLONE_NEWIPC | CLONE_NEWNET | CLONE_NEWUTS),
{
    assert(0x7e02_0000i32 == (0x1000_0000i32 | 0x0002_0000i32 | 0x2000_0000i32 | 0x0200_0000i32
        | 0x0800_0000i32 | 0x4000_0000i32 | 0x0400_0000i32)) by (bit_vector);
}

/// Mount flag: read-only.
pub const MS_RDONLY: u64 = 0x1;
/// Mount flag: no set-id bits.
pub const MS_NOSUID: u64 = 0x2;
/// Mount flag: no device nodes.
pub const MS_NODEV: u64 = 0x4;
/// Mount flag: no execution.
pub const MS_NOEXEC: u64 = 0x8;
/// Mount flag: bind mount.
pub const MS_BIND: u64 = 0x1000;
/// Mount flag: apply recursively.
pub const MS_REC: u64 = 0x4000;
/// Mount flag: stop mount-event propagation.
pub const MS_PRIVATE: u64 = 0x4_0000;
/// Unmount flag: lazy detach.
pub const MNT_DETACH: i32 = 0x2;

/// Flags that mark the old root private, recursively.
pub const ROOT_PRIVATE_MOUNT_FLAGS: u64 = 0x4_4000;

/// Flags that bind the working directory onto itself, recursively.
pub const BIND_SELF_MOUNT_FLAGS: u64 = 0x5000;

/// Flags of the restricted procfs mount: no execution, no set-id bits, no
/// device nodes.
pub const PROC_MOUNT_FLAGS: u64 = 0xe;

/// Flags of the restricted sysfs mount: as procfs, and read-only besides.
pub const SYS_MOUNT_FLAGS: u64 = 0xf;

/// Law: each mount of the pivot sequence carries exactly the restrictions
/// the design asks of it.
pub proof fn lemma_restricted_mounts()
    ensures
        ROOT_PRIVATE_MOUNT_FLAGS == (MS_REC | MS_PRIVATE),
        BIND_SELF_MOUNT_FLAGS == (MS_REC | MS_BIND),
        PROC_MOUNT_FLAGS == (MS_NOEXEC | MS_NOSUID | MS_NODEV),
        SYS_MOUNT_FLAGS == (MS_NOEXEC | MS_NOSUID | MS_NODEV | MS_RDONLY),
        SYS_MOUNT_FLAGS & MS_RDONLY == MS_RDONLY,
{
    assert(0x4_4000u64 == (0x4000u64 | 0x4_0000u64)) by (bit_vector);
    assert(0x5000u64 == (0x4000u64 | 0x1000u64)) by (bit_vector);
    assert(0xeu64 == (0x8u64 | 0x2u64 | 0x4u64)) by (bit_vector);
    assert(0xfu64 == (0x8u64 | 0x2u64 | 0x4u64 | 0x1u64)) by (bit_vector);
    assert(0xfu64 & 0x1u64 == 0x1u64) by (bit_vector);
}

/// The strictly ordered phases of the bootstrap.  No phase is ever
/// revisited, and `Confined` is terminal: from there the process reaches
/// privileged resources only through the channel to the broker.
#[derive(Clone, Copy, Debug, PartialEq, Eq, Structural)]
pub enum Phase {
    /// Write the demonstration marker artifact.
    WriteMarker,
    /// Set no-new-privileges, irreversibly.
    SetNoNewPrivs,
    /// Read, advisory only, whether the kernel permits unprivileged
    /// namespace creation; warn, never gate.
    InspectUnprivClone,
    /// Record the real uid and gid for the identity mapping to come.
    RecordIdentity,
    /// Create every namespace kind in one unshare call.
    CreateNamespaces,
    /// Fork; only the branch inside the new namespaces continues.
    ForkInner,
    /// Write the single-entry id maps and deny setgroups, from inside the
    /// namespaces, before any mount.
    WriteIdentityMap,
    /// Set the isolated hostname.
    SetIsolatedHostname,
    /// Run the root-pivot sequence.
    PivotRoot,
    /// Bind the local socket and retry the connect until the broker answers.
    Rendezvous,
    /// Install the syscall filter.
    InstallFilter,
    /// Drop the full capability bounding set, emptying it.
    DropCapabilities,
    /// Terminal: the process is confined.
    Confined,
}

/// Position of a phase in the bootstrap order.
pub open spec fn phase_index(p: Phase) -> nat {
    match p {
        Phase::WriteMarker => 0,
        Phase::SetNoNewPrivs => 1,
        Phase::InspectUnprivClone => 2,
        Phase::RecordIdentity => 3,
        Phase::CreateNamespaces => 4,
        Phase::ForkInner => 5,
        Phase::WriteIdentityMap => 6,
        Phase::SetIsolatedHostname => 7,
        Phase::PivotRoot => 8,
        Phase::Rendezvous => 9,
        Phase::InstallFilter => 10,
        Phase::DropCapabilities => 11,
        Phase::Confined => 12,
    }
}

/// The successor of each phase.
pub open spec fn spec_next_phase(p: Phase) -> Phase {
    match p {
        Phase::WriteMarker => Phase::SetNoNewPrivs,
        Phase::SetNoNewPrivs => Phase::InspectUnprivClone,
        Phase::InspectUnprivClone => Phase::RecordIdentity,
        Phase::RecordIdentity => Phase::CreateNamespaces,
        Phase::CreateNamespaces => Phase::ForkInner,
        Phase::ForkInner => Phase::WriteIdentityMap,
        Phase::WriteIdentityMap => Phase::SetIsolatedHostname,
        Phase::SetIsolatedHostname => Phase::PivotRoot,
        Phase::PivotRoot => Phase::Rendezvous,
        Phase::Rendezvous => Phase::InstallFilter,
        Phase::InstallFilter => Phase::DropCapabilities,
        Phase::DropCapabilities => Phase::Confined,
        Phase::Confined => Phase::Confined,
    }
}

/// Step the bootstrap to its next phase.
pub fn next_phase(p: &Phase) -> (n: Phase)
    ensures
        n == spec_next_phase(*p),
{
    match p {
        Phase::WriteMarker => Phase::SetNoNewPrivs,
        Phase::SetNoNewPrivs => Phase::InspectUnprivClone,
        Phase::InspectUnprivClone => Phase::RecordIdentity,
        Phase::RecordIdentity => Phase::CreateNamespaces,
        Phase::CreateNamespaces => Phase::ForkInner,
        Phase::ForkInner => Phase::WriteIdentityMap,
        Phase::WriteIdentityMap => Phase::SetIsolatedHostname,
        Phase::SetIsolatedHostname => Phase::PivotRoot,
        Phase::PivotRoot => Phase::Rendezvous,
        Phase::Rendezvous => Phase::InstallFilter,
        Phase::InstallFilter => Phase::DropCapabilities,
        Phase::DropCapabilities => Phase::Confined,
        Phase::Confined => Phase::Confined,
    }
}

/// Law: the bootstrap only moves forward — each step raises the phase
/// index by one — and the confined state is terminal.
pub proof fn lemma_bootstrap_monotonic(p: Phase)
    ensures
        p is Confined ==> spec_next_phase(p) == p,
        !(p is Confined) ==> phase_index(spec_next_phase(p)) == phase_index(p) + 1,
{
}

/// Law: the order keeps the security-critical precedences: privileges are
/// capped before namespaces exist, the namespaces precede the inner fork,
/// the identity mapping is written after the fork and before any mount,
/// the pivot precedes both the rendezvous and the filter, and the filter
/// precedes the capability drop.
pub proof fn lemma_bootstrap_order()
    ensures
        phase_index(Phase::SetNoNewPrivs) < phase_index(Phase::CreateNamespaces),
        phase_index(Phase::RecordIdentity) < phase_index(Phase::CreateNamespaces),
        phase_index(Phase::CreateNamespaces) < phase_index(Phase::ForkInner),
        phase_index(Phase::ForkInner) < phase_index(Phase::WriteIdentityMap),
        phase_index(Phase::WriteIdentityMap) < phase_index(Phase::PivotRoot),
        phase_index(Phase::PivotRoot) < phase_index(Phase::Rendezvous),
        phase_index(Phase::PivotRoot) < phase_index(Phase::InstallFilter),
        phase_index(Phase::InstallFilter) < phase_index(Phase::DropCapabilities),
{
}

/// The ordered sub-steps of the root pivot.  Their failure handling is the
/// caller's affair; their order is not.
#[derive(Clone, Copy, Debug, PartialEq, Eq, Structural)]
pub enum PivotStep {
    /// Mark the old root private and recursive, stopping mount-event
    /// propagation across the namespace boundary.
    MakeRootPrivate,
    /// Bind-mount the working directory onto itself, making it a valid
    /// pivot target.
    BindWorkdirSelf,
    /// Change directory into that mount point.
    EnterWorkdir,
    /// Mount the restricted procfs beneath it.
    MountRestrictedProc,
    /// Mount the restricted, read-only sysfs beneath it.
    MountRestrictedSys,
    /// Pivot the root, the current directory serving as both the new root
    /// and the put-old target.
    PivotIntoWorkdir,
    /// Lazily unmount the overlaid old root.
    DetachOldRoot,
    /// Return the working directory to the namespace's new root.
    ReturnToRoot,
    /// The pivot sequence is complete.
    PivotDone,
}

/// Position of a sub-step in the pivot order.
pub open spec fn pivot_index(s: PivotStep) -> nat {
    match s {
        PivotStep::MakeRootPrivate => 0,
        PivotStep::BindWorkdirSelf => 1,
        PivotStep::EnterWorkdir => 2,
        PivotStep::MountRestrictedProc => 3,
        PivotStep::MountRestrictedSys => 4,
        PivotStep::PivotIntoWorkdir => 5,
        PivotStep::DetachOldRoot => 6,
        PivotStep::ReturnToRoot => 7,
        PivotStep::PivotDone => 8,
    }
}

/// The successor of each pivot sub-step.
pub open spec fn spec_next_pivot_step(s: PivotStep) -> PivotStep {
    match s {
        PivotStep::MakeRootPrivate => PivotStep::BindWorkdirSelf,
        PivotStep::BindWorkdirSelf => PivotStep::EnterWorkdir,
        PivotStep::EnterWorkdir => PivotStep::MountRestrictedProc,
        PivotStep::MountRestrictedProc => PivotStep::MountRestrictedSys,
        PivotStep::MountRestrictedSys => PivotStep::PivotIntoWorkdir,
        PivotStep::PivotIntoWorkdir => PivotStep::DetachOldRoot,
        PivotStep::DetachOldRoot => PivotStep::ReturnToRoot,
        PivotStep::ReturnToRoot => PivotStep::PivotDone,
        PivotStep::PivotDone => PivotStep::PivotDone,
    }
}

/// Step the pivot to its next sub-step.
pub fn next_pivot_step(s: &PivotStep) -> (n: PivotStep)
    ensures
        n == spec_next_pivot_step(*s),
{
    match s {
        PivotStep::MakeRootPrivate => PivotStep::BindWorkdirSelf,
        PivotStep::BindWorkdirSelf => PivotStep::EnterWorkdir,
        PivotStep::EnterWorkdir => PivotStep::MountRestrictedProc,
        PivotStep::MountRestrictedProc => PivotStep::MountRestrictedSys,
        PivotStep::MountRestrictedSys => PivotStep::PivotIntoWorkdir,
        PivotStep::PivotIntoWorkdir => PivotStep::DetachOldRoot,
        PivotStep::DetachOldRoot => PivotStep::ReturnToRoot,
        PivotStep::ReturnToRoot => PivotStep::PivotDone,
        PivotStep::PivotDone => PivotStep::PivotDone,
    }
}

/// Law: the pivot sequence moves strictly forward, and the bind of the
/// working directory precedes the pivot, the pivot precedes the detach of
/// the old root, and the mounts of proc and sys sit between the entry into
/// the working directory and the pivot.
pub proof fn lemma_pivot_order(s: PivotStep)
    ensures
        s is PivotDone ==> spec_next_pivot_step(s) == s,
        !(s is PivotDone) ==> pivot_index(spec_next_pivot_step(s)) == pivot_index(s) + 1,
        pivot_index(PivotStep::BindWorkdirSelf) < pivot_index(PivotStep::PivotIntoWorkdir),
        pivot_index(PivotStep::EnterWorkdir) < pivot_index(PivotStep::MountRestrictedProc),
        pivot_index(PivotStep::MountRestrictedSys) < pivot_index(PivotStep::PivotIntoWorkdir),
        pivot_index(PivotStep::PivotIntoWorkdir) < pivot_index(PivotStep::DetachOldRoot),
{
}

/// Decimal digits of `n`, most significant first.
pub open spec fn dec_digits(n: nat) -> Seq<u8>
    decreases n,
{
    if n < 10 {
        seq![(48 + n) as u8]
    } else {
        dec_digits(n / 10) + seq![(48 + n % 10) as u8]
    }
}

/// Render an id in decimal.
pub fn render_decimal(n: u32) -> (r: Vec<u8>)
    ensures
        r@ == dec_digits(n as nat),
    decreases n,
{
    if n < 10 {
        let mut v: Vec<u8> = Vec::new();
        v.push(48 + n as u8);
        proof {
            assert(v@ =~= dec_digits(n as nat));
        }
        v
    } else {
        let mut v = render_decimal(n / 10);
        v.push(48 + (n % 10) as u8);
        proof {
            assert(v@ =~= dec_digits((n / 10) as nat) + seq![(48 + (n as nat) % 10) as u8]);
        }
        v
    }
}

/// One line of a proc id-map file: the id, a tab, the same id, a tab, a
/// count of one, and a newline — the single self-mapping the sandbox
/// writes for the pre-namespace identity it recorded.
pub open spec fn id_map_line(id: nat) -> Seq<u8> {
    dec_digits(id) + seq![9u8] + dec_digits(id) + seq![9u8, 49u8, 10u8]
}

/// Render the id-map line for one recorded id.
pub fn render_id_map_line(id: u32) -> (r: Vec<u8>)
    ensures
        r@ == id_map_line(id as nat),
{
    let mut v = render_decimal(id);
    v.push(9);
    let mut again = render_decimal(id);
    v.append(&mut again);
    v.push(9);
    v.push(49);
    v.push(10);
    proof {
        assert(v@ =~= id_map_line(id as nat));
    }
    v
}

/// The bytes written to deny setgroups before the gid map: `"deny"`.
pub open spec fn setgroups_deny_bytes() -> Seq<u8> {
    seq![100u8, 101u8, 110u8, 121u8]
}

/// Render the setgroups denial.
pub fn render_setgroups_deny() -> (r: Vec<u8>)
    ensures
        r@ == setgroups_deny_bytes(),
{
    let mut v: Vec<u8> = Vec::new();
    v.push(100);
    v.push(101);
    v.push(110);
    v.push(121);
    proof {
        assert(v@ =~= setgroups_deny_bytes());
    }
    v
}

/// Whether the recorded identity warrants the warning against running as
/// root, printed before any namespace is created.
pub fn ids_warrant_root_warning(uid: u32, gid: u32, euid: u32, egid: u32) -> (r: bool)
    ensures
        r <==> (uid == 0 || euid == 0 || gid == 0 || egid == 0),
{
    uid == 0 || euid == 0 || gid == 0 || egid == 0
}

/// Whether the kernel's unprivileged-namespace switch, as read from proc,
/// warrants the advisory warning: exactly the reading `"0"`.
pub fn unpriv_clone_warns(contents: &[u8]) -> (r: bool)
    ensures
        r <==> contents@ == seq![48u8],
{
    let warns = contents.len() == 1 && contents[0] == 48;
    proof {
        if warns {
            assert(contents@ =~= seq![48u8]);
        }
    }
    warns
}

} // verus!
