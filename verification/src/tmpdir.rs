//! The overlay jail of one run: where it lives, how it is put together and
//! how it is taken apart again.
//!
//! A jail is a scratch directory under `/tmp`, named by a fresh UUID, with
//! the host's root stacked read-only below a writable layer. Nothing here
//! touches the disk: a `TmpDir` names the paths, and the steps say what the
//! caller has to do, in which order.

use crate::paths::{is_absolute, is_within, join};
use vstd::prelude::*;

verus! {

/// Directory under which every jail is created, with its trailing slash.
pub const JAIL_PARENT: &'static str = "/tmp/";

/// Access mode of the device nodes made inside a jail.
pub const DEVICE_MODE: u32 = 0o666;

/// Number of steps it takes to set a jail up.
pub const SETUP_STEPS: usize = 8;

/// Whether `c` is a hexadecimal digit, letters in lower case.
pub open spec fn is_hex_lower(c: char) -> bool {
    ('0' as u32 <= c as u32 <= '9' as u32) || ('a' as u32 <= c as u32 <= 'f' as u32)
}

/// Whether position `i` of a hyphenated UUID holds a hyphen.
pub open spec fn is_hyphen_position(i: int) -> bool {
    i == 8 || i == 13 || i == 18 || i == 23
}

/// Whether `id` has, at position `i`, what a hyphenated lower-case UUID has
/// there.
pub open spec fn position_ok(id: Seq<char>, i: int) -> bool {
    if is_hyphen_position(i) {
        id[i] == '-'
    } else {
        is_hex_lower(id[i])
    }
}

/// Whether `id` is a UUID in its hyphenated lower-case form: 36 characters,
/// hexadecimal digits in groups of 8, 4, 4, 4 and 12.
pub open spec fn is_jail_id(id: Seq<char>) -> bool {
    &&& id.len() == 36
    &&& forall|i: int| 0 <= i < 36 ==> position_ok(id, i)
}

/// Whether `id` is the text of a random (version 4) UUID.
pub open spec fn is_random_uuid(id: Seq<char>) -> bool {
    &&& is_jail_id(id)
    &&& id[14] == '4'
    &&& (id[19] == '8' || id[19] == '9' || id[19] == 'a' || id[19] == 'b')
}

/// Base directory of the jail named `id`.
pub open spec fn jail_base(id: Seq<char>) -> Seq<char> {
    JAIL_PARENT@ + id
}

/// Writable layer of the jail.
pub open spec fn jail_upper(id: Seq<char>) -> Seq<char> {
    jail_base(id) + "/upper"@
}

/// Scratch directory the overlay needs beside the writable layer.
pub open spec fn jail_work(id: Seq<char>) -> Seq<char> {
    jail_base(id) + "/work"@
}

/// Merged tree: the root the child is confined to.
pub open spec fn jail_root(id: Seq<char>) -> Seq<char> {
    jail_base(id) + "/merged"@
}

/// Mount options that stack the host root below the jail's writable layer.
pub open spec fn overlay_options(id: Seq<char>) -> Seq<char> {
    "lowerdir=/,upperdir="@ + jail_upper(id) + ",workdir="@ + jail_work(id)
}

/// The device number Linux forms from a major and a minor number.
pub open spec fn device_number(major: u64, minor: u64) -> u64 {
    ((major & 0xffff_f000) << 32) | ((major & 0x0000_0fff) << 8) | ((minor & 0xffff_ff00) << 12)
        | (minor & 0x0000_00ff)
}

/// One thing to do to set a jail up.
#[derive(Debug, PartialEq, Eq)]
pub enum SetupStep {
    CreateDir { path: String },
    /// Mount an overlay filesystem at `target`.
    MountOverlay { target: String, options: String },
    /// Mount a fresh `proc` filesystem at `target`.
    MountProc { target: String },
    /// Make a character device node.
    MakeCharDevice { path: String, mode: u32, device: u64 },
}

/// A `SetupStep` as plain values.
pub enum SetupStepView {
    CreateDir { path: Seq<char> },
    MountOverlay { target: Seq<char>, options: Seq<char> },
    MountProc { target: Seq<char> },
    MakeCharDevice { path: Seq<char>, mode: u32, device: u64 },
}

impl View for SetupStep {
    type V = SetupStepView;

    open spec fn view(&self) -> SetupStepView {
        match self {
            SetupStep::CreateDir { path } => SetupStepView::CreateDir { path: path@ },
            SetupStep::MountOverlay { target, options } => SetupStepView::MountOverlay {
                target: target@,
                options: options@,
            },
            SetupStep::MountProc { target } => SetupStepView::MountProc { target: target@ },
            SetupStep::MakeCharDevice { path, mode, device } => SetupStepView::MakeCharDevice {
                path: path@,
                mode: *mode,
                device: *device,
            },
        }
    }
}

/// One thing to do to take a jail apart. A step that fails is reported and
/// the next one is still tried.
#[derive(Debug, PartialEq, Eq)]
pub enum TeardownStep {
    Unmount { target: String },
    /// Remove a directory and all below it.
    RemoveTree { path: String },
}

/// A `TeardownStep` as plain values.
pub enum TeardownStepView {
    Unmount { target: Seq<char> },
    RemoveTree { path: Seq<char> },
}

impl View for TeardownStep {
    type V = TeardownStepView;

    open spec fn view(&self) -> TeardownStepView {
        match self {
            TeardownStep::Unmount { target } => TeardownStepView::Unmount { target: target@ },
            TeardownStep::RemoveTree { path } => TeardownStepView::RemoveTree { path: path@ },
        }
    }
}

/// The steps that set up the jail named `id`, in order: the four
/// directories, the overlay over the merged tree, `proc` inside it, and the
/// two device nodes the toolchains need.
pub open spec fn setup_plan(id: Seq<char>) -> Seq<SetupStepView> {
    seq![
        SetupStepView::CreateDir { path: jail_base(id) },
        SetupStepView::CreateDir { path: jail_upper(id) },
        SetupStepView::CreateDir { path: jail_work(id) },
        SetupStepView::CreateDir { path: jail_root(id) },
        SetupStepView::MountOverlay { target: jail_root(id), options: overlay_options(id) },
        SetupStepView::MountProc { target: jail_root(id) + "/proc"@ },
        SetupStepView::MakeCharDevice {
            path: jail_root(id) + "/dev/null"@,
            mode: DEVICE_MODE,
            device: device_number(1, 3),
        },
        SetupStepView::MakeCharDevice {
            path: jail_root(id) + "/dev/urandom"@,
            mode: DEVICE_MODE,
            device: device_number(1, 9),
        },
    ]
}

/// The steps that undo the first `completed` steps of `setup_plan(id)`:
/// `proc` is unmounted if it was mounted, then the overlay if it was, and
/// the base directory is removed if it was created.
pub open spec fn rollback_plan(id: Seq<char>, completed: nat) -> Seq<TeardownStepView> {
    (if completed >= 6 {
        seq![TeardownStepView::Unmount { target: jail_root(id) + "/proc"@ }]
    } else {
        seq![]
    }) + (if completed >= 5 {
        seq![TeardownStepView::Unmount { target: jail_root(id) }]
    } else {
        seq![]
    }) + (if completed >= 1 {
        seq![TeardownStepView::RemoveTree { path: jail_base(id) }]
    } else {
        seq![]
    })
}

/// The steps that take a jail apart once it is set up.
pub open spec fn teardown_plan(id: Seq<char>) -> Seq<TeardownStepView> {
    seq![
        TeardownStepView::Unmount { target: jail_root(id) + "/proc"@ },
        TeardownStepView::Unmount { target: jail_root(id) },
        TeardownStepView::RemoveTree { path: jail_base(id) },
    ]
}

/// The setup steps of a sequence, each as plain values.
pub open spec fn setup_view(steps: Seq<SetupStep>) -> Seq<SetupStepView> {
    steps.map_values(|s: SetupStep| s@)
}

/// The teardown steps of a sequence, each as plain values.
pub open spec fn teardown_view(steps: Seq<TeardownStep>) -> Seq<TeardownStepView> {
    steps.map_values(|s: TeardownStep| s@)
}

impl SetupStepView {
    /// The path the step creates or mounts on.
    pub open spec fn path(self) -> Seq<char> {
        match self {
            SetupStepView::CreateDir { path } => path,
            SetupStepView::MountOverlay { target, .. } => target,
            SetupStepView::MountProc { target } => target,
            SetupStepView::MakeCharDevice { path, .. } => path,
        }
    }
}

impl TeardownStepView {
    /// The path the step unmounts or removes.
    pub open spec fn path(self) -> Seq<char> {
        match self {
            TeardownStepView::Unmount { target } => target,
            TeardownStepView::RemoveTree { path } => path,
        }
    }
}

/// Jails with different identifiers have different base directories, and
/// no path lies within both.
pub proof fn lemma_jails_disjoint(a: Seq<char>, b: Seq<char>, path: Seq<char>)
    requires
        is_jail_id(a),
        is_jail_id(b),
        a != b,
    ensures
        jail_base(a) != jail_base(b),
        !(is_within(path, jail_base(a)) && is_within(path, jail_base(b))),
{
    let n = JAIL_PARENT@.len() as int;
    assert(jail_base(a).skip(n) =~= a);
    assert(jail_base(b).skip(n) =~= b);
    if is_within(path, jail_base(a)) && is_within(path, jail_base(b)) {
        assert(path.subrange(0, n + 36) =~= jail_base(a));
        assert(path.subrange(0, n + 36) =~= jail_base(b));
    }
}

/// A path right below the jail's base or root is within the base.
proof fn lemma_below_base(id: Seq<char>, tail: Seq<char>)
    requires
        tail.len() > 0,
        tail[0] == '/',
    ensures
        is_within(jail_base(id) + tail, jail_base(id)),
        is_within(jail_root(id) + tail, jail_base(id)),
{
    reveal_strlit("/merged");
    let base = jail_base(id);
    assert((base + tail).subrange(0, base.len() as int) =~= base);
    assert((jail_root(id) + tail).subrange(0, base.len() as int) =~= base);
}

/// The base directory of a jail lies right below the parent of all jails,
/// and both it and the jail's root are absolute paths.
pub proof fn lemma_jail_paths_are_absolute(id: Seq<char>)
    requires
        is_jail_id(id),
    ensures
        is_absolute(jail_base(id)),
        is_absolute(jail_root(id)),
        jail_base(id) == "/tmp"@ + "/"@ + id,
        forall|i: int| 0 <= i < id.len() ==> id[i] != '/',
{
    reveal_strlit("/tmp/");
    reveal_strlit("/tmp");
    reveal_strlit("/");
    assert(jail_base(id) =~= "/tmp"@ + "/"@ + id);
    assert forall|i: int| 0 <= i < id.len() implies id[i] != '/' by {
        assert(position_ok(id, i));
    }
}

/// The root of a jail lies within its base directory.
pub proof fn lemma_root_within_base(id: Seq<char>)
    ensures
        is_within(jail_root(id), jail_base(id)),
{
    reveal_strlit("/merged");
    lemma_below_base(id, "/merged"@);
}

/// Setting a jail up touches nothing outside its base directory.
pub proof fn lemma_setup_stays_in_jail(id: Seq<char>, i: int)
    requires
        0 <= i < setup_plan(id).len(),
    ensures
        is_within(setup_plan(id)[i].path(), jail_base(id)),
{
    reveal_strlit("/upper");
    reveal_strlit("/work");
    reveal_strlit("/merged");
    reveal_strlit("/proc");
    reveal_strlit("/dev/null");
    reveal_strlit("/dev/urandom");
    lemma_below_base(id, "/upper"@);
    lemma_below_base(id, "/work"@);
    lemma_below_base(id, "/merged"@);
    lemma_below_base(id, "/proc"@);
    lemma_below_base(id, "/dev/null"@);
    lemma_below_base(id, "/dev/urandom"@);
}

/// Undoing a setup, however far it got, touches nothing outside the jail's
/// base directory.
pub proof fn lemma_rollback_stays_in_jail(id: Seq<char>, completed: nat, i: int)
    requires
        0 <= i < rollback_plan(id, completed).len(),
    ensures
        is_within(rollback_plan(id, completed)[i].path(), jail_base(id)),
{
    reveal_strlit("/merged");
    reveal_strlit("/proc");
    lemma_below_base(id, "/merged"@);
    lemma_below_base(id, "/proc"@);
}

/// Undoing a setup undoes what was done and nothing else: the overlay is
/// unmounted exactly when one of the completed steps mounted it, `proc`
/// likewise, and the base directory is removed exactly when one of them
/// created it. What was mounted last is unmounted first.
pub proof fn lemma_rollback_matches_progress(id: Seq<char>, completed: nat)
    ensures
        rollback_plan(id, completed).contains(
            TeardownStepView::Unmount { target: jail_root(id) + "/proc"@ },
        ) <==> exists|i: int|
            0 <= i < completed && i < setup_plan(id).len() && #[trigger] setup_plan(id)[i]
                is MountProc,
        rollback_plan(id, completed).contains(TeardownStepView::Unmount { target: jail_root(id) })
            <==> exists|i: int|
            0 <= i < completed && i < setup_plan(id).len() && #[trigger] setup_plan(id)[i]
                is MountOverlay,
        rollback_plan(id, completed).contains(TeardownStepView::RemoveTree { path: jail_base(id) })
            <==> exists|i: int|
            0 <= i < completed && i < setup_plan(id).len() && #[trigger] setup_plan(id)[i] == (
            SetupStepView::CreateDir { path: jail_base(id) }),
        completed >= 1 ==> rollback_plan(id, completed).last() == (TeardownStepView::RemoveTree {
            path: jail_base(id),
        }),
        completed >= 6 ==> rollback_plan(id, completed)[0] == (TeardownStepView::Unmount {
            target: jail_root(id) + "/proc"@,
        }),
{
    let plan = setup_plan(id);
    let undo = rollback_plan(id, completed);
    let proc = TeardownStepView::Unmount { target: jail_root(id) + "/proc"@ };
    let overlay = TeardownStepView::Unmount { target: jail_root(id) };
    let base = TeardownStepView::RemoveTree { path: jail_base(id) };
    reveal_strlit("/proc");
    reveal_strlit("/upper");
    reveal_strlit("/work");
    reveal_strlit("/merged");
    assert(jail_root(id) + "/proc"@ != jail_root(id)) by {
        assert((jail_root(id) + "/proc"@).len() != jail_root(id).len());
    }
    assert(jail_upper(id) != jail_base(id)) by {
        assert(jail_upper(id).len() != jail_base(id).len());
    }
    assert(jail_work(id) != jail_base(id)) by {
        assert(jail_work(id).len() != jail_base(id).len());
    }
    assert(jail_root(id) != jail_base(id)) by {
        assert(jail_root(id).len() != jail_base(id).len());
    }
    if completed >= 6 {
        assert(undo[0] == proc);
        assert(plan[5] is MountProc);
    }
    if completed >= 5 {
        assert(undo[undo.len() - 2] == overlay);
        assert(plan[4] is MountOverlay);
    }
    if completed >= 1 {
        assert(undo[undo.len() - 1] == base);
        assert(plan[0] == SetupStepView::CreateDir { path: jail_base(id) });
    }
}

/// Taking a jail apart is undoing all of its setup: it unmounts in the
/// reverse order of mounting and removes the base directory last.
pub proof fn lemma_teardown_is_full_rollback(id: Seq<char>)
    ensures
        teardown_plan(id) == rollback_plan(id, SETUP_STEPS as nat),
        teardown_plan(id).last() == (TeardownStepView::RemoveTree { path: jail_base(id) }),
{
    assert(teardown_plan(id) =~= rollback_plan(id, SETUP_STEPS as nat));
}

/// Where not even the base directory was created, nothing is undone: a
/// directory that another jail may own is never removed.
pub proof fn lemma_nothing_to_undo(id: Seq<char>)
    ensures
        rollback_plan(id, 0) == Seq::<TeardownStepView>::empty(),
{
    assert(rollback_plan(id, 0) =~= Seq::<TeardownStepView>::empty());
}

/// The device nodes of a jail are the null device and the kernel's random
/// source: major number 1 with minor numbers 3 and 9.
pub proof fn lemma_device_numbers()
    ensures
        device_number(1, 3) == 0x103,
        device_number(1, 9) == 0x109,
{
    assert(device_number(1, 3) == 0x103) by (bit_vector);
    assert(device_number(1, 9) == 0x109) by (bit_vector);
}

/// Calls `uuid::Uuid::new_v4` and renders the result with `to_string`.
///
/// Trusted: the text is the hyphenated lower-case form of the UUID, with
/// the version digit 4 and a variant digit of 8, 9, a or b. The value is
/// random, so nothing more is said of it.
#[verifier::external_body]
fn fresh_id() -> (id: String)
    ensures
        is_random_uuid(id@),
{
    uuid::Uuid::new_v4().to_string()
}

/// Calls `nix::sys::stat::makedev`.
///
/// Trusted: the result is the device number laid out as Linux does, the
/// low twelve bits of the major number above the low eight of the minor,
/// the remaining bits of both above those.
#[verifier::external_body]
fn device_id(major: u64, minor: u64) -> (dev: u64)
    ensures
        dev == device_number(major, minor),
{
    nix::sys::stat::makedev(major, minor)
}

fn is_hex_digit(c: char) -> (b: bool)
    ensures
        b == is_hex_lower(c),
{
    let n: u32 = c as u32;
    (0x30 <= n && n <= 0x39) || (0x61 <= n && n <= 0x66)
}

/// Whether `text` is a UUID in its hyphenated lower-case form.
pub fn is_uuid_text(text: &str) -> (ok: bool)
    ensures
        ok == is_jail_id(text@),
{
    if text.unicode_len() != 36 {
        return false;
    }
    let mut i: usize = 0;
    while i < 36
        invariant
            i <= 36,
            text@.len() == 36,
            forall|j: int| 0 <= j < i ==> position_ok(text@, j),
        decreases 36 - i,
    {
        let c = text.get_char(i);
        let ok = if i == 8 || i == 13 || i == 18 || i == 23 {
            c == '-'
        } else {
            is_hex_digit(c)
        };
        if !ok {
            assert(!position_ok(text@, i as int));
            return false;
        }
        i += 1;
    }
    true
}

/// Used to prepare a chroot jail by mounting `/` somewhere inside `/tmp` as
/// an overlay. Its view is the identifier the jail is named by.
pub struct TmpDir {
    base: String,
    chroot: String,
}

impl View for TmpDir {
    type V = Seq<char>;

    closed spec fn view(&self) -> Seq<char> {
        self.base@.skip(JAIL_PARENT@.len() as int)
    }
}

impl TmpDir {
    #[verifier::type_invariant]
    spec fn wf(self) -> bool {
        &&& is_jail_id(self@)
        &&& self.base@ == jail_base(self@)
        &&& self.chroot@ == jail_root(self@)
    }

    fn build(id: &str) -> (t: TmpDir)
        requires
            is_jail_id(id@),
        ensures
            t@ == id@,
    {
        let base = join(JAIL_PARENT, id);
        let chroot = join(base.as_str(), "/merged");
        assert(base@.skip(JAIL_PARENT@.len() as int) =~= id@);
        TmpDir { base, chroot }
    }

    /// Names a new jail by a fresh random identifier. Nothing exists on
    /// disk until the setup steps have been carried out.
    pub fn new() -> (t: TmpDir)
        ensures
            is_random_uuid(t@),
    {
        let id = fresh_id();
        TmpDir::build(id.as_str())
    }

    /// The jail named `id`, if `id` is a UUID in hyphenated lower-case form.
    pub fn with_id(id: &str) -> (t: Option<TmpDir>)
        ensures
            t is Some <==> is_jail_id(id@),
            t matches Some(t) ==> t@ == id@,
    {
        if is_uuid_text(id) {
            Some(TmpDir::build(id))
        } else {
            None
        }
    }

    /// Returns the directory prepared for chroot
    pub fn chroot(&self) -> (path: &String)
        ensures
            path@ == jail_root(self@),
            is_jail_id(self@),
    {
        proof {
            use_type_invariant(self);
        }
        &self.chroot
    }

    /// What to do, in order, to set the jail up. Where a step fails the
    /// rest is skipped and `rollback_steps` says how to undo what was done.
    pub fn setup_steps(&self) -> (steps: Vec<SetupStep>)
        ensures
            setup_view(steps@) == setup_plan(self@),
            steps.len() == SETUP_STEPS,
    {
        proof {
            use_type_invariant(self);
        }
        let base = self.base.as_str();
        let root = self.chroot.as_str();
        let upper = join(base, "/upper");
        let work = join(base, "/work");
        let mut options = join("lowerdir=/,upperdir=", upper.as_str());
        options.append(",workdir=");
        options.append(work.as_str());
        let mut steps: Vec<SetupStep> = Vec::new();
        steps.push(SetupStep::CreateDir { path: self.base.clone() });
        steps.push(SetupStep::CreateDir { path: upper });
        steps.push(SetupStep::CreateDir { path: work });
        steps.push(SetupStep::CreateDir { path: self.chroot.clone() });
        steps.push(SetupStep::MountOverlay { target: self.chroot.clone(), options });
        steps.push(SetupStep::MountProc { target: join(root, "/proc") });
        steps.push(
            SetupStep::MakeCharDevice {
                path: join(root, "/dev/null"),
                mode: DEVICE_MODE,
                device: device_id(1, 3),
            },
        );
        steps.push(
            SetupStep::MakeCharDevice {
                path: join(root, "/dev/urandom"),
                mode: DEVICE_MODE,
                device: device_id(1, 9),
            },
        );
        assert(setup_view(steps@) =~= setup_plan(self@));
        steps
    }

    /// What to do, in order, to undo the first `completed` setup steps.
    pub fn rollback_steps(&self, completed: usize) -> (steps: Vec<TeardownStep>)
        ensures
            teardown_view(steps@) == rollback_plan(self@, completed as nat),
    {
        proof {
            use_type_invariant(self);
        }
        let mut steps: Vec<TeardownStep> = Vec::new();
        if completed >= 6 {
            steps.push(TeardownStep::Unmount { target: join(self.chroot.as_str(), "/proc") });
        }
        if completed >= 5 {
            steps.push(TeardownStep::Unmount { target: self.chroot.clone() });
        }
        if completed >= 1 {
            steps.push(TeardownStep::RemoveTree { path: self.base.clone() });
        }
        assert(teardown_view(steps@) =~= rollback_plan(self@, completed as nat));
        steps
    }

    /// What to do, in order, to take the jail apart: unmount `proc`,
    /// unmount the overlay, remove the base directory with all below it.
    pub fn teardown_steps(&self) -> (steps: Vec<TeardownStep>)
        ensures
            teardown_view(steps@) == teardown_plan(self@),
    {
        proof {
            lemma_teardown_is_full_rollback(self@);
        }
        self.rollback_steps(SETUP_STEPS)
    }
}

} // verus!
