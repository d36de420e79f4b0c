//! The `rspacefs-mount --pvc` command line, and what comes of running it.
//!
//! ```text
//! rspacefs-mount --pvc --name <id> --access-mode <m> --lifecycle <l>
//!   [--lower-blob <path>]... --upper <dir> [--owner UID:GID]
//!   --control-socket <sock> <target>
//! ```
//! There is no `--read-only` flag: read-only is `--access-mode ro`.

use crate::outside;
use crate::params::{law_access_mode_flag, law_lifecycle_flag, AccessMode, Lifecycle};
use crate::text;
use vstd::prelude::*;

verus! {

/// Everything needed to bring up one volume's mount.
#[derive(Debug)]
pub struct MountSpec {
    /// Volume name, used in logs and capture file names.
    pub name: String,
    /// Where the merged view is mounted.
    pub target: String,
    /// Writable upper directory.
    pub upper: String,
    /// The daemon's control socket.
    pub control_socket: String,
    pub access_mode: AccessMode,
    pub lifecycle: Lifecycle,
    /// `UID:GID`.
    pub owner: Option<String>,
    /// Pulled read-only lower blobs, top-down.
    pub lower_blobs: Vec<String>,
}

/// What a [`MountSpec`] says.
#[verifier::ext_equal]
pub struct MountSpecView {
    pub name: Seq<char>,
    pub target: Seq<char>,
    pub upper: Seq<char>,
    pub control_socket: Seq<char>,
    pub access_mode: AccessMode,
    pub lifecycle: Lifecycle,
    pub owner: Option<Seq<char>>,
    pub lower_blobs: Seq<Seq<char>>,
}

impl View for MountSpec {
    type V = MountSpecView;

    open spec fn view(&self) -> MountSpecView {
        MountSpecView {
            name: self.name@,
            target: self.target@,
            upper: self.upper@,
            control_socket: self.control_socket@,
            access_mode: self.access_mode,
            lifecycle: self.lifecycle,
            owner: self.owner.deep_view(),
            lower_blobs: self.lower_blobs.deep_view(),
        }
    }
}

/// `--lower-blob <path>` for each blob, in order.
pub open spec fn lower_args(blobs: Seq<Seq<char>>) -> Seq<Seq<char>>
    decreases blobs.len(),
{
    if blobs.len() == 0 {
        seq![]
    } else {
        lower_args(blobs.drop_last()) + seq!["--lower-blob"@, blobs.last()]
    }
}

impl MountSpecView {
    /// The arguments of `rspacefs-mount`.
    pub open spec fn args(self) -> Seq<Seq<char>> {
        seq![
            "--pvc"@,
            "--name"@,
            self.name,
            "--access-mode"@,
            self.access_mode.flag(),
            "--lifecycle"@,
            self.lifecycle.flag(),
        ] + lower_args(self.lower_blobs) + seq!["--upper"@, self.upper] + (match self.owner {
            Some(owner) => seq!["--owner"@, owner],
            None => seq![],
        }) + seq!["--control-socket"@, self.control_socket, self.target]
    }
}

fn push_text(l: &mut Vec<String>, s: &str)
    ensures
        final(l).deep_view() == old(l).deep_view().push(s@),
{
    l.push(s.to_string());
    assert(l.deep_view() =~= old(l).deep_view().push(s@));
}

impl MountSpec {
    /// The arguments of `rspacefs-mount`.
    pub fn args(&self) -> (r: Vec<String>)
        ensures
            r.deep_view() == self@.args(),
    {
        let mut a: Vec<String> = Vec::new();
        push_text(&mut a, "--pvc");
        push_text(&mut a, "--name");
        push_text(&mut a, self.name.as_str());
        push_text(&mut a, "--access-mode");
        push_text(&mut a, self.access_mode.as_flag());
        push_text(&mut a, "--lifecycle");
        push_text(&mut a, self.lifecycle.as_flag());
        let ghost head = a.deep_view();
        let ghost blobs = self.lower_blobs.deep_view();
        proof {
            assert(blobs.take(0) =~= Seq::<Seq<char>>::empty());
            assert(head + lower_args(blobs.take(0)) =~= head);
        }
        let mut i: usize = 0;
        while i < self.lower_blobs.len()
            invariant
                i <= self.lower_blobs.len(),
                blobs == self.lower_blobs.deep_view(),
                a.deep_view() == head + lower_args(blobs.take(i as int)),
            decreases self.lower_blobs.len() - i,
        {
            push_text(&mut a, "--lower-blob");
            push_text(&mut a, self.lower_blobs[i].as_str());
            proof {
                assert(blobs.take(i + 1).drop_last() =~= blobs.take(i as int));
                assert(a.deep_view() =~= head + lower_args(blobs.take(i + 1)));
            }
            i = i + 1;
        }
        assert(blobs.take(blobs.len() as int) =~= blobs);
        push_text(&mut a, "--upper");
        push_text(&mut a, self.upper.as_str());
        if let Some(owner) = &self.owner {
            push_text(&mut a, "--owner");
            push_text(&mut a, owner.as_str());
        }
        push_text(&mut a, "--control-socket");
        push_text(&mut a, self.control_socket.as_str());
        push_text(&mut a, self.target.as_str());
        assert(a.deep_view() =~= self@.args());
        a
    }
}

impl Clone for MountSpec {
    fn clone(&self) -> (r: MountSpec)
        ensures
            r@ == self@,
    {
        MountSpec {
            name: self.name.clone(),
            target: self.target.clone(),
            upper: self.upper.clone(),
            control_socket: self.control_socket.clone(),
            access_mode: self.access_mode,
            lifecycle: self.lifecycle,
            owner: self.owner.clone(),
            lower_blobs: text::clone_texts(&self.lower_blobs),
        }
    }
}

/// A mount or an unmount that failed.
#[derive(Debug)]
pub enum MountError {
    Io(String),
    MountFailed { status: String, stderr: String },
    UnmountFailed(String),
}

/// What a [`MountError`] says.
pub enum MountErrorView {
    Io(Seq<char>),
    MountFailed { status: Seq<char>, stderr: Seq<char> },
    UnmountFailed(Seq<char>),
}

impl View for MountError {
    type V = MountErrorView;

    open spec fn view(&self) -> MountErrorView {
        match self {
            MountError::Io(e) => MountErrorView::Io(e@),
            MountError::MountFailed { status, stderr } => MountErrorView::MountFailed {
                status: status@,
                stderr: stderr@,
            },
            MountError::UnmountFailed(t) => MountErrorView::UnmountFailed(t@),
        }
    }
}

impl MountErrorView {
    /// The error as it is reported.
    pub open spec fn text(self) -> Seq<char> {
        match self {
            MountErrorView::Io(e) => "io: "@ + e,
            MountErrorView::MountFailed { status, stderr } => "rspacefs-mount exited "@ + status
                + ": "@ + stderr,
            MountErrorView::UnmountFailed(t) => "could not unmount "@ + t,
        }
    }
}

impl MountError {
    /// The error as it is reported.
    pub fn message(&self) -> (r: String)
        ensures
            r@ == self@.text(),
    {
        match self {
            MountError::Io(e) => "io: ".to_string().concat(e.as_str()),
            MountError::MountFailed { status, stderr } => "rspacefs-mount exited ".to_string().concat(
                status.as_str(),
            ).concat(": ").concat(stderr.as_str()),
            MountError::UnmountFailed(t) => "could not unmount ".to_string().concat(t.as_str()),
        }
    }
}

/// `r` with its error replaced by what the error says.
pub open spec fn mount_result(r: Result<(), MountError>) -> Result<(), MountErrorView> {
    match r {
        Ok(_) => Ok(()),
        Err(e) => Err(e@),
    }
}

/// A program and its arguments.
#[derive(Debug)]
pub struct CommandLine {
    pub program: String,
    pub args: Vec<String>,
}

/// What a [`CommandLine`] says.
#[verifier::ext_equal]
pub struct CommandLineView {
    pub program: Seq<char>,
    pub args: Seq<Seq<char>>,
}

impl View for CommandLine {
    type V = CommandLineView;

    open spec fn view(&self) -> CommandLineView {
        CommandLineView { program: self.program@, args: self.args.deep_view() }
    }
}

/// How a program ended: whether it succeeded, its status in words, and what it
/// wrote to standard error.
#[derive(Debug)]
pub struct Exit {
    pub success: bool,
    pub status: String,
    pub stderr: Vec<u8>,
}

/// What is to be done next to unmount.
pub enum UnmountStep {
    Run(CommandLine),
    Done(Result<(), MountError>),
}

/// What an [`UnmountStep`] says.
pub enum UnmountStepView {
    Run(CommandLineView),
    Done(Result<(), MountErrorView>),
}

impl View for UnmountStep {
    type V = UnmountStepView;

    open spec fn view(&self) -> UnmountStepView {
        match self {
            UnmountStep::Run(c) => UnmountStepView::Run(c@),
            UnmountStep::Done(r) => UnmountStepView::Done(mount_result(*r)),
        }
    }
}

/// The commands that unmount `target`, in the order in which they are tried.
pub open spec fn unmount_commands(target: Seq<char>) -> Seq<CommandLineView> {
    seq![
        CommandLineView { program: "fusermount3"@, args: seq!["-u"@, target] },
        CommandLineView { program: "fusermount"@, args: seq!["-u"@, target] },
        CommandLineView { program: "umount"@, args: seq![target] },
    ]
}

/// The next step of an unmount whose commands so far ended as `tried` says: a
/// target that does not exist, and one that a command has unmounted, need
/// nothing more; otherwise the next command is tried.
pub open spec fn unmount_next(
    target: Seq<char>,
    present: bool,
    tried: Seq<bool>,
) -> UnmountStepView {
    if !present || tried.contains(true) {
        UnmountStepView::Done(Ok(()))
    } else if tried.len() < unmount_commands(target).len() {
        UnmountStepView::Run(unmount_commands(target)[tried.len() as int])
    } else {
        UnmountStepView::Done(Err(MountErrorView::UnmountFailed(target)))
    }
}

/// Mounts with `rspacefs-mount`, unmounts with `fusermount3`, `fusermount` or
/// `umount`.
#[derive(Debug)]
pub struct RspacefsMounter {
    pub mount_bin: String,
}

impl RspacefsMounter {
    /// The command that mounts.
    pub fn mount_command(&self, spec: &MountSpec) -> (r: CommandLine)
        ensures
            r@ == (CommandLineView { program: self.mount_bin@, args: spec@.args() }),
    {
        CommandLine { program: self.mount_bin.clone(), args: spec.args() }
    }

    /// What comes of running the mount command: it could not be run, it failed,
    /// or the volume is mounted.
    pub fn mounted(&self, run: Result<Exit, String>) -> (r: Result<(), MountError>)
        ensures
            mount_result(r) == (match run {
                Err(e) => Err(MountErrorView::Io(e@)),
                Ok(exit) => if exit.success {
                    Ok(())
                } else {
                    Err(
                        MountErrorView::MountFailed {
                            status: exit.status@,
                            stderr: text::trimmed(outside::lossy_text(exit.stderr@)),
                        },
                    )
                },
            }),
    {
        match run {
            Err(e) => Err(MountError::Io(e)),
            Ok(exit) => if exit.success {
                Ok(())
            } else {
                let stderr = outside::from_lossy(exit.stderr.as_slice());
                Err(
                    MountError::MountFailed {
                        status: exit.status,
                        stderr: text::trim(stderr.as_str()).to_string(),
                    },
                )
            },
        }
    }

    /// The next step of an unmount, given whether the target exists and how the
    /// commands tried so far ended.
    pub fn unmount(&self, target: &str, present: bool, tried: &Vec<bool>) -> (r: UnmountStep)
        ensures
            r@ == unmount_next(target@, present, tried@),
    {
        if !present {
            return UnmountStep::Done(Ok(()));
        }
        let mut i: usize = 0;
        while i < tried.len()
            invariant
                i <= tried.len(),
                forall|j: int| 0 <= j < i ==> !tried@[j],
            decreases tried.len() - i,
        {
            if tried[i] {
                assert(tried@[i as int]);
                return UnmountStep::Done(Ok(()));
            }
            i = i + 1;
        }
        assert(!tried@.contains(true));
        let mut args: Vec<String> = Vec::new();
        if tried.len() < 2 {
            push_text(&mut args, "-u");
        }
        push_text(&mut args, target);
        let ghost expected = unmount_commands(target@);
        if tried.len() == 0 {
            assert(args.deep_view() =~= expected[0].args);
            UnmountStep::Run(CommandLine { program: "fusermount3".to_string(), args })
        } else if tried.len() == 1 {
            assert(args.deep_view() =~= expected[1].args);
            UnmountStep::Run(CommandLine { program: "fusermount".to_string(), args })
        } else if tried.len() == 2 {
            assert(args.deep_view() =~= expected[2].args);
            UnmountStep::Run(CommandLine { program: "umount".to_string(), args })
        } else {
            UnmountStep::Done(Err(MountError::UnmountFailed(target.to_string())))
        }
    }
}

/// The lower blobs come after the access mode and lifecycle and before the
/// upper directory, each behind its own flag, in their order; the target is
/// last.
pub proof fn law_argument_order(spec: MountSpecView, i: int)
    requires
        0 <= i < spec.lower_blobs.len(),
    ensures
        spec.args()[7 + 2 * i] == "--lower-blob"@,
        spec.args()[8 + 2 * i] == spec.lower_blobs[i],
        spec.args()[7 + 2 * spec.lower_blobs.len() as int] == "--upper"@,
        spec.args()[8 + 2 * spec.lower_blobs.len() as int] == spec.upper,
        spec.args().last() == spec.target,
{
    lemma_lower_args(spec.lower_blobs, i);
    let l = lower_args(spec.lower_blobs);
    assert(spec.args()[7 + 2 * i] == l[2 * i]);
    assert(spec.args()[7 + (2 * i + 1)] == l[2 * i + 1]);
}

proof fn lemma_lower_args(blobs: Seq<Seq<char>>, i: int)
    ensures
        lower_args(blobs).len() == 2 * blobs.len(),
        0 <= i < blobs.len() ==> lower_args(blobs)[2 * i] == "--lower-blob"@,
        0 <= i < blobs.len() ==> lower_args(blobs)[2 * i + 1] == blobs[i],
    decreases blobs.len(),
{
    if blobs.len() > 0 {
        lemma_lower_args(blobs.drop_last(), i);
    }
}

/// The only way to mount read-only is the access mode: the arguments differ
/// from those of any other mode in the value of `--access-mode` alone.
pub proof fn law_read_only_is_an_access_mode(spec: MountSpecView, mode: AccessMode)
    ensures
        (MountSpecView { access_mode: mode, ..spec }).args() == spec.args().update(4, mode.flag()),
{
    assert((MountSpecView { access_mode: mode, ..spec }).args() =~= spec.args().update(
        4,
        mode.flag(),
    ));
}

/// Unmounting what is not there succeeds, and runs nothing.
pub proof fn law_unmount_is_idempotent(target: Seq<char>, tried: Seq<bool>)
    ensures
        unmount_next(target, false, tried) == UnmountStepView::Done(Ok(())),
{
}

/// What stands behind each flag: the volume's name, the words of its access mode
/// and lifecycle, which read back as these, its upper directory, its owner where
/// it has one, and its control socket; the target is last.
pub proof fn law_arguments(spec: MountSpecView)
    ensures
        spec.args()[0] == "--pvc"@,
        spec.args()[1] == "--name"@,
        spec.args()[2] == spec.name,
        spec.args()[3] == "--access-mode"@,
        AccessMode::named(spec.args()[4]) == Some(spec.access_mode),
        spec.args()[4] == spec.access_mode.flag(),
        spec.args()[5] == "--lifecycle"@,
        Lifecycle::named(spec.args()[6]) == Some(spec.lifecycle),
        spec.args()[6] == spec.lifecycle.flag(),
        forall|i: int|
            0 <= i < spec.lower_blobs.len() ==> #[trigger] spec.lower_blobs[i] == spec.args()[8 + 2
                * i],
        forall|i: int|
            0 <= i < spec.lower_blobs.len() ==> spec.args()[#[trigger] (7 + 2 * i)]
                == "--lower-blob"@,
        spec.args()[7 + 2 * spec.lower_blobs.len() as int] == "--upper"@,
        spec.args()[8 + 2 * spec.lower_blobs.len() as int] == spec.upper,
        spec.owner matches Some(owner) ==> {
            let n = 9 + 2 * spec.lower_blobs.len() as int;
            &&& spec.args().len() == n + 5
            &&& spec.args()[n] == "--owner"@
            &&& spec.args()[n + 1] == owner
            &&& spec.args()[n + 2] == "--control-socket"@
            &&& spec.args()[n + 3] == spec.control_socket
            &&& spec.args()[n + 4] == spec.target
        },
        spec.owner is None ==> {
            let n = 9 + 2 * spec.lower_blobs.len() as int;
            &&& spec.args().len() == n + 3
            &&& spec.args()[n] == "--control-socket"@
            &&& spec.args()[n + 1] == spec.control_socket
            &&& spec.args()[n + 2] == spec.target
        },
{
    law_access_mode_flag(spec.access_mode);
    law_lifecycle_flag(spec.lifecycle);
    lemma_lower_args(spec.lower_blobs, 0);
    assert forall|i: int| 0 <= i < spec.lower_blobs.len() implies #[trigger] spec.lower_blobs[i]
        == spec.args()[8 + 2 * i] by {
        law_argument_order(spec, i);
    }
    assert forall|i: int| 0 <= i < spec.lower_blobs.len() implies spec.args()[#[trigger] (7 + 2
        * i)] == "--lower-blob"@ by {
        law_argument_order(spec, i);
    }
}

/// Volumes that differ in anything are mounted with different arguments.
pub proof fn law_arguments_tell_volumes_apart(a: MountSpecView, b: MountSpecView)
    requires
        a.args() == b.args(),
    ensures
        a == b,
{
    law_arguments(a);
    law_arguments(b);
    reveal_strlit("--upper");
    reveal_strlit("--lower-blob");
    assert("--upper"@.len() != "--lower-blob"@.len());
    let x = a.lower_blobs.len() as int;
    let y = b.lower_blobs.len() as int;
    if x < y {
        assert(b.lower_blobs[x] == b.lower_blobs[x]);
        assert(b.args()[7 + 2 * x] == "--lower-blob"@);
        assert(a.args()[7 + 2 * x] == "--upper"@);
    }
    if y < x {
        assert(a.lower_blobs[y] == a.lower_blobs[y]);
        assert(a.args()[7 + 2 * y] == "--lower-blob"@);
        assert(b.args()[7 + 2 * y] == "--upper"@);
    }
    assert forall|i: int| 0 <= i < x implies a.lower_blobs[i] == b.lower_blobs[i] by {
        assert(a.args()[8 + 2 * i] == a.lower_blobs[i]);
        assert(b.args()[8 + 2 * i] == b.lower_blobs[i]);
    }
    assert(a.lower_blobs =~= b.lower_blobs);
    assert(a.owner == b.owner);
    assert(a =~= b);
}

/// Unmounting tries `fusermount3`, `fusermount` and `umount`, each once and in
/// this order, until one succeeds, and fails when none does.
pub proof fn law_unmount_tries_each_command(target: Seq<char>, tried: Seq<bool>)
    ensures
        tried.contains(true) ==> unmount_next(target, true, tried) == UnmountStepView::Done(
            Ok(()),
        ),
        !tried.contains(true) && tried.len() == 0 ==> (unmount_next(
            target,
            true,
            tried,
        ) matches UnmountStepView::Run(c) && c.program == "fusermount3"@ && c.args == seq![
            "-u"@,
            target,
        ]),
        !tried.contains(true) && tried.len() == 1 ==> (unmount_next(
            target,
            true,
            tried,
        ) matches UnmountStepView::Run(c) && c.program == "fusermount"@ && c.args == seq![
            "-u"@,
            target,
        ]),
        !tried.contains(true) && tried.len() == 2 ==> (unmount_next(
            target,
            true,
            tried,
        ) matches UnmountStepView::Run(c) && c.program == "umount"@ && c.args == seq![target]),
        !tried.contains(true) && tried.len() >= 3 ==> unmount_next(target, true, tried)
            == UnmountStepView::Done(Err(MountErrorView::UnmountFailed(target))),
{
}

/// What a failed mount or unmount is reported as.
pub proof fn law_mount_error_texts(a: Seq<char>, b: Seq<char>)
    ensures
        MountErrorView::Io(a).text() == "io: "@ + a,
        (MountErrorView::MountFailed { status: a, stderr: b }).text() == "rspacefs-mount exited "@
            + a + ": "@ + b,
        MountErrorView::UnmountFailed(a).text() == "could not unmount "@ + a,
{
}

/// What the operations of mounting come to. A mount runs the configured program
/// with the arguments of the volume. It is up if and only if the program could be
/// run and succeeded; a failure is reported with its status and what it wrote to
/// standard error, without the white space around that.
pub proof fn law_mount_operations(
    b: &RspacefsMounter,
    spec: &MountSpec,
    args: Vec<String>,
    c: CommandLine,
    run: Result<Exit, String>,
    r: Result<(), MountError>,
    e: &MountError,
    s: String,
)
    ensures
        call_ensures(MountSpec::args, (spec,), args) ==> args.deep_view() == spec@.args(),
        call_ensures(RspacefsMounter::mount_command, (b, spec), c) ==> c@.program == b.mount_bin@
            && c@.args == spec@.args(),
        call_ensures(RspacefsMounter::mounted, (b, run), r) ==> match run {
            Err(x) => r matches Err(MountError::Io(y)) && y@ == x@,
            Ok(exit) => {
                &&& r is Ok <==> exit.success
                &&& !exit.success ==> (r matches Err(MountError::MountFailed { status, stderr })
                    && status@ == exit.status@ && stderr@ == text::trimmed(
                    outside::lossy_text(exit.stderr@),
                ))
            },
        },
        call_ensures(MountError::message, (e,), s) ==> s@ == e@.text(),
{
}

/// What unmounting does next is what its steps say.
pub proof fn law_unmount_operation(
    b: &RspacefsMounter,
    target: &str,
    present: bool,
    tried: &Vec<bool>,
    step: UnmountStep,
)
    requires
        call_ensures(RspacefsMounter::unmount, (b, target, present, tried), step),
    ensures
        step@ == unmount_next(target@, present, tried@),
{
}

} // verus!
