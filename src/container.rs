use vstd::prelude::*;
use vstd::utf8::encode_utf8;
use crate::paths::{join_path, joined_path};
use crate::strings::{clone_strings, joined};
use crate::error::AethelError;
use crate::ipv4::{decimal, push_decimal};

verus! {

/// Failures of the container launcher.
pub enum Error {
    /// A system call failed with this errno.
    Nix(i32),
    /// A command or argument holds a NUL byte at this byte position.
    InvalidCString(usize),
    /// An I/O operation failed, with the system's description.
    Io(String),
}

impl Error {
    /// Human-readable text of the error.
    pub fn message(&self) -> (r: String)
        ensures
            r@ == self.message_spec(),
    {
        match self {
            Error::Nix(e) => {
                let mut out = String::from_str("Nix syscall failed: errno ");
                if *e >= 0 {
                    push_decimal(&mut out, *e as u64);
                    assert(out@ =~= self.message_spec());
                } else {
                    out.append("-");
                    push_decimal(&mut out, (0 - (*e as i64)) as u64);
                    assert(out@ =~= self.message_spec());
                }
                out
            },
            Error::InvalidCString(p) => {
                let mut out = String::from_str("Failed to create C-style string for command: nul byte found at position ");
                push_decimal(&mut out, *p as u64);
                out
            },
            Error::Io(s) => joined("I/O error: ", s.as_str()),
        }
    }

    /// The error in the runtime's taxonomy: a NUL byte in a command or
    /// argument is a container setup error, a failed system call a Nix
    /// error, a failed I/O operation an I/O error; the text is kept.
    pub fn to_aethel(&self) -> (r: AethelError)
        ensures
            match self {
                Error::Nix(_) => r matches AethelError::Nix(m) && m@ == self.message_spec(),
                Error::InvalidCString(_) => r matches AethelError::ContainerSetup(m) && m@ == self.message_spec(),
                Error::Io(_) => r matches AethelError::Io(m) && m@ == self.message_spec(),
            },
    {
        let m = self.message();
        match self {
            Error::Nix(_) => AethelError::Nix(m),
            Error::InvalidCString(_) => AethelError::ContainerSetup(m),
            Error::Io(_) => AethelError::Io(m),
        }
    }

    pub open spec fn message_spec(&self) -> Seq<char> {
        match self {
            Error::Nix(e) => if *e >= 0 {
                "Nix syscall failed: errno "@ + decimal(*e as nat)
            } else {
                "Nix syscall failed: errno "@ + "-"@ + decimal((0 - *e) as nat)
            },
            Error::InvalidCString(p) => "Failed to create C-style string for command: nul byte found at position "@
                + decimal(*p as nat),
            Error::Io(s) => "I/O error: "@ + s@,
        }
    }
}

/// errno for an invalid argument.
pub const EINVAL: i32 = 22;

/// Whether the UTF-8 encoding of `s` holds a NUL byte.
pub open spec fn has_nul(s: Seq<char>) -> bool {
    exists|i: int| 0 <= i < encode_utf8(s).len() && #[trigger] encode_utf8(s)[i] == 0
}

/// Whether some string of the list holds a NUL byte.
pub open spec fn any_has_nul(v: Seq<Seq<char>>) -> bool {
    exists|i: int| 0 <= i < v.len() && has_nul(#[trigger] v[i])
}

/// Byte position of the first NUL in `s`, if any.
pub fn first_nul(s: &str) -> (r: Option<usize>)
    ensures
        r is None <==> !has_nul(s@),
        r matches Some(p) ==> p < encode_utf8(s@).len() && encode_utf8(s@)[p as int] == 0
            && forall|j: int| 0 <= j < p ==> encode_utf8(s@)[j] != 0,
{
    let b = s.as_bytes();
    let mut i: usize = 0;
    while i < b.len()
        invariant
            i <= b@.len(),
            b@ == encode_utf8(s@),
            forall|j: int| 0 <= j < i ==> b@[j] != 0,
        decreases b.len() - i,
    {
        if b[i] == 0 {
            return Some(i);
        }
        i = i + 1;
    }
    None
}

/// Abstract value of a container builder.
pub struct BuilderView {
    pub id: Seq<char>,
    pub command: Seq<char>,
    pub args: Seq<Seq<char>>,
    pub rootfs: Seq<char>,
}

/// Collects what a container launch needs: its id, the command with its
/// arguments, and the root filesystem to pivot into. Command and arguments
/// never hold a NUL byte, so each can be handed to `execvp`.
pub struct ContainerBuilder {
    id: String,
    command: String,
    args: Vec<String>,
    rootfs: String,
}

impl View for ContainerBuilder {
    type V = BuilderView;

    closed spec fn view(&self) -> BuilderView {
        BuilderView { id: self.id@, command: self.command@, args: self.args.deep_view(), rootfs: self.rootfs@ }
    }
}

/// The well-formedness of a builder: no NUL byte in command or arguments.
pub open spec fn builder_ok(b: BuilderView) -> bool {
    !has_nul(b.command) && !any_has_nul(b.args)
}

/// The steps the child runs between clone and exec, in this order.
#[derive(Clone, Copy, Debug, PartialEq, Eq, Structural)]
pub enum ChildStep {
    /// `dup2` the pipe's write end onto descriptor 1.
    RedirectStdout,
    /// `dup2` the pipe's write end onto descriptor 2.
    RedirectStderr,
    /// Close the pipe's read end.
    CloseReadEnd,
    /// Close the spare copy of the pipe's write end.
    CloseWriteEnd,
    /// Set up the namespaces and pivot into the root filesystem; on failure
    /// print a diagnostic and go on in the host's root.
    EnterRootfs,
    /// Print that the root filesystem has no shell and stay in the host's root.
    SkipRootfs,
    /// `execvp` the command with its argument vector; return -1 if it fails.
    Exec,
}

/// The child's steps: stdout and stderr into the pipe, the spare
/// descriptors closed, the pivot when the root filesystem has `bin/sh`, then
/// the exec.
pub open spec fn child_plan(rootfs_has_shell: bool) -> Seq<ChildStep> {
    seq![
        ChildStep::RedirectStdout,
        ChildStep::RedirectStderr,
        ChildStep::CloseReadEnd,
        ChildStep::CloseWriteEnd,
        if rootfs_has_shell { ChildStep::EnterRootfs } else { ChildStep::SkipRootfs },
        ChildStep::Exec,
    ]
}

impl ContainerBuilder {
    /// A builder for container `id` running `command` with no arguments in
    /// the host's root; `InvalidCString` when `command` holds a NUL byte.
    pub fn new(id: &str, command: &str) -> (r: Result<ContainerBuilder, Error>)
        ensures
            r is Err <==> has_nul(command@),
            r matches Err(e) ==> e is InvalidCString,
            r matches Ok(b) ==> b@ == (BuilderView { id: id@, command: command@, args: seq![], rootfs: "/"@ })
                && builder_ok(b@),
    {
        match first_nul(command) {
            Some(p) => Err(Error::InvalidCString(p)),
            None => {
                let b = ContainerBuilder {
                    id: String::from_str(id),
                    command: String::from_str(command),
                    args: Vec::new(),
                    rootfs: String::from_str("/"),
                };
                proof {
                    reveal_strlit("/");
                    assert(b.args.deep_view() =~= Seq::<Seq<char>>::empty());
                }
                Ok(b)
            },
        }
    }

    /// The same builder with its root filesystem set to `path`.
    pub fn with_rootfs(self, path: &str) -> (r: ContainerBuilder)
        ensures
            r@ == (BuilderView { rootfs: path@, ..self@ }),
    {
        ContainerBuilder { rootfs: String::from_str(path), ..self }
    }

    /// The same builder with its arguments set to `args`; `InvalidCString`
    /// when one of them holds a NUL byte.
    pub fn args(self, args: &Vec<String>) -> (r: Result<ContainerBuilder, Error>)
        ensures
            r is Err <==> any_has_nul(args.deep_view()),
            r matches Err(e) ==> e is InvalidCString,
            r matches Ok(b) ==> b@ == (BuilderView { args: args.deep_view(), ..self@ }),
    {
        let mut i: usize = 0;
        while i < args.len()
            invariant
                i <= args@.len(),
                forall|j: int| 0 <= j < i ==> !has_nul(#[trigger] args.deep_view()[j]),
            decreases args.len() - i,
        {
            match first_nul(args[i].as_str()) {
                Some(p) => {
                    proof {
                        assert(args.deep_view()[i as int] == args@[i as int]@);
                        assert(has_nul(args.deep_view()[i as int]));
                    }
                    return Err(Error::InvalidCString(p));
                },
                None => {},
            }
            proof {
                assert(args.deep_view()[i as int] == args@[i as int]@);
            }
            i = i + 1;
        }
        Ok(ContainerBuilder { args: clone_strings(args), ..self })
    }

    pub fn id(&self) -> (r: &String)
        ensures
            r@ == self@.id,
    {
        &self.id
    }

    pub fn rootfs(&self) -> (r: &String)
        ensures
            r@ == self@.rootfs,
    {
        &self.rootfs
    }

    /// The argument vector handed to `execvp`: the command, then its arguments.
    pub fn argv(&self) -> (r: Vec<String>)
        ensures
            r.deep_view() == seq![self@.command] + self@.args,
    {
        let mut out: Vec<String> = Vec::new();
        out.push(self.command.clone());
        let mut i: usize = 0;
        while i < self.args.len()
            invariant
                i <= self.args@.len(),
                out.deep_view() == seq![self@.command] + self@.args.take(i as int),
            decreases self.args.len() - i,
        {
            let ghost prev = out.deep_view();
            let a = self.args[i].clone();
            out.push(a);
            proof {
                assert(self@.args[i as int] == self.args@[i as int]@);
                assert(out.deep_view() =~= prev.push(a@));
                assert(self@.args.take(i + 1) =~= self@.args.take(i as int).push(a@));
                assert(seq![self@.command] + self@.args.take(i + 1) =~= prev.push(a@));
            }
            i = i + 1;
        }
        proof {
            assert(self@.args.take(self@.args.len() as int) =~= self@.args);
        }
        out
    }

    /// Where the launcher looks for a shell to decide whether to pivot.
    pub fn shell_path(&self) -> (r: String)
        ensures
            r@ == joined_path(self@.rootfs, "bin/sh"@),
    {
        join_path(self.rootfs.as_str(), "bin/sh")
    }

    /// The child's steps, given whether the root filesystem has `bin/sh`.
    pub fn child_steps(&self, rootfs_has_shell: bool) -> (r: Vec<ChildStep>)
        ensures
            r@ == child_plan(rootfs_has_shell),
    {
        let mut v: Vec<ChildStep> = Vec::new();
        v.push(ChildStep::RedirectStdout);
        v.push(ChildStep::RedirectStderr);
        v.push(ChildStep::CloseReadEnd);
        v.push(ChildStep::CloseWriteEnd);
        if rootfs_has_shell {
            v.push(ChildStep::EnterRootfs);
        } else {
            v.push(ChildStep::SkipRootfs);
        }
        v.push(ChildStep::Exec);
        assert(v@ =~= child_plan(rootfs_has_shell));
        v
    }
}

/// A process the launcher started.
pub trait Process {
    /// Abstract pid of the process.
    spec fn pid_spec(&self) -> i32;

    fn id(&self) -> (r: i32)
        ensures
            r == self.pid_spec();

    fn wait(&self) -> (r: Result<(), Error>)
        ensures
            r matches Err(e) ==> e is Nix;
}

/// Relies on nix::sys::wait::waitpid: waits for the child `pid` to change
/// state, giving the errno on failure. A pid of zero or below names a group
/// of processes, so it is ruled out.
#[verifier::external_body]
fn wait_for_child(pid: i32) -> Result<(), i32>
    requires
        pid > 0,
{
    match nix::sys::wait::waitpid(nix::unistd::Pid::from_raw(pid), None) {
        Ok(_) => Ok(()),
        Err(e) => Err(e as i32),
    }
}

/// The init process of a container, started by clone into fresh PID and
/// mount namespaces.
pub struct AethelProcess {
    pid: i32,
}

impl AethelProcess {
    /// The process that clone returned `pid` for.
    pub fn from_pid(pid: i32) -> (r: AethelProcess)
        requires
            pid > 0,
        ensures
            r.pid_spec() == pid,
    {
        AethelProcess { pid }
    }
}

impl Process for AethelProcess {
    closed spec fn pid_spec(&self) -> i32 {
        self.pid
    }

    fn id(&self) -> (r: i32) {
        self.pid
    }

    fn wait(&self) -> (r: Result<(), Error>) {
        if self.pid <= 0 {
            return Err(Error::Nix(EINVAL));
        }
        match wait_for_child(self.pid) {
            Ok(()) => Ok(()),
            Err(errno) => Err(Error::Nix(errno)),
        }
    }
}

/// A launched container: its id, its init process, and the read end of the
/// pipe that carries its stdout and stderr.
pub struct Container<P: Process> {
    id: String,
    process: P,
    log_fd: i32,
}

impl<P: Process> Container<P> {
    pub fn new(id: String, process: P, log_fd: i32) -> (r: Container<P>)
        ensures
            r.id_spec() == id@,
            r.pid_spec() == process.pid_spec(),
            r.log_fd_spec() == log_fd,
    {
        Container { id, process, log_fd }
    }

    pub closed spec fn id_spec(&self) -> Seq<char> {
        self.id@
    }

    pub closed spec fn pid_spec(&self) -> i32 {
        self.process.pid_spec()
    }

    pub closed spec fn log_fd_spec(&self) -> i32 {
        self.log_fd
    }

    pub fn id(&self) -> (r: &String)
        ensures
            r@ == self.id_spec(),
    {
        &self.id
    }

    pub fn pid(&self) -> (r: i32)
        ensures
            r == self.pid_spec(),
    {
        self.process.id()
    }

    /// Waits for the container's init process to change state.
    pub fn wait(&self) -> (r: Result<(), Error>)
        ensures
            r matches Err(e) ==> e is Nix,
    {
        self.process.wait()
    }

    /// The read end of the pipe that carries the container's stdout and stderr.
    pub fn log_fd(&self) -> (r: i32)
        ensures
            r == self.log_fd_spec(),
    {
        self.log_fd
    }
}

} // verus!
