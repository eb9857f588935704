use vstd::prelude::*;
use crate::job::LaunchError;

verus! {

broadcast use vstd::string::group_string_axioms;

/// ASCII whitespace: space, tab, line feed, form feed, carriage return.
pub open spec fn is_space(c: char) -> bool {
    c == ' ' || c == '\t' || c == '\n' || c == '\u{0C}' || c == '\r'
}

/// The words of `s`: its maximal runs of non-space characters, in order.
/// Read from the end: a last space adds nothing, a last character after a
/// non-space extends the last word, any other last character starts a word.
pub open spec fn tokens(s: Seq<char>) -> Seq<Seq<char>>
    decreases s.len(),
{
    if s.len() == 0 {
        seq![]
    } else {
        let rest = tokens(s.drop_last());
        let c = s.last();
        if is_space(c) {
            rest
        } else if s.len() > 1 && !is_space(s[s.len() - 2]) {
            rest.update(rest.len() - 1, rest.last().push(c))
        } else {
            rest.push(seq![c])
        }
    }
}

pub open spec fn views(v: Seq<String>) -> Seq<Seq<char>> {
    v.map_values(|t: String| t@)
}

pub fn is_space_char(c: char) -> (r: bool)
    ensures
        r == is_space(c),
{
    c == ' ' || c == '\t' || c == '\n' || c == '\u{0C}' || c == '\r'
}

/// Splits a command line at ASCII whitespace.
pub fn split_command(line: &str) -> (r: Vec<String>)
    ensures
        views(r@) == tokens(line@),
{
    let ghost s = line@;
    let n = line.unicode_len();
    let mut out: Vec<String> = Vec::new();
    let mut start: usize = 0;
    let mut in_word: bool = false;
    let mut i: usize = 0;
    for c in it: line.chars()
        invariant
            it.seq() == s,
            s == line@,
            i == it.index(),
            i <= s.len(),
            n == s.len(),
            start <= i,
            in_word ==> start < i && tokens(s.take(i as int)) == views(out@).push(
                s.subrange(start as int, i as int),
            ),
            !in_word ==> tokens(s.take(i as int)) == views(out@),
            in_word <==> (i > 0 && !is_space(s[i - 1])),
    {
        assert(i < s.len() && c == s[i as int]);
        let ghost prefix = s.take(i + 1);
        assert(prefix.drop_last() == s.take(i as int));
        assert(prefix.last() == c);
        assert(i > 0 ==> prefix[i - 1] == s[i - 1]);
        assert(s.subrange(start as int, i + 1) == s.subrange(start as int, i as int).push(c));
        if is_space_char(c) {
            if in_word {
                let word = line.substring_char(start, i);
                let ghost before = out@;
                out.push(word.to_owned());
                assert(views(out@) =~= views(before).push(s.subrange(start as int, i as int)));
                in_word = false;
            }
        } else if !in_word {
            assert(s.subrange(i as int, i + 1) =~= seq![c]);
            start = i;
            in_word = true;
        } else {
            let ghost rest = views(out@).push(s.subrange(start as int, i as int));
            assert(rest.update(rest.len() - 1, rest.last().push(c)) =~= views(out@).push(
                s.subrange(start as int, i + 1),
            ));
        }
        i = i + 1;
    }
    assert(s.take(i as int) == s);
    if in_word {
        let word = line.substring_char(start, i);
        let ghost before = out@;
        out.push(word.to_owned());
        assert(views(out@) =~= views(before).push(s.subrange(start as int, i as int)));
    }
    out
}

/// Whether a command line holds no word at all.
pub fn is_blank(line: &str) -> (r: bool)
    ensures
        r == (tokens(line@).len() == 0),
{
    split_command(line).len() == 0
}

/// The characters of a text, one by one.
pub fn chars_of(text: &str) -> (r: Vec<char>)
    ensures
        r@ == text@,
{
    let ghost s = text@;
    let mut out: Vec<char> = Vec::new();
    for c in it: text.chars()
        invariant
            it.seq() == s,
            out@ == s.take(it.index() as int),
    {
        assert(s.take(it.index() + 1) == s.take(it.index() as int).push(c));
        out.push(c);
    }
    assert(s.take(s.len() as int) == s);
    out
}

/// An absolute path starts at the root directory.
pub open spec fn is_absolute(p: Seq<char>) -> bool {
    p.len() > 0 && p[0] == '/'
}

/// `inner` names `root` itself or a path beneath it: it starts with `root`,
/// and that prefix ends at a component boundary.
pub open spec fn lies_under(inner: Seq<char>, root: Seq<char>) -> bool {
    &&& 0 < root.len() <= inner.len()
    &&& inner.take(root.len() as int) == root
    &&& (root.len() == inner.len() || root.last() == '/' || inner[root.len() as int] == '/')
}

pub fn is_absolute_path(p: &str) -> (r: bool)
    ensures
        r == is_absolute(p@),
{
    let cs = chars_of(p);
    cs.len() > 0 && cs[0] == '/'
}

pub fn lies_under_path(inner: &str, root: &str) -> (r: bool)
    ensures
        r == lies_under(inner@, root@),
{
    let a = chars_of(inner);
    let b = chars_of(root);
    if b.len() == 0 || b.len() > a.len() {
        return false;
    }
    let mut i: usize = 0;
    while i < b.len()
        invariant
            a@ == inner@,
            b@ == root@,
            0 < b.len() <= a.len(),
            i <= b.len(),
            a@.take(i as int) == b@.take(i as int),
        decreases b.len() - i,
    {
        if a[i] != b[i] {
            assert(a@.take(b.len() as int)[i as int] != b@[i as int]);
            return false;
        }
        assert(a@.take(i + 1) == a@.take(i as int).push(a@[i as int]));
        assert(b@.take(i + 1) == b@.take(i as int).push(b@[i as int]));
        i = i + 1;
    }
    assert(b@.take(b.len() as int) == b@);
    b.len() == a.len() || b[b.len() - 1] == '/' || a[b.len()] == '/'
}

/// The OS error number for an invalid argument.
pub const EINVAL: i32 = 22;

/// A namespace that the launched process gets of its own.
#[derive(Debug, Clone, Copy, PartialEq, Eq, Structural)]
pub enum Namespace {
    Pid,
    Uts,
    Ipc,
    Mount,
    Net,
    User,
}

/// How the process's filesystem root is changed to the container's root.
#[derive(Debug, Clone, PartialEq, Eq)]
pub enum RootChange {
    /// `chroot` into the root directory: simple, but a privileged process
    /// inside can escape it.
    Chroot,
    /// `pivot_root` into the root directory, the old root being put at the
    /// given directory inside the new one and then unmounted.
    PivotRoot(String),
}

/// A step that the child runs after it was created in its namespaces and
/// before the program replaces it. Each is one direct system call.
#[derive(Debug, Clone, Copy, PartialEq, Eq, Structural)]
pub enum SetupStep {
    /// Set the hostname of the new UTS namespace to the configured name.
    SetHostname,
    /// Mount a `proc` filesystem at `/proc` in the new mount namespace.
    MountProc,
}

/// Everything the isolated environment of one launch is made of.
pub struct ContainerConfig {
    pub rootfs: String,
    pub namespaces: Vec<Namespace>,
    pub hostname: String,
    pub clear_env: bool,
    pub root_change: RootChange,
}

/// All six namespaces, created together with the process.
pub open spec fn isolation_namespaces() -> Seq<Namespace> {
    seq![Namespace::Pid, Namespace::Uts, Namespace::Ipc, Namespace::Mount, Namespace::Net, Namespace::User]
}

/// The steps of the restricted window, in the order they must run.
pub open spec fn setup_steps() -> Seq<SetupStep> {
    seq![SetupStep::SetHostname, SetupStep::MountProc]
}

/// The root can be changed as configured: the root directory is absolute,
/// and a `pivot_root` puts the old root beneath the new one.
pub open spec fn root_change_ok(c: ContainerConfig) -> bool {
    &&& is_absolute(c.rootfs@)
    &&& match c.root_change {
        RootChange::Chroot => true,
        RootChange::PivotRoot(put_old) => is_absolute(put_old@) && lies_under(put_old@, c.rootfs@),
    }
}

impl ContainerConfig {
    /// Whether the root change can be carried out as configured; a relative
    /// root is `RootfsNotFound`, a misplaced old root `ChrootFailed`.
    pub fn check_root_change(&self) -> (r: Result<(), LaunchError>)
        ensures
            !is_absolute(self.rootfs@) ==> r == Err::<(), LaunchError>(LaunchError::RootfsNotFound),
            is_absolute(self.rootfs@) && !root_change_ok(*self) ==> r == Err::<(), LaunchError>(
                LaunchError::ChrootFailed(EINVAL),
            ),
            root_change_ok(*self) ==> r is Ok,
    {
        if !is_absolute_path(self.rootfs.as_str()) {
            return Err(LaunchError::RootfsNotFound);
        }
        match &self.root_change {
            RootChange::Chroot => Ok(()),
            RootChange::PivotRoot(put_old) => {
                if is_absolute_path(put_old.as_str()) && lies_under_path(put_old.as_str(), self.rootfs.as_str()) {
                    Ok(())
                } else {
                    Err(LaunchError::ChrootFailed(EINVAL))
                }
            },
        }
    }

    /// The standard isolation: every namespace, hostname `container`, an
    /// empty environment, and `chroot` into `rootfs`.
    pub fn isolated(rootfs: String) -> (c: ContainerConfig)
        ensures
            c.rootfs@ == rootfs@,
            c.namespaces@ == isolation_namespaces(),
            c.hostname@ == "container"@,
            c.clear_env,
            c.root_change == RootChange::Chroot,
    {
        let namespaces = vec![
            Namespace::Pid,
            Namespace::Uts,
            Namespace::Ipc,
            Namespace::Mount,
            Namespace::Net,
            Namespace::User,
        ];
        assert(namespaces@ =~= isolation_namespaces());
        ContainerConfig {
            rootfs,
            namespaces,
            hostname: "container".to_owned(),
            clear_env: true,
            root_change: RootChange::Chroot,
        }
    }
}

/// A launch that is ready to be carried out: the program and its arguments,
/// the environment to run them in, and the setup steps of the restricted
/// window. Standard output is captured through a pipe.
pub struct LaunchPlan {
    pub program: String,
    pub args: Vec<String>,
    pub config: ContainerConfig,
    pub setup: Vec<SetupStep>,
    pub capture_stdout: bool,
}

/// Turns a command line into a launch in `config`: the first word is the
/// program, the others its arguments. A line without words is refused, and
/// so is a root change that cannot be carried out.
pub fn get_child(command_line: &str, config: ContainerConfig) -> (r: Result<LaunchPlan, LaunchError>)
    ensures
        r is Err <==> (tokens(command_line@).len() == 0 || !root_change_ok(config)),
        tokens(command_line@).len() == 0 ==> r->Err_0 == LaunchError::InvalidCommand,
        tokens(command_line@).len() != 0 && !is_absolute(config.rootfs@) ==> r->Err_0
            == LaunchError::RootfsNotFound,
        tokens(command_line@).len() != 0 && is_absolute(config.rootfs@) && !root_change_ok(config)
            ==> r->Err_0 == LaunchError::ChrootFailed(EINVAL),
        r is Ok ==> {
            let plan = r->Ok_0;
            &&& plan.program@ == tokens(command_line@)[0]
            &&& views(plan.args@) == tokens(command_line@).drop_first()
            &&& plan.config == config
            &&& plan.setup@ == setup_steps()
            &&& plan.capture_stdout
        },
{
    let mut words = split_command(command_line);
    if words.len() == 0 {
        return Err(LaunchError::InvalidCommand);
    }
    if let Err(e) = config.check_root_change() {
        return Err(e);
    }
    let ghost all = words@;
    let program = words.remove(0);
    assert(views(words@) =~= views(all).drop_first());
    let setup = vec![SetupStep::SetHostname, SetupStep::MountProc];
    assert(setup@ =~= setup_steps());
    Ok(LaunchPlan { program, args: words, config, setup, capture_stdout: true })
}

} // verus!
