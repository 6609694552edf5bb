//! Naming of sandbox containers and the commands sent to the container runtime.
use vstd::prelude::*;
use vstd::string::*;

verus! {

/// The fixed part in front of every sandbox container name.
pub open spec fn name_prefix() -> Seq<char> {
    "aoe-sandbox-"@
}

/// How many characters of the session identifier a container name keeps.
pub const ID_PREFIX_LEN: usize = 8;

/// The container name of a session: the fixed prefix followed by the first
/// eight characters of the session identifier (all of it when shorter).
pub open spec fn container_name(session_id: Seq<char>) -> Seq<char> {
    let k = if session_id.len() < ID_PREFIX_LEN { session_id.len() } else { ID_PREFIX_LEN as nat };
    name_prefix() + session_id.take(k as int)
}

/// How a container is to be created. Built whole before any runtime call.
pub struct ContainerConfig {
    /// Absolute path inside the container where commands run.
    pub working_dir: String,
    /// Host path to container path bind mounts, in order.
    pub volumes: Vec<(String, String)>,
    /// Runtime-managed volume name to container path mounts, in order.
    pub named_volumes: Vec<(String, String)>,
    /// Environment variables as key and value, in order.
    pub environment: Vec<(String, String)>,
    /// CPU ceiling in the runtime's notation (`"1.5"`); none means unconstrained.
    pub cpu_limit: Option<String>,
    /// Memory ceiling in the runtime's notation (`"512m"`); none means unconstrained.
    pub memory_limit: Option<String>,
}

/// A lifecycle operation sent to the runtime.
#[derive(Clone, Copy, Debug, PartialEq, Eq, Structural)]
pub enum Operation {
    Query,
    Create,
    Stop,
    Remove,
}

/// A failure reported by, or about, the container runtime.
#[derive(Debug, PartialEq, Eq)]
pub enum DockerError {
    /// The runtime's command-line client is not installed.
    NotInstalled,
    /// The client is there but its daemon does not answer.
    DaemonNotRunning,
    /// `create` on a name that another container already holds.
    Conflict { name: String },
    /// The named container does not exist.
    NotFound { name: String },
    /// Removal without force of a running container.
    StillRunning { name: String },
    /// The runtime reported success on `create` but printed no identifier.
    EmptyId { name: String },
    /// Any other refusal, with the runtime's own words.
    Rejected { op: Operation, name: String, message: String },
}

/// Checks the two runtime probes in order: the client first, then its daemon.
pub fn check_runtime(client_available: bool, daemon_running: bool) -> (r: Result<(), DockerError>)
    ensures
        !client_available ==> r == Err::<(), DockerError>(DockerError::NotInstalled),
        client_available && !daemon_running ==> r == Err::<(), DockerError>(DockerError::DaemonNotRunning),
        r is Ok <==> client_available && daemon_running,
{
    if !client_available {
        Err(DockerError::NotInstalled)
    } else if !daemon_running {
        Err(DockerError::DaemonNotRunning)
    } else {
        Ok(())
    }
}

/// The runtime's words for a container that does not exist.
pub open spec fn no_such_marker() -> Seq<char> {
    "No such container"@
}

/// The runtime's words for a name that is taken.
pub open spec fn in_use_marker() -> Seq<char> {
    "is already in use"@
}

/// The runtime's words for a container that must be stopped first.
pub open spec fn running_marker() -> Seq<char> {
    "running"@
}

/// `e` is the error that a failed `op` on the container `name`, with the
/// runtime's diagnostic `stderr`, stands for.
pub open spec fn describes_failure(e: DockerError, op: Operation, name: Seq<char>, stderr: Seq<char>) -> bool {
    let not_found = contains(stderr, no_such_marker());
    let conflict = !not_found && op == Operation::Create && contains(stderr, in_use_marker());
    let running = !not_found && op == Operation::Remove && contains(stderr, running_marker());
    match e {
        DockerError::NotFound { name: n } => n@ == name && not_found,
        DockerError::Conflict { name: n } => n@ == name && conflict,
        DockerError::StillRunning { name: n } => n@ == name && running,
        DockerError::Rejected { op: o, name: n, message } => o == op && n@ == name && message@
            == trim(stderr) && !not_found && !conflict && !running,
        _ => false,
    }
}

/// The views of a sequence of strings.
pub open spec fn strs(v: Seq<String>) -> Seq<Seq<char>> {
    v.map_values(|s: String| s@)
}

/// `flag, key SEP value` for each pair, in order.
pub open spec fn pair_args(flag: Seq<char>, sep: Seq<char>, pairs: Seq<(String, String)>) -> Seq<Seq<char>>
    decreases pairs.len(),
{
    if pairs.len() == 0 {
        Seq::empty()
    } else {
        pair_args(flag, sep, pairs.drop_last()) + seq![flag, pairs.last().0@ + sep + pairs.last().1@]
    }
}

/// `flag, value` when a value is given, nothing otherwise.
pub open spec fn opt_args(flag: Seq<char>, v: Option<String>) -> Seq<Seq<char>> {
    match v {
        Some(x) => seq![flag, x@],
        None => Seq::empty(),
    }
}

/// The filter that selects exactly the container `name`.
pub open spec fn name_filter(name: Seq<char>) -> Seq<char> {
    "name=^"@ + name + "$"@
}

/// Arguments that list the identifier of the container, running or not.
pub open spec fn exists_args(name: Seq<char>) -> Seq<Seq<char>> {
    seq!["ps"@, "-a"@, "-q"@, "--filter"@, name_filter(name)]
}

/// Arguments that list the identifier of the container only while it runs.
pub open spec fn running_args(name: Seq<char>) -> Seq<Seq<char>> {
    seq!["ps"@, "-q"@, "--filter"@, name_filter(name), "--filter"@, "status=running"@]
}

/// Arguments that create and start the container in the background.
pub open spec fn create_args(name: Seq<char>, image: Seq<char>, c: ContainerConfig) -> Seq<Seq<char>> {
    seq!["run"@, "-d"@, "--name"@, name, "-w"@, c.working_dir@] + pair_args("-v"@, ":"@, c.volumes@)
        + pair_args("-v"@, ":"@, c.named_volumes@) + pair_args("-e"@, "="@, c.environment@)
        + opt_args("--cpus"@, c.cpu_limit) + opt_args("--memory"@, c.memory_limit) + seq![image]
}

/// Arguments that stop the container.
pub open spec fn stop_args(name: Seq<char>) -> Seq<Seq<char>> {
    seq!["stop"@, name]
}

/// Arguments that remove the container, stopping it first when forced.
pub open spec fn remove_args(name: Seq<char>, force: bool) -> Seq<Seq<char>> {
    if force {
        seq!["rm"@, "-f"@, name]
    } else {
        seq!["rm"@, name]
    }
}

fn push_str(args: &mut Vec<String>, s: &str)
    ensures
        strs(final(args)@) == strs(old(args)@).push(s@),
{
    args.push(String::from_str(s));
    proof {
        assert(strs(args@) =~= strs(old(args)@).push(s@));
    }
}

fn push_pairs(args: &mut Vec<String>, flag: &str, sep: &str, pairs: &Vec<(String, String)>)
    ensures
        strs(final(args)@) == strs(old(args)@) + pair_args(flag@, sep@, pairs@),
{
    let ghost a0 = strs(args@);
    let mut i: usize = 0;
    proof {
        assert(pairs@.subrange(0, 0) =~= Seq::<(String, String)>::empty());
        assert(a0 + pair_args(flag@, sep@, Seq::empty()) =~= a0);
    }
    while i < pairs.len()
        invariant
            i <= pairs@.len(),
            strs(args@) == a0 + pair_args(flag@, sep@, pairs@.subrange(0, i as int)),
        decreases pairs@.len() - i,
    {
        let pr = &pairs[i];
        let mut joined = pr.0.clone();
        joined.append(sep);
        joined.append(pr.1.as_str());
        push_str(args, flag);
        let ghost mid = args@;
        args.push(joined);
        proof {
            let sub = pairs@.subrange(0, i + 1);
            assert(sub.drop_last() =~= pairs@.subrange(0, i as int));
            assert(sub.last() == pairs@[i as int]);
            assert(joined@ == pairs@[i as int].0@ + sep@ + pairs@[i as int].1@);
            assert(strs(args@) =~= strs(mid).push(joined@));
            assert(pair_args(flag@, sep@, sub) == pair_args(flag@, sep@, pairs@.subrange(0, i as int))
                + seq![flag@, joined@]);
            assert(strs(args@) =~= a0 + pair_args(flag@, sep@, sub));
        }
        i = i + 1;
    }
    proof {
        assert(pairs@.subrange(0, i as int) =~= pairs@);
    }
}

fn push_opt(args: &mut Vec<String>, flag: &str, v: &Option<String>)
    ensures
        strs(final(args)@) == strs(old(args)@) + opt_args(flag@, *v),
{
    match v {
        Some(x) => {
            push_str(args, flag);
            push_str(args, x.as_str());
            proof {
                assert(strs(args@) =~= strs(old(args)@) + opt_args(flag@, *v));
            }
        },
        None => {
            proof {
                assert(strs(args@) =~= strs(old(args)@) + opt_args(flag@, *v));
            }
        },
    }
}

fn filter_for(name: &String) -> (r: String)
    ensures
        r@ == name_filter(name@),
{
    let mut r = String::from_str("name=^");
    r.append(name.as_str());
    r.append("$");
    r
}

/// One sandbox container, addressed by a name derived from its session.
pub struct DockerContainer {
    pub name: String,
    pub image: String,
}

impl DockerContainer {
    /// The container of the session `session_id`, created from `image`.
    pub fn new(session_id: &str, image: &str) -> (r: DockerContainer)
        ensures
            r.name@ == container_name(session_id@),
            r.image@ == image@,
    {
        DockerContainer { name: Self::generate_name(session_id), image: String::from_str(image) }
    }

    /// Derives the container name of a session.
    pub fn generate_name(session_id: &str) -> (r: String)
        ensures
            r@ == container_name(session_id@),
    {
        let n = session_id.unicode_len();
        let k: usize = if n < ID_PREFIX_LEN { n } else { ID_PREFIX_LEN };
        let mut r = String::from_str("aoe-sandbox-");
        r.append(session_id.substring_char(0, k));
        proof {
            assert(session_id@.subrange(0, k as int) =~= session_id@.take(k as int));
        }
        r
    }

    /// The runtime arguments that list this container whether or not it runs.
    pub fn exists_args(&self) -> (r: Vec<String>)
        ensures
            strs(r@) == exists_args(self.name@),
    {
        let mut r: Vec<String> = Vec::new();
        push_str(&mut r, "ps");
        push_str(&mut r, "-a");
        push_str(&mut r, "-q");
        push_str(&mut r, "--filter");
        let f = filter_for(&self.name);
        push_str(&mut r, f.as_str());
        proof {
            assert(strs(r@) =~= exists_args(self.name@));
        }
        r
    }

    /// The runtime arguments that list this container only while it runs.
    pub fn running_args(&self) -> (r: Vec<String>)
        ensures
            strs(r@) == running_args(self.name@),
    {
        let mut r: Vec<String> = Vec::new();
        push_str(&mut r, "ps");
        push_str(&mut r, "-q");
        push_str(&mut r, "--filter");
        let f = filter_for(&self.name);
        push_str(&mut r, f.as_str());
        push_str(&mut r, "--filter");
        let ghost mid = r@;
        push_str(&mut r, "status=running");
        proof {
            assert(strs(mid) =~= seq!["ps"@, "-q"@, "--filter"@, name_filter(self.name@), "--filter"@]);
            assert(strs(r@) =~= running_args(self.name@));
        }
        r
    }

    /// The runtime arguments that create and start this container from its
    /// image under `config`.
    pub fn create_args(&self, config: &ContainerConfig) -> (r: Vec<String>)
        ensures
            strs(r@) == create_args(self.name@, self.image@, *config),
    {
        let mut r: Vec<String> = Vec::new();
        push_str(&mut r, "run");
        push_str(&mut r, "-d");
        push_str(&mut r, "--name");
        push_str(&mut r, self.name.as_str());
        push_str(&mut r, "-w");
        push_str(&mut r, config.working_dir.as_str());
        let ghost head = strs(r@);
        push_pairs(&mut r, "-v", ":", &config.volumes);
        push_pairs(&mut r, "-v", ":", &config.named_volumes);
        push_pairs(&mut r, "-e", "=", &config.environment);
        push_opt(&mut r, "--cpus", &config.cpu_limit);
        push_opt(&mut r, "--memory", &config.memory_limit);
        push_str(&mut r, self.image.as_str());
        proof {
            assert(head =~= seq!["run"@, "-d"@, "--name"@, self.name@, "-w"@, config.working_dir@]);
            assert(strs(r@) =~= create_args(self.name@, self.image@, *config));
        }
        r
    }

    /// The runtime arguments that stop this container.
    pub fn stop_args(&self) -> (r: Vec<String>)
        ensures
            strs(r@) == stop_args(self.name@),
    {
        let mut r: Vec<String> = Vec::new();
        push_str(&mut r, "stop");
        push_str(&mut r, self.name.as_str());
        proof {
            assert(strs(r@) =~= stop_args(self.name@));
        }
        r
    }

    /// The runtime arguments that remove this container, forced or not.
    pub fn remove_args(&self, force: bool) -> (r: Vec<String>)
        ensures
            strs(r@) == remove_args(self.name@, force),
    {
        let mut r: Vec<String> = Vec::new();
        push_str(&mut r, "rm");
        if force {
            push_str(&mut r, "-f");
        }
        push_str(&mut r, self.name.as_str());
        proof {
            assert(strs(r@) =~= remove_args(self.name@, force));
        }
        r
    }

    /// The error that a failed `op` on this container stands for, from the
    /// runtime's diagnostic text.
    pub fn failure(&self, op: Operation, stderr: &str) -> (r: DockerError)
        ensures
            describes_failure(r, op, self.name@, stderr@),
    {
        if text_contains(stderr, "No such container") {
            DockerError::NotFound { name: self.name.clone() }
        } else if op == Operation::Create && text_contains(stderr, "is already in use") {
            DockerError::Conflict { name: self.name.clone() }
        } else if op == Operation::Remove && text_contains(stderr, "running") {
            DockerError::StillRunning { name: self.name.clone() }
        } else {
            DockerError::Rejected { op, name: self.name.clone(), message: trim_output(stderr) }
        }
    }

    /// Reads the answer to a listing query (`exists_args` or `running_args`):
    /// the container is listed when the output holds anything but white space.
    /// A failed query is an error, never a negative answer.
    pub fn read_listing(&self, success: bool, stdout: &str, stderr: &str) -> (r: Result<bool, DockerError>)
        ensures
            success ==> r == Ok::<bool, DockerError>(trim(stdout@).len() > 0),
            !success ==> r is Err && describes_failure(r->Err_0, Operation::Query, self.name@, stderr@),
    {
        if success {
            let t = trim_output(stdout);
            Ok(t.as_str().unicode_len() > 0)
        } else {
            Err(self.failure(Operation::Query, stderr))
        }
    }

    /// Reads the answer to `create_args`: the new container's identifier.
    pub fn read_created(&self, success: bool, stdout: &str, stderr: &str) -> (r: Result<String, DockerError>)
        ensures
            success && trim(stdout@).len() > 0 ==> r is Ok && r->Ok_0@ == trim(stdout@),
            success && trim(stdout@).len() == 0 ==> r is Err && (r->Err_0 matches DockerError::EmptyId { name } && name@ == self.name@),
            !success ==> r is Err && describes_failure(r->Err_0, Operation::Create, self.name@, stderr@),
    {
        if success {
            let id = trim_output(stdout);
            if id.as_str().unicode_len() > 0 {
                Ok(id)
            } else {
                Err(DockerError::EmptyId { name: self.name.clone() })
            }
        } else {
            Err(self.failure(Operation::Create, stderr))
        }
    }

    /// Reads the answer to `stop_args` or `remove_args`: `op` tells which.
    pub fn read_done(&self, op: Operation, success: bool, stderr: &str) -> (r: Result<(), DockerError>)
        ensures
            success ==> r is Ok,
            !success ==> r is Err && describes_failure(r->Err_0, op, self.name@, stderr@),
    {
        if success {
            Ok(())
        } else {
            Err(self.failure(op, stderr))
        }
    }
}

/// Whether the runtime prints `c` as white space around its answers.
pub open spec fn is_ws(c: char) -> bool {
    c == ' ' || c == '\n' || c == '\r' || c == '\t'
}

/// `s` without trailing white space.
pub open spec fn trim_end(s: Seq<char>) -> Seq<char>
    decreases s.len(),
{
    if s.len() > 0 && is_ws(s.last()) {
        trim_end(s.drop_last())
    } else {
        s
    }
}

/// `s` without leading white space.
pub open spec fn trim_start(s: Seq<char>) -> Seq<char>
    decreases s.len(),
{
    if s.len() > 0 && is_ws(s[0]) {
        trim_start(s.drop_first())
    } else {
        s
    }
}

/// `s` without white space at either end.
pub open spec fn trim(s: Seq<char>) -> Seq<char> {
    trim_start(trim_end(s))
}

/// `p` stands in `s` from position `i` on.
pub open spec fn occurs_at(s: Seq<char>, p: Seq<char>, i: int) -> bool {
    0 <= i && i + p.len() <= s.len() && s.subrange(i, i + p.len()) == p
}

/// `p` stands somewhere in `s`.
pub open spec fn contains(s: Seq<char>, p: Seq<char>) -> bool {
    exists|i: int| occurs_at(s, p, i)
}

/// The characters of `s`, one by one.
pub(crate) fn chars_of(s: &str) -> (r: Vec<char>)
    ensures
        r@ == s@,
{
    let n = s.unicode_len();
    let mut r: Vec<char> = Vec::new();
    let mut i: usize = 0;
    while i < n
        invariant
            n == s@.len(),
            i <= n,
            r@ == s@.subrange(0, i as int),
        decreases n - i,
    {
        r.push(s.get_char(i));
        i = i + 1;
        proof {
            assert(r@ =~= s@.subrange(0, i as int));
        }
    }
    proof {
        assert(r@ =~= s@);
    }
    r
}

fn char_is_ws(c: char) -> (r: bool)
    ensures
        r == is_ws(c),
{
    c == ' ' || c == '\n' || c == '\r' || c == '\t'
}

/// Removes the white space at both ends of the runtime's answer.
pub fn trim_output(s: &str) -> (r: String)
    ensures
        r@ == trim(s@),
{
    let cs = chars_of(s);
    let mut e: usize = cs.len();
    proof {
        assert(s@.subrange(0, e as int) =~= s@);
    }
    while e > 0 && char_is_ws(cs[e - 1])
        invariant
            cs@ == s@,
            e <= cs@.len(),
            trim_end(s@.subrange(0, e as int)) == trim_end(s@),
        decreases e,
    {
        proof {
            assert(s@.subrange(0, e as int).drop_last() =~= s@.subrange(0, e - 1));
        }
        e = e - 1;
    }
    proof {
        assert(trim_end(s@.subrange(0, e as int)) == s@.subrange(0, e as int));
    }
    let mut b: usize = 0;
    while b < e && char_is_ws(cs[b])
        invariant
            cs@ == s@,
            b <= e <= cs@.len(),
            trim_start(s@.subrange(b as int, e as int)) == trim(s@),
        decreases e - b,
    {
        proof {
            assert(s@.subrange(b as int, e as int).drop_first() =~= s@.subrange(b + 1, e as int));
        }
        b = b + 1;
    }
    let t = s.substring_char(b, e);
    String::from_str(t)
}

/// Whether `p` stands somewhere in `s`.
pub fn text_contains(s: &str, p: &str) -> (r: bool)
    ensures
        r == contains(s@, p@),
{
    let cs = chars_of(s);
    let ps = chars_of(p);
    let n = cs.len();
    let m = ps.len();
    if m > n {
        proof {
            assert forall|i: int| !occurs_at(s@, p@, i) by {}
        }
        return false;
    }
    let mut i: usize = 0;
    while i <= n - m
        invariant
            cs@ == s@,
            ps@ == p@,
            n == s@.len(),
            m == p@.len(),
            m <= n,
            i <= n - m + 1,
            forall|k: int| 0 <= k < i ==> !occurs_at(s@, p@, k),
        decreases n - m + 1 - i,
    {
        let mut j: usize = 0;
        while j < m && cs[i + j] == ps[j]
            invariant
                cs@ == s@,
                ps@ == p@,
                n == s@.len(),
                m == p@.len(),
                i + m <= n,
                j <= m,
                forall|t: int| 0 <= t < j ==> s@[i + t] == p@[t],
            decreases m - j,
        {
            j = j + 1;
        }
        if j == m {
            proof {
                assert(s@.subrange(i as int, i + m) =~= p@);
                assert(occurs_at(s@, p@, i as int));
            }
            return true;
        }
        proof {
            assert(s@.subrange(i as int, i + m)[j as int] != p@[j as int]);
        }
        i = i + 1;
    }
    proof {
        assert forall|i: int| !occurs_at(s@, p@, i) by {}
    }
    false
}

/// A container name is the fixed prefix and the first eight characters of
/// the session identifier: a shorter identifier is kept whole, a longer one
/// is cut, nothing is padded, and equal identifiers give equal names.
pub proof fn lemma_name_shape(a: Seq<char>, b: Seq<char>)
    ensures
        a == b ==> container_name(a) == container_name(b),
        a.len() <= 8 ==> container_name(a) == name_prefix() + a,
        a.len() > 8 ==> container_name(a) == name_prefix() + a.subrange(0, 8),
        container_name(a).len() == name_prefix().len() + (if a.len() < 8 { a.len() } else { 8 }),
{
    if a.len() <= 8 {
        assert(a.take(a.len() as int) =~= a);
    }
}

} // verus!
