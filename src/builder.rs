//! The configuration accumulator, and the assembly of an environment from it.
use vstd::prelude::*;
use rand::Rng;
use crate::capabilities::{Capabilities, ControlPlaneConfig, ControlPlaneError, WasiControlPlane};
use crate::env::{BinaryPackage, RuntimeHandle, WasiEnv, WasiEnvInit, WasiState};
use crate::error::{WasiRuntimeError, WasiStateCreationError};
use crate::fs::{
    clash_message, guest_names_distinct, BackingFs, TmpFileSystem, VirtualFile, WasiFs,
    WasiFsRoot, STDERR_FILENO, STDIN_FILENO, STDOUT_FILENO,
};
use crate::preopen::{
    dirs_view, without_leading_slashes, PreopenDirBuilder,
    PreopenDirBuilderView, PreopenedDir, PreopenedDirView,
};
use crate::text::{copy_strings, utf8};
use crate::validate::{
    args_view, env_error_message, env_pair_ok, envs_view, first_bad_arg, first_bad_env,
    validate_args, validate_envs, arg_ok, EQUALS,
};

verus! {

/// The command-name mapping that a list of insertions describes: a later
/// insertion of a name replaces an earlier one.
pub open spec fn commands_map(s: Seq<(String, String)>) -> Map<Seq<char>, Seq<char>>
    decreases s.len(),
{
    if s.len() == 0 {
        Map::empty()
    } else {
        commands_map(s.drop_last()).insert(s.last().0@, s.last().1@)
    }
}

/// Accumulates the configuration of a guest environment.
#[derive(Debug)]
pub struct WasiEnvBuilder {
    /// Command-line arguments; the first is the program name.
    pub args: Vec<String>,
    /// Environment variables, in the order they were added.
    pub envs: Vec<(String, Vec<u8>)>,
    /// Host directories exposed to the guest.
    pub preopens: Vec<PreopenedDir>,
    /// Directories of the virtual filesystem exposed to the guest.
    pub vfs_preopens: Vec<String>,
    pub stdout: Option<VirtualFile>,
    pub stderr: Option<VirtualFile>,
    pub stdin: Option<VirtualFile>,
    pub fs: Option<WasiFsRoot>,
    pub runtime: Option<RuntimeHandle>,
    /// Dependency packages to inject.
    pub uses: Vec<BinaryPackage>,
    /// Guest command names mapped to host paths, in insertion order.
    pub map_commands: Vec<(String, String)>,
    pub capabilities: Capabilities,
}

/// Mathematical view of a [`WasiEnvBuilder`].
pub struct WasiEnvBuilderView {
    pub args: Seq<Seq<char>>,
    pub envs: Seq<(Seq<char>, Seq<u8>)>,
    pub preopens: Seq<PreopenedDirView>,
    pub vfs_preopens: Seq<Seq<char>>,
    pub stdout: Option<VirtualFile>,
    pub stderr: Option<VirtualFile>,
    pub stdin: Option<VirtualFile>,
    pub fs: Option<WasiFsRoot>,
    pub runtime: Option<RuntimeHandle>,
    pub uses: Seq<Seq<char>>,
    pub map_commands: Map<Seq<char>, Seq<char>>,
    pub capabilities: Capabilities,
}

/// The mapping that a list of (name, path) pairs describes; later pairs win.
pub open spec fn commands_of(s: Seq<(&str, &str)>) -> Map<Seq<char>, Seq<char>>
    decreases s.len(),
{
    if s.len() == 0 {
        Map::empty()
    } else {
        commands_of(s.drop_last()).insert(s.last().0@, s.last().1@)
    }
}

pub open spec fn strings_view(s: Seq<String>) -> Seq<Seq<char>> {
    s.map_values(|x: String| x@)
}

pub open spec fn packages_view(s: Seq<BinaryPackage>) -> Seq<Seq<char>> {
    s.map_values(|x: BinaryPackage| x@)
}

pub open spec fn strs_view(s: Seq<&str>) -> Seq<Seq<char>> {
    s.map_values(|x: &str| x@)
}

pub open spec fn pairs_view(s: Seq<(&str, &[u8])>) -> Seq<(Seq<char>, Seq<u8>)> {
    s.map_values(|p: (&str, &[u8])| (p.0@, p.1@))
}

impl View for WasiEnvBuilder {
    type V = WasiEnvBuilderView;

    open spec fn view(&self) -> WasiEnvBuilderView {
        WasiEnvBuilderView {
            args: args_view(self.args@),
            envs: envs_view(self.envs@),
            preopens: dirs_view(self.preopens@),
            vfs_preopens: strings_view(self.vfs_preopens@),
            stdout: self.stdout,
            stderr: self.stderr,
            stdin: self.stdin,
            fs: self.fs,
            runtime: self.runtime,
            uses: packages_view(self.uses@),
            map_commands: commands_map(self.map_commands@),
            capabilities: self.capabilities,
        }
    }
}

/// The directory that exposing `path` with every permission yields.
pub open spec fn full_access_dir(path: Seq<char>, alias: Option<Seq<char>>) -> PreopenedDirView {
    PreopenedDirView { path, alias, read: true, write: true, create: true }
}

/// The builder that the one-directory shapes configure.
pub open spec fn full_access_builder(path: Seq<char>, alias: Option<Seq<char>>) -> PreopenDirBuilderView {
    PreopenDirBuilderView { path: Some(path), alias, read: true, write: true, create: true }
}

/// The builder that exposing `path` under `alias` configures.
pub open spec fn mapped_builder(alias: Seq<char>, path: Seq<char>) -> PreopenDirBuilderView {
    full_access_builder(path, Some(without_leading_slashes(alias)))
}

pub open spec fn mapped_pair_builder(m: (&str, &str)) -> PreopenDirBuilderView {
    mapped_builder(m.0@, m.1@)
}

/// The `key=value` byte string of one variable.
pub open spec fn env_bytes(p: (Seq<char>, Seq<u8>)) -> Seq<u8> {
    utf8(p.0) + seq![EQUALS] + p.1
}

pub open spec fn or_default(f: Option<VirtualFile>, default: VirtualFile) -> VirtualFile {
    match f {
        Some(x) => x,
        None => default,
    }
}

impl WasiEnvBuilderView {
    pub open spec fn args_ok(self) -> bool {
        forall|i: int| 0 <= i < self.args.len() ==> arg_ok(#[trigger] self.args[i])
    }

    pub open spec fn envs_ok(self) -> bool {
        forall|i: int| 0 <= i < self.envs.len() ==> env_pair_ok(#[trigger] self.envs[i])
    }

    /// Whether assembly succeeds.
    pub open spec fn assembles(self) -> bool {
        &&& self.args_ok()
        &&& self.envs_ok()
        &&& guest_names_distinct(self.preopens)
    }

    /// `e` is what a failed assembly reports: the first bad argument, else the
    /// first bad variable, else two directories that share a guest name.
    pub open spec fn reports(self, e: WasiStateCreationError) -> bool {
        if !self.args_ok() {
            exists|i: int|
                first_bad_arg(self.args, i) && (e matches WasiStateCreationError::ArgumentContainsNulByte(a)
                    && a@ == self.args[i])
        } else if !self.envs_ok() {
            exists|i: int|
                first_bad_env(self.envs, i) && (e matches WasiStateCreationError::EnvironmentVariableFormatError(m)
                    && m@ == env_error_message(self.envs[i]))
        } else {
            exists|i: int, j: int|
                0 <= i < j < self.preopens.len() && self.preopens[i].guest_name()
                    == self.preopens[j].guest_name() && (e matches WasiStateCreationError::WasiFsCreationError(m)
                    && m@ == clash_message(self.preopens[i].guest_name()))
        }
    }

    /// The backing: the chosen one, else a fresh sandbox.
    pub open spec fn root(self) -> WasiFsRoot {
        match self.fs {
            Some(root) => root,
            None => WasiFsRoot::Sandbox(TmpFileSystem { memory_limiter: None }),
        }
    }

    /// The runtime: the chosen one, else the shared default.
    pub open spec fn resolved_runtime(self) -> RuntimeHandle {
        match self.runtime {
            Some(rt) => rt,
            None => RuntimeHandle::SharedDefault,
        }
    }
}

/// `fs` is the filesystem state assembled from `v`: its backing and
/// directories, with the standard descriptors bound. Standard input is the
/// console unless replaced; output and error keep the filesystem's own
/// unless replaced.
pub open spec fn assembled_fs(fs: WasiFs, v: WasiEnvBuilderView) -> bool {
    &&& fs.root == v.root()
    &&& fs.preopens_view() == v.preopens
    &&& strings_view(fs.vfs_preopens@) == v.vfs_preopens
    &&& fs.stdin == or_default(v.stdin, VirtualFile::ConsoleStdin)
    &&& fs.stdout == or_default(v.stdout, VirtualFile::ConsoleStdout)
    &&& fs.stderr == or_default(v.stderr, VirtualFile::ConsoleStderr)
}

/// `init` holds, beside its filesystem, what `v` describes: the arguments,
/// the `key=value` strings, an empty futex table, a zero clock offset, the
/// runtime, the packages, the command mapping, a scheduling control sized
/// from the capabilities with no task yet, and the initial lifecycle flags.
pub open spec fn assembled_rest(init: WasiEnvInit, v: WasiEnvBuilderView) -> bool {
    &&& args_view(init.state.args@) == v.args
    &&& strings_view(init.state.preopen@) == v.vfs_preopens
    &&& init.state.envs@.map_values(|e: Vec<u8>| e@) == v.envs.map_values(
        |p: (Seq<char>, Seq<u8>)| env_bytes(p),
    )
    &&& init.state.futexs@.len() == 0
    &&& init.state.clock_offset == 0
    &&& init.runtime == v.resolved_runtime()
    &&& packages_view(init.webc_dependencies@) == v.uses
    &&& commands_map(init.mapped_commands@) == v.map_commands
    &&& init.control_plane == WasiControlPlane::spec_fresh(v.capabilities)
    &&& init.capabilities == v.capabilities
    &&& init.call_initialize
    &&& !init.can_deep_sleep
}

/// Relies on rand::thread_rng: 32 bytes from a generator seeded from the
/// operating system. Nothing is known of their values.
#[verifier::external_body]
fn fresh_secret() -> (r: [u8; 32]) {
    rand::thread_rng().gen::<[u8; 32]>()
}

/// Appends `s` to `v`.
fn append_bytes(v: &mut Vec<u8>, s: &[u8])
    ensures
        final(v)@ == old(v)@ + s@,
{
    let ghost start = v@;
    let mut i: usize = 0;
    while i < s.len()
        invariant
            0 <= i <= s@.len(),
            v@ == start + s@.subrange(0, i as int),
        decreases s@.len() - i,
    {
        v.push(s[i]);
        i = i + 1;
        assert(v@ =~= start + s@.subrange(0, i as int));
    }
    assert(s@.subrange(0, i as int) =~= s@);
}

/// The `key=value` byte strings of the variables, in order.
fn env_strings(envs: &Vec<(String, Vec<u8>)>) -> (r: Vec<Vec<u8>>)
    ensures
        r@.map_values(|e: Vec<u8>| e@) == envs_view(envs@).map_values(
            |p: (Seq<char>, Seq<u8>)| env_bytes(p),
        ),
{
    let ghost target = envs_view(envs@).map_values(|p: (Seq<char>, Seq<u8>)| env_bytes(p));
    let mut r: Vec<Vec<u8>> = Vec::new();
    let mut i: usize = 0;
    while i < envs.len()
        invariant
            0 <= i <= envs@.len(),
            target == envs_view(envs@).map_values(|p: (Seq<char>, Seq<u8>)| env_bytes(p)),
            r@.map_values(|e: Vec<u8>| e@) == target.subrange(0, i as int),
        decreases envs@.len() - i,
    {
        let pair = &envs[i];
        let mut bytes: Vec<u8> = Vec::new();
        append_bytes(&mut bytes, pair.0.as_str().as_bytes());
        bytes.push(EQUALS);
        append_bytes(&mut bytes, pair.1.as_slice());
        let ghost before = r@;
        r.push(bytes);
        i = i + 1;
        proof {
            assert(bytes@ =~= env_bytes((pair.0@, pair.1@)));
            assert(target[i - 1] == env_bytes((pair.0@, pair.1@)));
            assert(r@.map_values(|e: Vec<u8>| e@) =~= before.map_values(|e: Vec<u8>| e@).push(bytes@));
            assert(target.subrange(0, i as int) =~= target.subrange(0, i - 1).push(target[i - 1]));
            assert(r@.map_values(|e: Vec<u8>| e@) =~= target.subrange(0, i as int));
        }
    }
    assert(target.subrange(0, i as int) =~= target);
    r
}

impl WasiEnvBuilder {
    /// The view of a builder whose only argument is `program_name`.
    pub open spec fn new_view(program_name: Seq<char>) -> WasiEnvBuilderView {
        WasiEnvBuilderView {
            args: seq![program_name],
            envs: Seq::empty(),
            preopens: Seq::empty(),
            vfs_preopens: Seq::empty(),
            stdout: None,
            stderr: None,
            stdin: None,
            fs: None,
            runtime: None,
            uses: Seq::empty(),
            map_commands: Map::empty(),
            capabilities: Capabilities::spec_new(),
        }
    }

    /// A builder whose only argument is the program name.
    pub fn new(program_name: &str) -> (r: Self)
        ensures
            r@ == Self::new_view(program_name@),
    {
        let mut args: Vec<String> = Vec::new();
        args.push(program_name.to_string());
        let r = WasiEnvBuilder {
            args,
            envs: Vec::new(),
            preopens: Vec::new(),
            vfs_preopens: Vec::new(),
            stdout: None,
            stderr: None,
            stdin: None,
            fs: None,
            runtime: None,
            uses: Vec::new(),
            map_commands: Vec::new(),
            capabilities: Capabilities::new(),
        };
        assert(r@.args =~= seq![program_name@]);
        assert(r@.envs =~= Seq::empty());
        assert(r@.preopens =~= Seq::empty());
        assert(r@.vfs_preopens =~= Seq::empty());
        assert(r@.uses =~= Seq::empty());
        r
    }

    /// Adds an environment variable.
    pub fn env(self, key: &str, value: &[u8]) -> (r: Self)
        ensures
            r@ == (WasiEnvBuilderView { envs: self@.envs.push((key@, value@)), ..self@ }),
    {
        let mut b = self;
        b.add_env(key, value);
        b
    }

    /// Adds an environment variable. The pair is checked when the
    /// environment is assembled: the key may hold neither nul nor `=`, and the
    /// value no nul.
    pub fn add_env(&mut self, key: &str, value: &[u8])
        ensures
            final(self)@ == (WasiEnvBuilderView {
                envs: old(self)@.envs.push((key@, value@)),
                ..old(self)@
            }),
    {
        let ghost before = self.envs@;
        self.envs.push((key.to_string(), vstd::slice::slice_to_vec(value)));
        assert(envs_view(self.envs@) =~= envs_view(before).push((key@, value@)));
    }

    /// Adds several environment variables, in order.
    pub fn envs(self, env_pairs: &[(&str, &[u8])]) -> (r: Self)
        ensures
            r@ == (WasiEnvBuilderView { envs: self@.envs + pairs_view(env_pairs@), ..self@ }),
    {
        let mut b = self;
        b.add_envs(env_pairs);
        b
    }

    /// Adds several environment variables, in order.
    pub fn add_envs(&mut self, env_pairs: &[(&str, &[u8])])
        ensures
            final(self)@ == (WasiEnvBuilderView {
                envs: old(self)@.envs + pairs_view(env_pairs@),
                ..old(self)@
            }),
    {
        let ghost start = self@;
        let mut i: usize = 0;
        while i < env_pairs.len()
            invariant
                0 <= i <= env_pairs@.len(),
                self@ == (WasiEnvBuilderView {
                    envs: start.envs + pairs_view(env_pairs@).subrange(0, i as int),
                    ..start
                }),
            decreases env_pairs@.len() - i,
        {
            let (k, v) = env_pairs[i];
            self.add_env(k, v);
            i = i + 1;
            assert(start.envs + pairs_view(env_pairs@).subrange(0, i as int) =~= (start.envs
                + pairs_view(env_pairs@).subrange(0, i - 1)).push((k@, v@)));
        }
        assert(pairs_view(env_pairs@).subrange(0, i as int) =~= pairs_view(env_pairs@));
    }

    /// The environment variables configured so far.
    pub fn get_env(&self) -> (r: &[(String, Vec<u8>)])
        ensures
            r@ == self.envs@,
    {
        self.envs.as_slice()
    }

    /// The environment variables, for editing in place.
    pub fn get_env_mut(&mut self) -> (r: &mut Vec<(String, Vec<u8>)>)
        ensures
            *r == old(self).envs,
            *final(self) == (WasiEnvBuilder { envs: *final(r), ..*old(self) }),
    {
        &mut self.envs
    }

    /// Adds an argument.
    pub fn arg(self, arg: &str) -> (r: Self)
        ensures
            r@ == (WasiEnvBuilderView { args: self@.args.push(arg@), ..self@ }),
    {
        let mut b = self;
        b.add_arg(arg);
        b
    }

    /// Adds an argument. It is checked when the environment is assembled:
    /// it may hold no nul byte.
    pub fn add_arg(&mut self, arg: &str)
        ensures
            final(self)@ == (WasiEnvBuilderView { args: old(self)@.args.push(arg@), ..old(self)@ }),
    {
        let ghost before = self.args@;
        self.args.push(arg.to_string());
        assert(args_view(self.args@) =~= args_view(before).push(arg@));
    }

    /// Adds several arguments, in order.
    pub fn args(self, args: &[&str]) -> (r: Self)
        ensures
            r@ == (WasiEnvBuilderView { args: self@.args + strs_view(args@), ..self@ }),
    {
        let mut b = self;
        b.add_args(args);
        b
    }

    /// Adds several arguments, in order.
    pub fn add_args(&mut self, args: &[&str])
        ensures
            final(self)@ == (WasiEnvBuilderView {
                args: old(self)@.args + strs_view(args@),
                ..old(self)@
            }),
    {
        let ghost start = self@;
        let mut i: usize = 0;
        while i < args.len()
            invariant
                0 <= i <= args@.len(),
                self@ == (WasiEnvBuilderView {
                    args: start.args + strs_view(args@).subrange(0, i as int),
                    ..start
                }),
            decreases args@.len() - i,
        {
            let a = args[i];
            self.add_arg(a);
            i = i + 1;
            assert(start.args + strs_view(args@).subrange(0, i as int) =~= (start.args
                + strs_view(args@).subrange(0, i - 1)).push(a@));
        }
        assert(strs_view(args@).subrange(0, i as int) =~= strs_view(args@));
    }

    /// The arguments configured so far.
    pub fn get_args(&self) -> (r: &[String])
        ensures
            r@ == self.args@,
    {
        self.args.as_slice()
    }

    /// The arguments, for editing in place.
    pub fn get_args_mut(&mut self) -> (r: &mut Vec<String>)
        ensures
            *r == old(self).args,
            *final(self) == (WasiEnvBuilder { args: *final(r), ..*old(self) }),
    {
        &mut self.args
    }

    /// Adds a dependency package whose files and commands the guest inherits.
    pub fn use_webc(self, pkg: BinaryPackage) -> (r: Self)
        ensures
            r@ == (WasiEnvBuilderView { uses: self@.uses.push(pkg@), ..self@ }),
    {
        let mut b = self;
        b.add_webc(pkg);
        b
    }

    /// Adds a dependency package whose files and commands the guest inherits.
    pub fn add_webc(&mut self, pkg: BinaryPackage) -> (r: &mut Self)
        ensures
            final(r)@ == final(self)@,
            r@ == (WasiEnvBuilderView { uses: old(self)@.uses.push(pkg@), ..old(self)@ }),
    {
        let ghost before = self.uses@;
        self.uses.push(pkg);
        assert(packages_view(self.uses@) =~= packages_view(before).push(pkg@));
        self
    }

    /// Adds several dependency packages, in order.
    pub fn uses(self, uses: Vec<BinaryPackage>) -> (r: Self)
        ensures
            r@ == (WasiEnvBuilderView { uses: self@.uses + packages_view(uses@), ..self@ }),
    {
        let mut b = self;
        let ghost before = b.uses@;
        let mut more = uses;
        b.uses.append(&mut more);
        assert(packages_view(b.uses@) =~= packages_view(before) + packages_view(uses@));
        b
    }

    /// Maps a guest command name to a host path; a later mapping of the same
    /// name replaces the earlier one.
    pub fn map_command(self, name: &str, target: &str) -> (r: Self)
        ensures
            r@ == (WasiEnvBuilderView {
                map_commands: self@.map_commands.insert(name@, target@),
                ..self@
            }),
    {
        let mut b = self;
        let ghost before = b.map_commands@;
        b.map_commands.push((name.to_string(), target.to_string()));
        assert(b.map_commands@.drop_last() =~= before);
        b
    }

    /// Maps several guest command names to host paths, in order.
    pub fn map_commands(self, map_commands: &[(&str, &str)]) -> (r: Self)
        ensures
            r@ == (WasiEnvBuilderView {
                map_commands: self@.map_commands.union_prefer_right(
                    commands_of(map_commands@),
                ),
                ..self@
            }),
    {
        let mut b = self;
        let ghost start = b@;
        assert(commands_of(map_commands@.subrange(0, 0)) == Map::<Seq<char>, Seq<char>>::empty());
        assert(start.map_commands.union_prefer_right(Map::empty()) =~= start.map_commands);
        let mut i: usize = 0;
        while i < map_commands.len()
            invariant
                0 <= i <= map_commands@.len(),
                b@ == (WasiEnvBuilderView {
                    map_commands: start.map_commands.union_prefer_right(
                        commands_of(map_commands@.subrange(0, i as int)),
                    ),
                    ..start
                }),
            decreases map_commands@.len() - i,
        {
            let (name, target) = map_commands[i];
            b = b.map_command(name, target);
            i = i + 1;
            proof {
                let pre = map_commands@.subrange(0, i - 1);
                let cur = map_commands@.subrange(0, i as int);
                assert(cur.drop_last() =~= pre);
                assert(cur.last() == (name, target));
                assert(start.map_commands.union_prefer_right(commands_of(cur)) =~= start.map_commands.union_prefer_right(commands_of(pre)).insert(name@, target@));
            }
        }
        assert(map_commands@.subrange(0, i as int) =~= map_commands@);
        b
    }

    /// Exposes the host directory `po_dir` at the guest's root with every
    /// permission.
    pub fn preopen_dir(self, po_dir: &str) -> (r: Result<Self, WasiStateCreationError>)
        ensures
            r is Ok <==> full_access_builder(po_dir@, None).buildable(),
            r matches Ok(b) ==> b@ == (WasiEnvBuilderView {
                preopens: self@.preopens.push(full_access_dir(po_dir@, None)),
                ..self@
            }),
            r matches Err(e) ==> full_access_builder(po_dir@, None).reports(e),
    {
        let mut b = self;
        match b.add_preopen_dir(po_dir) {
            Ok(()) => Ok(b),
            Err(e) => Err(e),
        }
    }

    /// Exposes the host directory `po_dir` at the guest's root with every
    /// permission. It fails, and changes nothing, when the path is empty.
    pub fn add_preopen_dir(&mut self, po_dir: &str) -> (r: Result<(), WasiStateCreationError>)
        ensures
            r is Ok <==> full_access_builder(po_dir@, None).buildable(),
            r is Ok ==> final(self)@ == (WasiEnvBuilderView {
                preopens: old(self)@.preopens.push(full_access_dir(po_dir@, None)),
                ..old(self)@
            }),
            r matches Err(e) ==> *final(self) == *old(self) && full_access_builder(
                po_dir@,
                None,
            ).reports(e),
    {
        let mut pdb = PreopenDirBuilder::new();
        pdb.directory(po_dir).read(true).write(true).create(true);
        self.push_preopen(&pdb)
    }

    /// Builds `pdb` and, if that succeeds, adds the directory.
    fn push_preopen(&mut self, pdb: &PreopenDirBuilder) -> (r: Result<(), WasiStateCreationError>)
        ensures
            r is Ok <==> pdb@.buildable(),
            r is Ok ==> final(self)@ == (WasiEnvBuilderView {
                preopens: old(self)@.preopens.push(pdb@.built()),
                ..old(self)@
            }),
            r matches Err(e) ==> *final(self) == *old(self) && pdb@.reports(e),
    {
        match pdb.build() {
            Ok(preopen) => {
                let ghost before = self.preopens@;
                self.preopens.push(preopen);
                assert(dirs_view(self.preopens@) =~= dirs_view(before).push(pdb@.built()));
                Ok(())
            },
            Err(e) => Err(e),
        }
    }

    /// Exposes several host directories, as [`Self::preopen_dir`] does each.
    /// It fails on the first that cannot be exposed.
    pub fn preopen_dirs(self, dirs: &[&str]) -> (r: Result<Self, WasiStateCreationError>)
        ensures
            r is Ok <==> forall|i: int|
                0 <= i < dirs@.len() ==> full_access_builder(#[trigger] dirs@[i]@, None).buildable(),
            r matches Ok(b) ==> b@ == (WasiEnvBuilderView {
                preopens: self@.preopens + dirs@.map_values(|d: &str| full_access_dir(d@, None)),
                ..self@
            }),
            r matches Err(e) ==> exists|i: int|
                0 <= i < dirs@.len() && full_access_builder(#[trigger] dirs@[i]@, None).reports(e),
    {
        let mut b = self;
        let ghost start = b@;
        let ghost full = dirs@.map_values(|d: &str| full_access_dir(d@, None));
        let mut i: usize = 0;
        while i < dirs.len()
            invariant
                0 <= i <= dirs@.len(),
                full == dirs@.map_values(|d: &str| full_access_dir(d@, None)),
                forall|j: int| 0 <= j < i ==> full_access_builder(#[trigger] dirs@[j]@, None).buildable(),
                b@ == (WasiEnvBuilderView {
                    preopens: start.preopens + full.subrange(0, i as int),
                    ..start
                }),
            decreases dirs@.len() - i,
        {
            let d = dirs[i];
            match b.add_preopen_dir(d) {
                Ok(()) => {},
                Err(e) => {
                    return Err(e);
                },
            }
            i = i + 1;
            assert(start.preopens + full.subrange(0, i as int) =~= (start.preopens + full.subrange(0, i - 1)).push(full_access_dir(d@, None)));
        }
        assert(full.subrange(0, i as int) =~= full);
        Ok(b)
    }

    /// Exposes a directory that `inner` configures, starting from an empty
    /// [`PreopenDirBuilder`].
    pub fn preopen_build<F>(self, inner: F) -> (r: Result<Self, WasiStateCreationError>)
        where
            F: Fn(PreopenDirBuilder) -> PreopenDirBuilder,
        requires
            forall|p: PreopenDirBuilder| inner.requires((p,)),
        ensures
            exists|p: PreopenDirBuilder, q: PreopenDirBuilder|
                p@ == PreopenDirBuilder::spec_empty() && inner.ensures((p,), q) && {
                    &&& (r is Ok <==> q@.buildable())
                    &&& (r matches Ok(b) ==> b@ == (WasiEnvBuilderView {
                        preopens: self@.preopens.push(q@.built()),
                        ..self@
                    }))
                    &&& (r matches Err(e) ==> q@.reports(e))
                },
    {
        let mut b = self;
        match b.add_preopen_build(inner) {
            Ok(()) => Ok(b),
            Err(e) => Err(e),
        }
    }

    /// Exposes a directory that `inner` configures, starting from an empty
    /// [`PreopenDirBuilder`]. It changes nothing when the directory is refused.
    pub fn add_preopen_build<F>(&mut self, inner: F) -> (r: Result<(), WasiStateCreationError>)
        where
            F: Fn(PreopenDirBuilder) -> PreopenDirBuilder,
        requires
            forall|p: PreopenDirBuilder| inner.requires((p,)),
        ensures
            exists|p: PreopenDirBuilder, q: PreopenDirBuilder|
                p@ == PreopenDirBuilder::spec_empty() && inner.ensures((p,), q) && {
                    &&& (r is Ok <==> q@.buildable())
                    &&& (r is Ok ==> final(self)@ == (WasiEnvBuilderView {
                        preopens: old(self)@.preopens.push(q@.built()),
                        ..old(self)@
                    }))
                    &&& (r matches Err(e) ==> *final(self) == *old(self) && q@.reports(e))
                },
    {
        let pdb = PreopenDirBuilder::new();
        let configured = inner(pdb);
        self.push_preopen(&configured)
    }

    /// Exposes directories of the virtual filesystem, in order.
    pub fn preopen_vfs_dirs(&mut self, po_dirs: Vec<String>) -> (r: Result<&mut Self, WasiStateCreationError>)
        ensures
            r matches Ok(b) && final(b)@ == final(self)@ && b@ == (WasiEnvBuilderView {
                vfs_preopens: old(self)@.vfs_preopens + strings_view(po_dirs@),
                ..old(self)@
            }),
    {
        let ghost before = self.vfs_preopens@;
        let mut more = po_dirs;
        self.vfs_preopens.append(&mut more);
        assert(strings_view(self.vfs_preopens@) =~= strings_view(before) + strings_view(po_dirs@));
        Ok(self)
    }

    /// Exposes the host directory `po_dir` to the guest under `alias`, with
    /// every permission.
    pub fn map_dir(self, alias: &str, po_dir: &str) -> (r: Result<Self, WasiStateCreationError>)
        ensures
            r is Ok <==> mapped_builder(alias@, po_dir@).buildable(),
            r matches Ok(b) ==> b@ == (WasiEnvBuilderView {
                preopens: self@.preopens.push(mapped_builder(alias@, po_dir@).built()),
                ..self@
            }),
            r matches Err(e) ==> mapped_builder(alias@, po_dir@).reports(e),
    {
        let mut b = self;
        match b.add_map_dir(alias, po_dir) {
            Ok(()) => Ok(b),
            Err(e) => Err(e),
        }
    }

    /// Exposes the host directory `po_dir` to the guest under `alias`, with
    /// every permission. It changes nothing when the directory is refused.
    pub fn add_map_dir(&mut self, alias: &str, po_dir: &str) -> (r: Result<(), WasiStateCreationError>)
        ensures
            r is Ok <==> mapped_builder(alias@, po_dir@).buildable(),
            r is Ok ==> final(self)@ == (WasiEnvBuilderView {
                preopens: old(self)@.preopens.push(mapped_builder(alias@, po_dir@).built()),
                ..old(self)@
            }),
            r matches Err(e) ==> *final(self) == *old(self) && mapped_builder(
                alias@,
                po_dir@,
            ).reports(e),
    {
        let mut pdb = PreopenDirBuilder::new();
        pdb.directory(po_dir).alias(alias).read(true).write(true).create(true);
        self.push_preopen(&pdb)
    }

    /// Exposes several host directories under aliases, as [`Self::map_dir`]
    /// does each. It fails on the first that cannot be exposed.
    pub fn map_dirs(self, mapped_dirs: &[(&str, &str)]) -> (r: Result<Self, WasiStateCreationError>)
        ensures
            r is Ok <==> forall|i: int|
                0 <= i < mapped_dirs@.len() ==> (#[trigger] mapped_pair_builder(mapped_dirs@[i])).buildable(),
            r matches Ok(b) ==> b@ == (WasiEnvBuilderView {
                preopens: self@.preopens + mapped_dirs@.map_values(
                    |m: (&str, &str)| mapped_pair_builder(m).built(),
                ),
                ..self@
            }),
            r matches Err(e) ==> exists|i: int|
                0 <= i < mapped_dirs@.len() && (#[trigger] mapped_pair_builder(mapped_dirs@[i])).reports(e),
    {
        let mut b = self;
        let ghost start = b@;
        let ghost full = mapped_dirs@.map_values(|m: (&str, &str)| mapped_pair_builder(m).built());
        let mut i: usize = 0;
        while i < mapped_dirs.len()
            invariant
                0 <= i <= mapped_dirs@.len(),
                full == mapped_dirs@.map_values(|m: (&str, &str)| mapped_pair_builder(m).built()),
                forall|j: int| 0 <= j < i ==> (#[trigger] mapped_pair_builder(mapped_dirs@[j])).buildable(),
                b@ == (WasiEnvBuilderView {
                    preopens: start.preopens + full.subrange(0, i as int),
                    ..start
                }),
            decreases mapped_dirs@.len() - i,
        {
            let (alias, dir) = mapped_dirs[i];
            assert(mapped_pair_builder(mapped_dirs@[i as int]) == mapped_builder(alias@, dir@));
            match b.add_map_dir(alias, dir) {
                Ok(()) => {},
                Err(e) => {
                    return Err(e);
                },
            }
            i = i + 1;
            assert(start.preopens + full.subrange(0, i as int) =~= (start.preopens + full.subrange(0, i - 1)).push(mapped_builder(alias@, dir@).built()));
        }
        assert(full.subrange(0, i as int) =~= full);
        Ok(b)
    }

    /// Replaces the guest's standard output.
    pub fn stdout(self, new_file: VirtualFile) -> (r: Self)
        ensures
            r@ == (WasiEnvBuilderView { stdout: Some(new_file), ..self@ }),
    {
        let mut b = self;
        b.set_stdout(new_file);
        b
    }

    /// Replaces the guest's standard output.
    pub fn set_stdout(&mut self, new_file: VirtualFile)
        ensures
            final(self)@ == (WasiEnvBuilderView { stdout: Some(new_file), ..old(self)@ }),
    {
        self.stdout = Some(new_file);
    }

    /// Replaces the guest's standard error.
    pub fn stderr(self, new_file: VirtualFile) -> (r: Self)
        ensures
            r@ == (WasiEnvBuilderView { stderr: Some(new_file), ..self@ }),
    {
        let mut b = self;
        b.set_stderr(new_file);
        b
    }

    /// Replaces the guest's standard error.
    pub fn set_stderr(&mut self, new_file: VirtualFile)
        ensures
            final(self)@ == (WasiEnvBuilderView { stderr: Some(new_file), ..old(self)@ }),
    {
        self.stderr = Some(new_file);
    }

    /// Replaces the guest's standard input.
    pub fn stdin(self, new_file: VirtualFile) -> (r: Self)
        ensures
            r@ == (WasiEnvBuilderView { stdin: Some(new_file), ..self@ }),
    {
        let mut b = self;
        b.set_stdin(new_file);
        b
    }

    /// Replaces the guest's standard input.
    pub fn set_stdin(&mut self, new_file: VirtualFile)
        ensures
            final(self)@ == (WasiEnvBuilderView { stdin: Some(new_file), ..old(self)@ }),
    {
        self.stdin = Some(new_file);
    }

    /// Backs the guest's filesystem with one of the embedder's, in place of
    /// any earlier choice.
    pub fn fs(self, fs: BackingFs) -> (r: Self)
        ensures
            r@ == (WasiEnvBuilderView { fs: Some(WasiFsRoot::Backing(fs)), ..self@ }),
    {
        let mut b = self;
        b.set_fs(fs);
        b
    }

    /// Backs the guest's filesystem with one of the embedder's, in place of
    /// any earlier choice.
    pub fn set_fs(&mut self, fs: BackingFs)
        ensures
            final(self)@ == (WasiEnvBuilderView {
                fs: Some(WasiFsRoot::Backing(fs)),
                ..old(self)@
            }),
    {
        self.fs = Some(WasiFsRoot::Backing(fs));
    }

    /// Backs the guest's filesystem with the given sandbox, in place of any
    /// earlier choice.
    pub fn sandbox_fs(self, fs: TmpFileSystem) -> (r: Self)
        ensures
            r@ == (WasiEnvBuilderView { fs: Some(WasiFsRoot::Sandbox(fs)), ..self@ }),
    {
        let mut b = self;
        b.fs = Some(WasiFsRoot::Sandbox(fs));
        b
    }

    /// Chooses the runtime, in place of the shared default.
    pub fn runtime(self, runtime: RuntimeHandle) -> (r: Self)
        ensures
            r@ == (WasiEnvBuilderView { runtime: Some(runtime), ..self@ }),
    {
        let mut b = self;
        b.set_runtime(runtime);
        b
    }

    /// Chooses the runtime, in place of the shared default.
    pub fn set_runtime(&mut self, runtime: RuntimeHandle)
        ensures
            final(self)@ == (WasiEnvBuilderView { runtime: Some(runtime), ..old(self)@ }),
    {
        self.runtime = Some(runtime);
    }

    /// Sets what the guest is allowed to use.
    pub fn capabilities(self, capabilities: Capabilities) -> (r: Self)
        ensures
            r@ == (WasiEnvBuilderView { capabilities, ..self@ }),
    {
        let mut b = self;
        b.set_capabilities(capabilities);
        b
    }

    /// What the guest is allowed to use, for editing in place.
    pub fn capabilities_mut(&mut self) -> (r: &mut Capabilities)
        ensures
            *r == old(self).capabilities,
            *final(self) == (WasiEnvBuilder { capabilities: *final(r), ..*old(self) }),
    {
        &mut self.capabilities
    }

    /// Sets what the guest is allowed to use.
    pub fn set_capabilities(&mut self, capabilities: Capabilities)
        ensures
            final(self)@ == (WasiEnvBuilderView { capabilities, ..old(self)@ }),
    {
        self.capabilities = capabilities;
    }

    /// Registers a step that runs on the filesystem state once it is
    /// assembled; it may change the state or refuse it with a message.
    pub fn setup_fs<F>(self, setup_fs_fn: F) -> (r: FsSetupBuilder<F>)
        where
            F: Fn(WasiFs) -> Result<WasiFs, String>,
        ensures
            r.builder == self,
            r.setup_fs_fn == setup_fs_fn,
    {
        FsSetupBuilder { builder: self, setup_fs_fn }
    }

    /// Validates the configuration and assembles the environment from it.
    ///
    /// Every argument must be free of nul bytes, every key free of nul and
    /// `=`, every value free of nul, and no two exposed directories may share
    /// a guest-visible name. The first violation is reported, in that order,
    /// and nothing is assembled.
    pub fn build_init(self) -> (r: Result<WasiEnvInit, WasiStateCreationError>)
        ensures
            r is Ok <==> self@.assembles(),
            r matches Ok(init) ==> assembled_fs(init.state.fs, self@) && assembled_rest(
                init,
                self@,
            ),
            r matches Err(e) ==> self@.reports(e),
    {
        match self.assemble_fs() {
            Ok(fs) => Ok(self.finish(fs)),
            Err(e) => Err(e),
        }
    }

    /// As [`Self::build_init`], and before the rest is assembled `setup_fs`
    /// may change the filesystem state or refuse it with a message.
    pub fn build_init_with_setup<F>(self, setup_fs: F) -> (r: Result<WasiEnvInit, WasiStateCreationError>)
        where
            F: Fn(WasiFs) -> Result<WasiFs, String>,
        requires
            forall|fs: WasiFs| setup_fs.requires((fs,)),
        ensures
            !self@.assembles() ==> (r matches Err(e) && self@.reports(e)),
            self@.assembles() ==> exists|fs: WasiFs, out: Result<WasiFs, String>|
                assembled_fs(fs, self@) && setup_fs.ensures((fs,), out) && match out {
                    Ok(fs2) => r matches Ok(init) && init.state.fs == fs2 && assembled_rest(
                        init,
                        self@,
                    ),
                    Err(m) => r matches Err(WasiStateCreationError::WasiFsSetupError(m2)) && m2
                        == m,
                },
    {
        match self.assemble_fs() {
            Ok(fs) => {
                match setup_fs(fs) {
                    Ok(fs2) => Ok(self.finish(fs2)),
                    Err(m) => Err(WasiStateCreationError::WasiFsSetupError(m)),
                }
            },
            Err(e) => Err(e),
        }
    }

    /// The validation and the filesystem steps of assembly.
    fn assemble_fs(&self) -> (r: Result<WasiFs, WasiStateCreationError>)
        ensures
            r is Ok <==> self@.assembles(),
            r matches Ok(fs) ==> assembled_fs(fs, self@),
            r matches Err(e) ==> self@.reports(e),
    {
        match validate_args(&self.args) {
            Ok(()) => {
                assert forall|i: int| 0 <= i < self@.args.len() implies arg_ok(#[trigger] self@.args[i]) by {
                    assert(self@.args[i] == self.args@[i]@);
                }
            },
            Err(e) => {
                assert(!self@.args_ok()) by {
                    if self@.args_ok() {
                        assert forall|i: int| 0 <= i < self.args@.len() implies arg_ok(
                            #[trigger] self.args@[i]@,
                        ) by {
                            assert(self@.args[i] == self.args@[i]@);
                        }
                    }
                }
                return Err(e);
            },
        }
        match validate_envs(&self.envs) {
            Ok(()) => {
                assert(self@.envs_ok());
            },
            Err(e) => {
                return Err(e);
            },
        }
        let stdin = match self.stdin {
            Some(f) => f,
            None => VirtualFile::ConsoleStdin,
        };
        let root = match self.fs {
            Some(root) => root,
            None => WasiFsRoot::Sandbox(TmpFileSystem::new()),
        };
        let mut wasi_fs = match WasiFs::new_with_preopen(&self.preopens, &self.vfs_preopens, root) {
            Ok(fs) => fs,
            Err(m) => {
                proof {
                    let pv = dirs_view(self.preopens@);
                    let (i, j) = choose|i: int, j: int|
                        0 <= i < j < self.preopens@.len() && pv[i].guest_name() == pv[j].guest_name()
                            && m@ == clash_message(pv[i].guest_name());
                    assert(self@.preopens[i].guest_name() == self@.preopens[j].guest_name());
                }
                return Err(WasiStateCreationError::WasiFsCreationError(m));
            },
        };
        match wasi_fs.swap_file(STDIN_FILENO, stdin) {
            Ok(_) => {},
            Err(e) => {
                return Err(WasiStateCreationError::FileSystemError(e));
            },
        }
        if let Some(out) = self.stdout {
            match wasi_fs.swap_file(STDOUT_FILENO, out) {
                Ok(_) => {},
                Err(e) => {
                    return Err(WasiStateCreationError::FileSystemError(e));
                },
            }
        }
        if let Some(err) = self.stderr {
            match wasi_fs.swap_file(STDERR_FILENO, err) {
                Ok(_) => {},
                Err(e) => {
                    return Err(WasiStateCreationError::FileSystemError(e));
                },
            }
        }
        Ok(wasi_fs)
    }

    /// The steps of assembly after the filesystem: the environment strings,
    /// the secret, the runtime and the scheduling control.
    fn finish(self, fs: WasiFs) -> (r: WasiEnvInit)
        ensures
            r.state.fs == fs,
            assembled_rest(r, self@),
    {
        let envs = env_strings(&self.envs);
        let secret = fresh_secret();
        let runtime = match self.runtime {
            Some(rt) => rt,
            None => RuntimeHandle::SharedDefault,
        };
        let config = ControlPlaneConfig::from_capabilities(&self.capabilities);
        let control_plane = WasiControlPlane::new(config);
        let preopen = copy_strings(&self.vfs_preopens);
        WasiEnvInit {
            state: WasiState {
                fs,
                secret,
                args: self.args,
                preopen,
                futexs: Vec::new(),
                clock_offset: 0,
                envs,
            },
            runtime,
            webc_dependencies: self.uses,
            mapped_commands: self.map_commands,
            control_plane,
            capabilities: self.capabilities,
            call_initialize: true,
            can_deep_sleep: false,
        }
    }

    /// Assembles the environment and brings it to life.
    pub fn build(self) -> (r: Result<WasiEnv, WasiRuntimeError>)
        ensures
            r is Ok <==> self@.assembles() && WasiControlPlane::spec_fresh(self@.capabilities).has_room(),
            r matches Ok(env) ==> assembled_fs(env.init.state.fs, self@) && assembled_rest(
                WasiEnvInit { control_plane: WasiControlPlane::spec_fresh(self@.capabilities), ..env.init },
                self@,
            ) && env.init.control_plane.task_count == 1 && !env.running && !env.cleaned_up,
            !self@.assembles() ==> (r matches Err(WasiRuntimeError::Init(e)) && self@.reports(e)),
            self@.assembles() && !WasiControlPlane::spec_fresh(self@.capabilities).has_room() ==> r
                == Err::<WasiEnv, WasiRuntimeError>(
                WasiRuntimeError::ControlPlane(
                    (ControlPlaneError::TaskLimitReached {
                        max: WasiControlPlane::spec_fresh(self@.capabilities).limit(),
                    }),
                ),
            ),
    {
        match self.build_init() {
            Ok(init) => {
                match WasiEnv::from_init(init) {
                    Ok(env) => Ok(env),
                    Err(e) => Err(WasiRuntimeError::ControlPlane(e)),
                }
            },
            Err(e) => Err(WasiRuntimeError::Init(e)),
        }
    }
}

/// A builder together with a step that runs on the filesystem state once it
/// is assembled, before the rest of the environment is.
pub struct FsSetupBuilder<F> {
    pub builder: WasiEnvBuilder,
    pub setup_fs_fn: F,
}

impl<F: Fn(WasiFs) -> Result<WasiFs, String>> FsSetupBuilder<F> {
    /// Assembles the environment as [`WasiEnvBuilder::build_init_with_setup`]
    /// does with the registered step.
    pub fn build_init(self) -> (r: Result<WasiEnvInit, WasiStateCreationError>)
        requires
            forall|fs: WasiFs| self.setup_fs_fn.requires((fs,)),
        ensures
            !self.builder@.assembles() ==> (r matches Err(e) && self.builder@.reports(e)),
            self.builder@.assembles() ==> exists|fs: WasiFs, out: Result<WasiFs, String>|
                assembled_fs(fs, self.builder@) && self.setup_fs_fn.ensures((fs,), out) && match out {
                    Ok(fs2) => r matches Ok(init) && init.state.fs == fs2 && assembled_rest(
                        init,
                        self.builder@,
                    ),
                    Err(m) => r matches Err(WasiStateCreationError::WasiFsSetupError(m2)) && m2
                        == m,
                },
    {
        self.builder.build_init_with_setup(self.setup_fs_fn)
    }
}

impl WasiEnv {
    /// A builder for an environment whose only argument is the program name.
    pub fn builder(program_name: &str) -> (r: WasiEnvBuilder)
        ensures
            r@ == WasiEnvBuilder::new_view(program_name@),
    {
        WasiEnvBuilder::new(program_name)
    }
}

} // verus!
