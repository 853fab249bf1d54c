//! Command resolution against the system and an application-managed runtime
//! bundle.
//!
//! `RuntimeManager` turns an abstract command name into a launchable
//! executable, preferring an explicit path, then the process search path
//! (with platform supplemental directories), then candidates under the
//! managed runtime root. All lookups are pure functions of an
//! [`FsSnapshot`](crate::fsmodel::FsSnapshot).

use vstd::prelude::*;
use crate::fsmodel::FsSnapshot;
use crate::text::{ascii_lower, join_seq, lower_seq, nodup_seq, path_join, str_eq, vec_contains_str, views_of};

verus! {

/// Where a resolved command came from.
#[derive(Debug, Clone, Copy, PartialEq, Eq, Structural)]
pub enum RuntimeSource {
    /// Found via an explicit path or the system search path.
    System,
    /// Found inside the managed runtime bundle.
    Managed,
}

/// A successfully resolved command.
#[derive(Debug, Clone)]
pub struct ResolvedCommand {
    /// What to execute: the original name for explicit paths, otherwise the
    /// full resolved path.
    pub command: String,
    /// Where the command was found.
    pub source: RuntimeSource,
    /// The full path of the executable, when known.
    pub resolved_path: Option<String>,
}

/// Availability snapshot for one command.
#[derive(Debug, Clone)]
pub struct RuntimeCommandCapability {
    /// The abstract command name that was probed.
    pub command: String,
    /// Whether the command resolved at all.
    pub available: bool,
    /// Where it resolved, when available.
    pub source: Option<RuntimeSource>,
    /// The full path it resolved to, when known.
    pub resolved_path: Option<String>,
}

/// Candidate locations for one command inside the managed runtime bundle.
pub struct ManagedCommandSpec {
    /// The bundle component the command lives in.
    pub component: String,
    /// Relative candidate paths under `<root>/<component>/current`, probed in
    /// order.
    pub candidates: Vec<String>,
}

/// Resolves commands against a managed runtime root.
pub struct RuntimeManager {
    /// The root directory of the managed runtime bundle.
    pub runtime_root: String,
}

/// Whether a command is written as a path rather than a bare name: it holds a
/// separator or starts with a dot. An absolute path always holds a separator
/// (`/` on Unix, `\\` after the drive prefix on Windows), so no separate
/// absoluteness test is needed.
pub open spec fn path_like(cmd: Seq<char>) -> bool {
    cmd.contains('/') || cmd.contains('\\') || (cmd.len() > 0 && cmd[0] == '.')
}

/// Whether a command should be treated as an explicit path.
pub fn is_path_like_command(command: &str) -> (r: bool)
    ensures
        r == path_like(command@),
{
    crate::text::contains_char(command, '/') || crate::text::contains_char(command, '\\')
        || crate::text::starts_with_char(command, '.')
}

/// The path probed for `cmd` in the `i`-th system search directory.
pub open spec fn system_probe_path(fs: FsSnapshot, cmd: Seq<char>, i: int) -> Seq<char> {
    join_seq(fs.search_dirs()[i]@, cmd)
}

/// Whether the `i`-th system search directory holds `cmd`.
pub open spec fn system_hit(fs: FsSnapshot, cmd: Seq<char>, i: int) -> bool {
    fs.has_file(system_probe_path(fs, cmd, i))
}

/// Whether some system search directory holds `cmd`.
pub open spec fn system_resolves(fs: FsSnapshot, cmd: Seq<char>) -> bool {
    exists|i: int| 0 <= i < fs.search_dirs().len() && #[trigger] system_hit(fs, cmd, i)
}

/// Whether the `i`-th system search directory is the earliest one holding
/// `cmd`.
pub open spec fn first_system_hit(fs: FsSnapshot, cmd: Seq<char>, i: int) -> bool {
    &&& 0 <= i < fs.search_dirs().len()
    &&& system_hit(fs, cmd, i)
    &&& forall|j: int| 0 <= j < i ==> !#[trigger] system_hit(fs, cmd, j)
}

/// The canonical name a command alias stands for: the name is ASCII-lowered
/// and the Windows-suffixed spellings of the managed commands are stripped.
pub open spec fn normalized_command(cmd: Seq<char>) -> Seq<char> {
    let low = lower_seq(cmd);
    if low == "node.exe"@ {
        "node"@
    } else if low == "npm.cmd"@ || low == "npm.exe"@ {
        "npm"@
    } else if low == "npx.cmd"@ || low == "npx.exe"@ {
        "npx"@
    } else if low == "python.exe"@ {
        "python"@
    } else if low == "python3.exe"@ {
        "python3"@
    } else if low == "soffice.exe"@ {
        "soffice"@
    } else if low == "pdftoppm.exe"@ {
        "pdftoppm"@
    } else {
        low
    }
}

/// Canonicalizes a command alias.
pub fn normalize_command_alias(command: &str) -> (r: String)
    ensures
        r@ == normalized_command(command@),
{
    let low: String = ascii_lower(command);
    if str_eq(low.as_str(), "node.exe") {
        "node".to_owned()
    } else if str_eq(low.as_str(), "npm.cmd") || str_eq(low.as_str(), "npm.exe") {
        "npm".to_owned()
    } else if str_eq(low.as_str(), "npx.cmd") || str_eq(low.as_str(), "npx.exe") {
        "npx".to_owned()
    } else if str_eq(low.as_str(), "python.exe") {
        "python".to_owned()
    } else if str_eq(low.as_str(), "python3.exe") {
        "python3".to_owned()
    } else if str_eq(low.as_str(), "soffice.exe") {
        "soffice".to_owned()
    } else if str_eq(low.as_str(), "pdftoppm.exe") {
        "pdftoppm".to_owned()
    } else {
        low
    }
}

/// The managed bundle component that serves a canonical command name, if any.
pub open spec fn managed_component(cmd: Seq<char>) -> Option<Seq<char>> {
    if cmd == "node"@ || cmd == "npm"@ || cmd == "npx"@ {
        Some("node"@)
    } else if cmd == "python"@ || cmd == "python3"@ {
        Some("python"@)
    } else if cmd == "pandoc"@ {
        Some("pandoc"@)
    } else if cmd == "soffice"@ {
        Some("office"@)
    } else if cmd == "pdftoppm"@ {
        Some("poppler"@)
    } else {
        None
    }
}

/// The ordered candidate paths for a canonical command name, relative to its
/// component's `current` directory.
pub open spec fn managed_candidates(cmd: Seq<char>) -> Seq<Seq<char>> {
    if cmd == "node"@ {
        seq!["node"@, "node.exe"@, "bin/node"@, "bin/node.exe"@]
    } else if cmd == "npm"@ {
        seq!["npm"@, "npm.cmd"@, "bin/npm"@, "bin/npm.cmd"@]
    } else if cmd == "npx"@ {
        seq!["npx"@, "npx.cmd"@, "bin/npx"@, "bin/npx.cmd"@]
    } else if cmd == "python"@ {
        seq![
            "python"@,
            "python.exe"@,
            "bin/python"@,
            "bin/python.exe"@,
            "bin/python3"@,
            "bin/python3.exe"@,
        ]
    } else if cmd == "python3"@ {
        seq![
            "python3"@,
            "python3.exe"@,
            "bin/python3"@,
            "bin/python3.exe"@,
            "python"@,
            "python.exe"@,
            "bin/python"@,
            "bin/python.exe"@,
        ]
    } else if cmd == "pandoc"@ {
        seq!["pandoc"@, "pandoc.exe"@, "bin/pandoc"@, "bin/pandoc.exe"@]
    } else if cmd == "soffice"@ {
        seq![
            "soffice"@,
            "soffice.exe"@,
            "bin/soffice"@,
            "bin/soffice.exe"@,
            "program/soffice"@,
            "program/soffice.exe"@,
        ]
    } else if cmd == "pdftoppm"@ {
        seq![
            "pdftoppm"@,
            "pdftoppm.exe"@,
            "bin/pdftoppm"@,
            "bin/pdftoppm.exe"@,
            "Library/bin/pdftoppm.exe"@,
        ]
    } else {
        Seq::empty()
    }
}

/// Looks up the managed-bundle locations for a canonical command name.
pub fn managed_command_spec(command: &str) -> (r: Option<ManagedCommandSpec>)
    ensures
        match r {
            Some(s) => {
                &&& managed_component(command@) == Some(s.component@)
                &&& s.candidates@.len() == managed_candidates(command@).len()
                &&& forall|i: int|
                    0 <= i < s.candidates@.len() ==> #[trigger] s.candidates@[i]@
                        == managed_candidates(command@)[i]
            },
            None => managed_component(command@) is None,
        },
{
    if str_eq(command, "node") {
        Some(ManagedCommandSpec {
            component: "node".to_owned(),
            candidates: vec![
                "node".to_owned(),
                "node.exe".to_owned(),
                "bin/node".to_owned(),
                "bin/node.exe".to_owned(),
            ],
        })
    } else if str_eq(command, "npm") {
        Some(ManagedCommandSpec {
            component: "node".to_owned(),
            candidates: vec![
                "npm".to_owned(),
                "npm.cmd".to_owned(),
                "bin/npm".to_owned(),
                "bin/npm.cmd".to_owned(),
            ],
        })
    } else if str_eq(command, "npx") {
        Some(ManagedCommandSpec {
            component: "node".to_owned(),
            candidates: vec![
                "npx".to_owned(),
                "npx.cmd".to_owned(),
                "bin/npx".to_owned(),
                "bin/npx.cmd".to_owned(),
            ],
        })
    } else if str_eq(command, "python") {
        Some(ManagedCommandSpec {
            component: "python".to_owned(),
            candidates: vec![
                "python".to_owned(),
                "python.exe".to_owned(),
                "bin/python".to_owned(),
                "bin/python.exe".to_owned(),
                "bin/python3".to_owned(),
                "bin/python3.exe".to_owned(),
            ],
        })
    } else if str_eq(command, "python3") {
        Some(ManagedCommandSpec {
            component: "python".to_owned(),
            candidates: vec![
                "python3".to_owned(),
                "python3.exe".to_owned(),
                "bin/python3".to_owned(),
                "bin/python3.exe".to_owned(),
                "python".to_owned(),
                "python.exe".to_owned(),
                "bin/python".to_owned(),
                "bin/python.exe".to_owned(),
            ],
        })
    } else if str_eq(command, "pandoc") {
        Some(ManagedCommandSpec {
            component: "pandoc".to_owned(),
            candidates: vec![
                "pandoc".to_owned(),
                "pandoc.exe".to_owned(),
                "bin/pandoc".to_owned(),
                "bin/pandoc.exe".to_owned(),
            ],
        })
    } else if str_eq(command, "soffice") {
        Some(ManagedCommandSpec {
            component: "office".to_owned(),
            candidates: vec![
                "soffice".to_owned(),
                "soffice.exe".to_owned(),
                "bin/soffice".to_owned(),
                "bin/soffice.exe".to_owned(),
                "program/soffice".to_owned(),
                "program/soffice.exe".to_owned(),
            ],
        })
    } else if str_eq(command, "pdftoppm") {
        Some(ManagedCommandSpec {
            component: "poppler".to_owned(),
            candidates: vec![
                "pdftoppm".to_owned(),
                "pdftoppm.exe".to_owned(),
                "bin/pdftoppm".to_owned(),
                "bin/pdftoppm.exe".to_owned(),
                "Library/bin/pdftoppm.exe".to_owned(),
            ],
        })
    } else {
        None
    }
}

/// The `current` directory of a managed component under `root`.
pub open spec fn component_current(root: Seq<char>, component: Seq<char>) -> Seq<char> {
    join_seq(join_seq(root, component), "current"@)
}

/// The full path of the `i`-th managed candidate for `cmd` under `root`.
pub open spec fn managed_probe_path(root: Seq<char>, cmd: Seq<char>, i: int) -> Seq<char> {
    let norm = normalized_command(cmd);
    join_seq(component_current(root, managed_component(norm)->0), managed_candidates(norm)[i])
}

/// Whether the `i`-th managed candidate for `cmd` exists as a file.
pub open spec fn managed_hit(fs: FsSnapshot, root: Seq<char>, cmd: Seq<char>, i: int) -> bool {
    fs.has_file(managed_probe_path(root, cmd, i))
}

/// Whether the managed bundle can serve `cmd` at all.
pub open spec fn managed_resolves(fs: FsSnapshot, root: Seq<char>, cmd: Seq<char>) -> bool {
    &&& managed_component(normalized_command(cmd)) is Some
    &&& exists|i: int|
        0 <= i < managed_candidates(normalized_command(cmd)).len() && #[trigger] managed_hit(
            fs,
            root,
            cmd,
            i,
        )
}

/// Whether the `i`-th managed candidate is the earliest existing one.
pub open spec fn first_managed_hit(fs: FsSnapshot, root: Seq<char>, cmd: Seq<char>, i: int) -> bool {
    &&& 0 <= i < managed_candidates(normalized_command(cmd)).len()
    &&& managed_hit(fs, root, cmd, i)
    &&& forall|j: int| 0 <= j < i ==> !#[trigger] managed_hit(fs, root, cmd, j)
}

/// What a successful resolution of `cmd` looks like: the source follows the
/// explicit-path / system / managed priority, and the resolved path is the
/// first hit of the strategy that fired.
pub open spec fn resolution_ok(
    fs: FsSnapshot,
    root: Seq<char>,
    cmd: Seq<char>,
    rc: ResolvedCommand,
) -> bool {
    &&& rc.source == resolved_source(fs, root, cmd)
    &&& (path_like(cmd) ==> fs.has_file(cmd) && rc.command@ == cmd && (rc.resolved_path
        matches Some(p) && p@ == cmd))
    &&& (!path_like(cmd) && system_resolves(fs, cmd) ==> exists|i: int|
        #[trigger] first_system_hit(fs, cmd, i) && rc.command@ == system_probe_path(fs, cmd, i) && (
        rc.resolved_path matches Some(p) && p@ == system_probe_path(fs, cmd, i)))
    &&& (!path_like(cmd) && !system_resolves(fs, cmd) ==> managed_resolves(fs, root, cmd)
        && exists|i: int|
        #[trigger] first_managed_hit(fs, root, cmd, i) && rc.command@ == managed_probe_path(
            root,
            cmd,
            i,
        ) && (rc.resolved_path matches Some(p) && p@ == managed_probe_path(root, cmd, i)))
}

/// Whether `cmd` resolves at all, by any of the three strategies in order.
pub open spec fn resolvable(fs: FsSnapshot, root: Seq<char>, cmd: Seq<char>) -> bool {
    if path_like(cmd) {
        fs.has_file(cmd)
    } else {
        system_resolves(fs, cmd) || managed_resolves(fs, root, cmd)
    }
}

/// The source a resolvable command resolves from.
pub open spec fn resolved_source(fs: FsSnapshot, root: Seq<char>, cmd: Seq<char>) -> RuntimeSource {
    if path_like(cmd) || system_resolves(fs, cmd) {
        RuntimeSource::System
    } else {
        RuntimeSource::Managed
    }
}

/// Finds the first directory in `dirs` holding `command`, returning the
/// joined path.
fn find_command_in_dirs(fs: &FsSnapshot, dirs: &Vec<String>, command: &str) -> (r: Option<String>)
    ensures
        match r {
            Some(p) => exists|i: int|
                {
                    &&& 0 <= i < dirs@.len()
                    &&& #[trigger] fs.has_file(join_seq(dirs@[i]@, command@))
                    &&& forall|j: int|
                        0 <= j < i ==> !#[trigger] fs.has_file(join_seq(dirs@[j]@, command@))
                    &&& p@ == join_seq(dirs@[i]@, command@)
                },
            None => forall|i: int|
                0 <= i < dirs@.len() ==> !#[trigger] fs.has_file(join_seq(dirs@[i]@, command@)),
        },
{
    let n: usize = dirs.len();
    let mut i: usize = 0;
    while i < n
        invariant
            n == dirs@.len(),
            i <= n,
            forall|j: int| 0 <= j < i ==> !#[trigger] fs.has_file(join_seq(dirs@[j]@, command@)),
        decreases n - i,
    {
        let p: String = path_join(dirs[i].as_str(), command);
        if fs.is_file(p.as_str()) {
            return Some(p);
        }
        i = i + 1;
    }
    None
}

/// Finds the first hit for `command` on the system search path (the process
/// search path, then the supplemental directories), returning the full path.
pub(crate) fn search_path_lookup(fs: &FsSnapshot, command: &str) -> (r: Option<String>)
    ensures
        match r {
            Some(p) => {
                &&& system_resolves(*fs, command@)
                &&& exists|i: int|
                    #[trigger] first_system_hit(*fs, command@, i) && p@ == system_probe_path(
                        *fs,
                        command@,
                        i,
                    )
            },
            None => !system_resolves(*fs, command@),
        },
{
    let first = find_command_in_dirs(fs, &fs.path_dirs, command);
    let found: Option<String> = match first {
        Some(p) => Some(p),
        None => find_command_in_dirs(fs, &fs.extra_path_dirs, command),
    };
        proof {
            assert forall|i: int| 0 <= i < fs.search_dirs().len() implies #[trigger] fs.search_dirs()[i]
                == if i < fs.path_dirs@.len() {
                fs.path_dirs@[i]
            } else {
                fs.extra_path_dirs@[i - fs.path_dirs@.len()]
            } by {}
        }
        match found {
            Some(p) => {
                proof {
                    let n = fs.path_dirs@.len() as int;
                    if exists|i: int|
                        {
                            &&& 0 <= i < fs.path_dirs@.len()
                            &&& #[trigger] fs.has_file(join_seq(fs.path_dirs@[i]@, command@))
                            &&& forall|j: int|
                                0 <= j < i ==> !#[trigger] fs.has_file(
                                    join_seq(fs.path_dirs@[j]@, command@),
                                )
                            &&& p@ == join_seq(fs.path_dirs@[i]@, command@)
                        } {
                        let i = choose|i: int|
                            {
                                &&& 0 <= i < fs.path_dirs@.len()
                                &&& #[trigger] fs.has_file(join_seq(fs.path_dirs@[i]@, command@))
                                &&& forall|j: int|
                                    0 <= j < i ==> !#[trigger] fs.has_file(
                                        join_seq(fs.path_dirs@[j]@, command@),
                                    )
                                &&& p@ == join_seq(fs.path_dirs@[i]@, command@)
                            };
                        assert(system_hit(*fs, command@, i));
                        assert(first_system_hit(*fs, command@, i));
                    } else {
                        let i = choose|i: int|
                            {
                                &&& 0 <= i < fs.extra_path_dirs@.len()
                                &&& #[trigger] fs.has_file(
                                    join_seq(fs.extra_path_dirs@[i]@, command@),
                                )
                                &&& forall|j: int|
                                    0 <= j < i ==> !#[trigger] fs.has_file(
                                        join_seq(fs.extra_path_dirs@[j]@, command@),
                                    )
                                &&& p@ == join_seq(fs.extra_path_dirs@[i]@, command@)
                            };
                        assert(system_hit(*fs, command@, i + n));
                        assert forall|j: int| 0 <= j < i + n implies !#[trigger] system_hit(
                            *fs,
                            command@,
                            j,
                        ) by {
                            if j < n {
                                assert(!fs.has_file(join_seq(fs.path_dirs@[j]@, command@)));
                            } else {
                                assert(!fs.has_file(
                                    join_seq(fs.extra_path_dirs@[j - n]@, command@),
                                ));
                            }
                        }
                        assert(first_system_hit(*fs, command@, i + n));
                    }
                }
                Some(p)
            },
            None => {
                proof {
                    let n = fs.path_dirs@.len() as int;
                    assert forall|i: int|
                        0 <= i < fs.search_dirs().len() implies !#[trigger] system_hit(
                        *fs,
                        command@,
                        i,
                    ) by {
                        if i < n {
                            assert(!fs.has_file(join_seq(fs.path_dirs@[i]@, command@)));
                        } else {
                            assert(!fs.has_file(join_seq(fs.extra_path_dirs@[i - n]@, command@)));
                        }
                    }
                }
                None
            },
        }
}

impl RuntimeManager {
    /// A manager that resolves managed commands under `runtime_root`.
    pub fn new(runtime_root: String) -> (r: Self)
        ensures
            r.runtime_root == runtime_root,
    {
        RuntimeManager { runtime_root }
    }

    /// A manager over an explicit runtime root.
    pub fn with_runtime_root(runtime_root: String) -> (r: Self)
        ensures
            r.runtime_root == runtime_root,
    {
        RuntimeManager { runtime_root }
    }

    /// The managed runtime root.
    pub fn runtime_root(&self) -> (r: &String)
        ensures
            r == &self.runtime_root,
    {
        &self.runtime_root
    }

    /// The managed runtime root as an owned string.
    pub fn runtime_root_display(&self) -> (r: String)
        ensures
            r@ == self.runtime_root@,
    {
        self.runtime_root.clone()
    }

    /// Resolves an explicit path command: accepted exactly when the file
    /// exists.
    fn resolve_explicit_path_command(&self, fs: &FsSnapshot, command: &str) -> (r: Option<
        ResolvedCommand,
    >)
        ensures
            match r {
                Some(rc) => {
                    &&& fs.has_file(command@)
                    &&& rc.command@ == command@
                    &&& rc.source is System
                    &&& rc.resolved_path matches Some(p) && p@ == command@
                },
                None => !fs.has_file(command@),
            },
    {
        if fs.is_file(command) {
            Some(ResolvedCommand {
                command: command.to_owned(),
                source: RuntimeSource::System,
                resolved_path: Some(command.to_owned()),
            })
        } else {
            None
        }
    }

    /// Resolves a bare command on the system search path, supplemental
    /// directories included.
    fn resolve_system_command(&self, fs: &FsSnapshot, command: &str) -> (r: Option<ResolvedCommand>)
        ensures
            match r {
                Some(rc) => {
                    &&& system_resolves(*fs, command@)
                    &&& exists|i: int|
                        #[trigger] first_system_hit(*fs, command@, i) && rc.command@
                            == system_probe_path(*fs, command@, i) && (rc.resolved_path matches Some(
                            p,
                        ) && p@ == system_probe_path(*fs, command@, i))
                    &&& rc.source is System
                },
                None => !system_resolves(*fs, command@),
            },
    {
        match search_path_lookup(fs, command) {
            Some(p) => {
                let rp: String = p.clone();
                Some(ResolvedCommand {
                    command: p,
                    source: RuntimeSource::System,
                    resolved_path: Some(rp),
                })
            },
            None => None,
        }
    }

    /// Finds the first existing managed candidate for `command`, returning
    /// its full path.
    pub fn find_managed_command_path(&self, fs: &FsSnapshot, command: &str) -> (r: Option<String>)
        ensures
            match r {
                Some(p) => {
                    &&& managed_resolves(*fs, self.runtime_root@, command@)
                    &&& exists|i: int|
                        #[trigger] first_managed_hit(*fs, self.runtime_root@, command@, i) && p@
                            == managed_probe_path(self.runtime_root@, command@, i)
                },
                None => !managed_resolves(*fs, self.runtime_root@, command@),
            },
    {
        let normalized: String = normalize_command_alias(command);
        let spec_opt = managed_command_spec(normalized.as_str());
        match spec_opt {
            None => None,
            Some(mspec) => {
                let component_root: String = path_join(
                    path_join(self.runtime_root.as_str(), mspec.component.as_str()).as_str(),
                    "current",
                );
                let n: usize = mspec.candidates.len();
                let mut i: usize = 0;
                while i < n
                    invariant
                        n == mspec.candidates@.len(),
                        i <= n,
                        component_root@ == component_current(self.runtime_root@, mspec.component@),
                        managed_component(normalized_command(command@)) == Some(mspec.component@),
                        mspec.candidates@.len() == managed_candidates(
                            normalized_command(command@),
                        ).len(),
                        forall|k: int|
                            0 <= k < mspec.candidates@.len() ==> #[trigger] mspec.candidates@[k]@
                                == managed_candidates(normalized_command(command@))[k],
                        forall|j: int|
                            0 <= j < i ==> !#[trigger] managed_hit(
                                *fs,
                                self.runtime_root@,
                                command@,
                                j,
                            ),
                    decreases n - i,
                {
                    let candidate: String = path_join(
                        component_root.as_str(),
                        mspec.candidates[i].as_str(),
                    );
                    assert(candidate@ == managed_probe_path(self.runtime_root@, command@, i as int));
                    if fs.is_file(candidate.as_str()) {
                        assert(managed_hit(*fs, self.runtime_root@, command@, i as int));
                        assert(first_managed_hit(*fs, self.runtime_root@, command@, i as int));
                        return Some(candidate);
                    }
                    i = i + 1;
                }
                None
            },
        }
    }

    /// Resolves a managed command into a `ResolvedCommand`.
    fn resolve_managed_command(&self, fs: &FsSnapshot, command: &str) -> (r: Option<
        ResolvedCommand,
    >)
        ensures
            match r {
                Some(rc) => {
                    &&& managed_resolves(*fs, self.runtime_root@, command@)
                    &&& rc.source is Managed
                    &&& exists|i: int|
                        #[trigger] first_managed_hit(*fs, self.runtime_root@, command@, i)
                            && rc.command@ == managed_probe_path(self.runtime_root@, command@, i)
                            && (rc.resolved_path matches Some(p) && p@ == managed_probe_path(
                            self.runtime_root@,
                            command@,
                            i,
                        ))
                },
                None => !managed_resolves(*fs, self.runtime_root@, command@),
            },
    {
        match self.find_managed_command_path(fs, command) {
            None => None,
            Some(p) => {
                let rp: String = p.clone();
                Some(ResolvedCommand {
                    command: p,
                    source: RuntimeSource::Managed,
                    resolved_path: Some(rp),
                })
            },
        }
    }

    /// Resolves a command, preferring an explicit path, then the system
    /// search path, then the managed runtime bundle.
    ///
    /// An explicit path is never looked up elsewhere, and the managed bundle
    /// is consulted only when system lookup fails.
    pub fn resolve_command(&self, fs: &FsSnapshot, command: &str) -> (r: Option<ResolvedCommand>)
        ensures
            r is Some <==> resolvable(*fs, self.runtime_root@, command@),
            r matches Some(rc) ==> resolution_ok(*fs, self.runtime_root@, command@, rc),
    {
        if is_path_like_command(command) {
            return self.resolve_explicit_path_command(fs, command);
        }
        match self.resolve_system_command(fs, command) {
            Some(rc) => Some(rc),
            None => self.resolve_managed_command(fs, command),
        }
    }
}


/// Every command in the well-known snapshot set, in order.
pub open spec fn default_runtime_commands() -> Seq<Seq<char>> {
    seq!["node"@, "npm"@, "npx"@, "python"@, "python3"@, "pandoc"@, "soffice"@, "pdftoppm"@]
}

/// The managed bundle components, in the order their PATH entries are
/// collected.
pub open spec fn managed_component_names() -> Seq<Seq<char>> {
    seq!["node"@, "python"@, "pandoc"@, "office"@, "poppler"@]
}

/// The relative PATH entries contributed by one managed component; an empty
/// entry stands for the component's `current` directory itself.
pub open spec fn component_rels(comp: Seq<char>) -> Seq<Seq<char>> {
    if comp == "node"@ {
        seq![Seq::empty(), "bin"@]
    } else if comp == "python"@ {
        seq![Seq::empty(), "bin"@, "Scripts"@]
    } else if comp == "pandoc"@ {
        seq![Seq::empty(), "bin"@]
    } else if comp == "office"@ {
        seq![Seq::empty(), "program"@, "bin"@]
    } else if comp == "poppler"@ {
        seq![Seq::empty(), "bin"@, "Library/bin"@]
    } else {
        seq![Seq::<char>::empty()]
    }
}

/// The directory a relative PATH entry points at under a component root.
pub open spec fn entry_path(croot: Seq<char>, rel: Seq<char>) -> Seq<char> {
    if rel.len() == 0 {
        croot
    } else {
        join_seq(croot, rel)
    }
}

/// The PATH entry candidates of one component, as full paths.
pub open spec fn comp_entry_paths(root: Seq<char>, comp: Seq<char>) -> Seq<Seq<char>> {
    component_rels(comp).map_values(|rel: Seq<char>| entry_path(component_current(root, comp), rel))
}

/// All PATH entry candidates of the managed bundle, in component order,
/// restricted to components whose `current` directory exists.
pub open spec fn managed_raw_entries(
    fs: FsSnapshot,
    root: Seq<char>,
    comps: Seq<Seq<char>>,
) -> Seq<Seq<char>>
    decreases comps.len(),
{
    if comps.len() == 0 {
        Seq::empty()
    } else {
        (if fs.has_dir(component_current(root, comps[0])) {
            comp_entry_paths(root, comps[0])
        } else {
            Seq::empty()
        }) + managed_raw_entries(fs, root, comps.drop_first())
    }
}

/// The relative PATH entries of a managed component.
pub fn managed_component_path_entries(component: &str) -> (r: Vec<String>)
    ensures
        r@.len() == component_rels(component@).len(),
        forall|k: int| 0 <= k < r@.len() ==> #[trigger] r@[k]@ == component_rels(component@)[k],
{
    proof {
        reveal_strlit("");
        assert(""@ =~= Seq::<char>::empty());
    }
    if str_eq(component, "node") {
        vec!["".to_owned(), "bin".to_owned()]
    } else if str_eq(component, "python") {
        vec!["".to_owned(), "bin".to_owned(), "Scripts".to_owned()]
    } else if str_eq(component, "pandoc") {
        vec!["".to_owned(), "bin".to_owned()]
    } else if str_eq(component, "office") {
        vec!["".to_owned(), "program".to_owned(), "bin".to_owned()]
    } else if str_eq(component, "poppler") {
        vec!["".to_owned(), "bin".to_owned(), "Library/bin".to_owned()]
    } else {
        vec!["".to_owned()]
    }
}

/// Walks `paths` in order, keeping each non-empty entry the first time it
/// occurs, with `acc` as what was already kept.
pub open spec fn merge_from(paths: Seq<Seq<char>>, acc: Seq<Seq<char>>) -> Seq<Seq<char>>
    decreases paths.len(),
{
    if paths.len() == 0 {
        acc
    } else {
        merge_from(
            paths.drop_first(),
            if paths[0].len() > 0 && !acc.contains(paths[0]) {
                acc.push(paths[0])
            } else {
                acc
            },
        )
    }
}

/// `r` holds exactly what `acc` held plus the non-empty entries of `paths`.
pub open spec fn merge_keeps_exactly(
    paths: Seq<Seq<char>>,
    acc: Seq<Seq<char>>,
    r: Seq<Seq<char>>,
) -> bool {
    forall|p: Seq<char>|
        #![trigger r.contains(p)]
        #![trigger paths.contains(p)]
        r.contains(p) <==> acc.contains(p) || (paths.contains(p) && p.len() > 0)
}

/// The merged search path is order-preserving and duplicate-free: the entries
/// already kept (the managed ones) come first and unchanged, the remaining
/// entries follow, each directory appears once, and exactly the non-empty
/// entries of both inputs appear.
pub proof fn lemma_merge_from_shape(paths: Seq<Seq<char>>, acc: Seq<Seq<char>>)
    requires
        nodup_seq(acc),
    ensures
        merge_from(paths, acc).len() >= acc.len(),
        forall|i: int| 0 <= i < acc.len() ==> #[trigger] merge_from(paths, acc)[i] == acc[i],
        nodup_seq(merge_from(paths, acc)),
        merge_keeps_exactly(paths, acc, merge_from(paths, acc)),
    decreases paths.len(),
{
    if paths.len() == 0 {
        assert(merge_from(paths, acc) == acc);
        assert forall|p: Seq<char>|
            #![trigger merge_from(paths, acc).contains(p)]
            #![trigger paths.contains(p)]
            merge_from(paths, acc).contains(p) <==> acc.contains(p) || (paths.contains(p) && p.len()
                > 0) by {
            if paths.contains(p) {
                let i = choose|i: int| 0 <= i < paths.len() && paths[i] == p;
                assert(false);
            }
        }
    } else {
        let head = paths[0];
        let pd = paths.drop_first();
        let acc2 = if head.len() > 0 && !acc.contains(head) {
            acc.push(head)
        } else {
            acc
        };
        assert(merge_from(paths, acc) == merge_from(pd, acc2));
        assert(nodup_seq(acc2)) by {
            if head.len() > 0 && !acc.contains(head) {
                assert forall|i: int, j: int| 0 <= i < j < acc2.len() implies acc2[i] != acc2[j] by {
                    if j == acc.len() {
                        assert(acc2[i] == acc[i]);
                        assert(acc.contains(acc[i]));
                    }
                }
            }
        }
        lemma_merge_from_shape(pd, acc2);
        assert forall|p: Seq<char>|
            #![trigger merge_from(paths, acc).contains(p)]
            #![trigger paths.contains(p)]
            merge_from(paths, acc).contains(p) <==> acc.contains(p) || (paths.contains(p) && p.len()
                > 0) by {
            assert(merge_from(pd, acc2).contains(p) <==> acc2.contains(p) || (pd.contains(p)
                && p.len() > 0));
            if acc2.contains(p) && !acc.contains(p) {
                let i = choose|i: int| 0 <= i < acc2.len() && acc2[i] == p;
                assert(p == head);
                assert(paths.contains(p));
            }
            if paths.contains(p) && p.len() > 0 {
                let i = choose|i: int| 0 <= i < paths.len() && paths[i] == p;
                if i == 0 {
                    if !acc.contains(p) {
                        assert(acc2.contains(p)) by {
                            assert(acc2[acc.len() as int] == p);
                        }
                    }
                } else {
                    assert(pd[i - 1] == p);
                    assert(pd.contains(p));
                }
            }
            if acc.contains(p) {
                let i = choose|i: int| 0 <= i < acc.len() && acc[i] == p;
                assert(acc2[i] == p);
                assert(acc2.contains(p));
            }
            if pd.contains(p) {
                let i = choose|i: int| 0 <= i < pd.len() && pd[i] == p;
                assert(paths[i + 1] == p);
                assert(paths.contains(p));
            }
        }
    }
}

/// Semantic correctness of one availability snapshot entry against the
/// snapshot of the machine: availability, source and resolved path all agree
/// with what `resolve_command` would find for `cap.command`.
pub open spec fn capability_ok(fs: FsSnapshot, root: Seq<char>, cap: RuntimeCommandCapability) -> bool {
    let cmd = cap.command@;
    &&& cap.available == resolvable(fs, root, cmd)
    &&& (resolvable(fs, root, cmd) ==> cap.source == Some(resolved_source(fs, root, cmd)))
    &&& (!resolvable(fs, root, cmd) ==> cap.source is None && cap.resolved_path is None)
    &&& (path_like(cmd) && fs.has_file(cmd) ==> (cap.resolved_path matches Some(p) && p@ == cmd))
    &&& (!path_like(cmd) && system_resolves(fs, cmd) ==> (cap.resolved_path matches Some(p)
        && exists|i: int|
        #[trigger] first_system_hit(fs, cmd, i) && p@ == system_probe_path(fs, cmd, i)))
    &&& (!path_like(cmd) && !system_resolves(fs, cmd) && managed_resolves(fs, root, cmd) ==> (
    cap.resolved_path matches Some(p) && exists|i: int|
        #[trigger] first_managed_hit(fs, root, cmd, i) && p@ == managed_probe_path(root, cmd, i)))
}

impl RuntimeManager {
    /// Availability snapshot for one command.
    pub fn get_command_capability(&self, fs: &FsSnapshot, command: &str) -> (r:
        RuntimeCommandCapability)
        ensures
            r.command@ == command@,
            capability_ok(*fs, self.runtime_root@, r),
    {
        match self.resolve_command(fs, command) {
            Some(resolved) => RuntimeCommandCapability {
                command: command.to_owned(),
                available: true,
                source: Some(resolved.source),
                resolved_path: resolved.resolved_path,
            },
            None => RuntimeCommandCapability {
                command: command.to_owned(),
                available: false,
                source: None,
                resolved_path: None,
            },
        }
    }

    /// Availability snapshots for several commands, in order.
    pub fn get_capabilities_for_commands(&self, fs: &FsSnapshot, commands: &Vec<String>) -> (r: Vec<
        RuntimeCommandCapability,
    >)
        ensures
            r@.len() == commands@.len(),
            forall|k: int|
                0 <= k < r@.len() ==> (#[trigger] r@[k]).command@ == commands@[k]@ && capability_ok(
                    *fs,
                    self.runtime_root@,
                    r@[k],
                ),
    {
        let n: usize = commands.len();
        let mut out: Vec<RuntimeCommandCapability> = Vec::new();
        let mut i: usize = 0;
        while i < n
            invariant
                n == commands@.len(),
                i <= n,
                out@.len() == i,
                forall|k: int|
                    0 <= k < i ==> (#[trigger] out@[k]).command@ == commands@[k]@ && capability_ok(
                        *fs,
                        self.runtime_root@,
                        out@[k],
                    ),
            decreases n - i,
        {
            let cap = self.get_command_capability(fs, commands[i].as_str());
            out.push(cap);
            i = i + 1;
        }
        out
    }

    /// The availability snapshot for the fixed set of well-known commands.
    pub fn get_capabilities(&self, fs: &FsSnapshot) -> (r: Vec<RuntimeCommandCapability>)
        ensures
            r@.len() == default_runtime_commands().len(),
            forall|k: int|
                0 <= k < r@.len() ==> (#[trigger] r@[k]).command@ == default_runtime_commands()[k]
                    && capability_ok(*fs, self.runtime_root@, r@[k]),
    {
        let commands: Vec<String> = vec![
            "node".to_owned(),
            "npm".to_owned(),
            "npx".to_owned(),
            "python".to_owned(),
            "python3".to_owned(),
            "pandoc".to_owned(),
            "soffice".to_owned(),
            "pdftoppm".to_owned(),
        ];
        let r = self.get_capabilities_for_commands(fs, &commands);
        proof {
            assert forall|k: int| 0 <= k < r@.len() implies (#[trigger] r@[k]).command@
                == default_runtime_commands()[k] by {
                assert(r@[k].command@ == commands@[k]@);
            }
        }
        r
    }

    /// The deduplicated managed PATH entries for this runtime root under a
    /// snapshot.
    pub open spec fn managed_entries_spec(self, fs: FsSnapshot) -> Seq<Seq<char>> {
        crate::system::dedup_dirs_from(
            fs,
            managed_raw_entries(fs, self.runtime_root@, managed_component_names()),
            Seq::empty(),
        )
    }

    /// Managed runtime PATH entries to be prepended to the process search
    /// path: each component's existing entry directories, deduplicated, in
    /// component order.
    pub fn managed_path_entries(&self, fs: &FsSnapshot) -> (r: Vec<String>)
        ensures
            views_of(r@) == self.managed_entries_spec(*fs),
    {
        let ghost comps = managed_component_names();
        let components: Vec<String> = vec![
            "node".to_owned(),
            "python".to_owned(),
            "pandoc".to_owned(),
            "office".to_owned(),
            "poppler".to_owned(),
        ];
        proof {
            assert(views_of(components@) =~= comps);
        }
        let mut raw: Vec<String> = Vec::new();
        let nc: usize = components.len();
        let mut i: usize = 0;
        proof {
            assert(comps.skip(0) =~= comps);
            assert(views_of(raw@) =~= Seq::<Seq<char>>::empty());
        }
        while i < nc
            invariant
                nc == components@.len(),
                i <= nc,
                views_of(components@) == comps,
                comps.len() == nc,
                managed_raw_entries(*fs, self.runtime_root@, comps) == views_of(raw@)
                    + managed_raw_entries(*fs, self.runtime_root@, comps.skip(i as int)),
            decreases nc - i,
        {
            let ghost rest = comps.skip(i as int);
            proof {
                assert(rest.len() > 0);
                assert(rest[0] == comps[i as int]);
                assert(rest[0] == components@[i as int]@);
                assert(rest.drop_first() =~= comps.skip(i + 1));
            }
            let component: &String = &components[i];
            let component_root: String = path_join(
                path_join(self.runtime_root.as_str(), component.as_str()).as_str(),
                "current",
            );
            let ghost croot = component_current(self.runtime_root@, comps[i as int]);
            assert(component_root@ == croot);
            let ghost before = views_of(raw@);
            if fs.is_dir(component_root.as_str()) {
                let rels: Vec<String> = managed_component_path_entries(component.as_str());
                let ghost rel_views = component_rels(comps[i as int]);
                let nr: usize = rels.len();
                let mut k: usize = 0;
                while k < nr
                    invariant
                        nr == rels@.len(),
                        k <= nr,
                        rel_views.len() == nr,
                        forall|m: int| 0 <= m < nr ==> #[trigger] rels@[m]@ == rel_views[m],
                        views_of(raw@).len() == before.len() + k,
                        forall|m: int| 0 <= m < before.len() ==> #[trigger] views_of(raw@)[m]
                            == before[m],
                        forall|m: int|
                            before.len() <= m < before.len() + k ==> #[trigger] views_of(raw@)[m]
                                == entry_path(croot, rel_views[m - before.len()]),
                        component_root@ == croot,
                    decreases nr - k,
                {
                    let rel: &String = &rels[k];
                    let cand: String = if rel.as_str().unicode_len() == 0 {
                        component_root.clone()
                    } else {
                        path_join(component_root.as_str(), rel.as_str())
                    };
                    assert(cand@ == entry_path(croot, rel_views[k as int]));
                    let ghost prev = views_of(raw@);
                    raw.push(cand);
                    proof {
                        assert(views_of(raw@) =~= prev.push(entry_path(croot, rel_views[k as int])));
                    }
                    k = k + 1;
                }
                proof {
                    assert forall|m: int|
                        0 <= m < views_of(raw@).len() implies #[trigger] views_of(raw@)[m] == (
                    before + comp_entry_paths(self.runtime_root@, comps[i as int]))[m] by {
                        if m >= before.len() {
                            assert(views_of(raw@)[m] == entry_path(
                                croot,
                                rel_views[m - before.len()],
                            ));
                            assert(comp_entry_paths(self.runtime_root@, comps[i as int])[m
                                - before.len()] == entry_path(croot, rel_views[m - before.len()]));
                        }
                    }
                    assert(views_of(raw@) =~= before + comp_entry_paths(
                        self.runtime_root@,
                        comps[i as int],
                    ));
                    assert(managed_raw_entries(*fs, self.runtime_root@, rest) == comp_entry_paths(
                        self.runtime_root@,
                        comps[i as int],
                    ) + managed_raw_entries(*fs, self.runtime_root@, comps.skip(i + 1)));
                    assert(before + (comp_entry_paths(self.runtime_root@, comps[i as int])
                        + managed_raw_entries(*fs, self.runtime_root@, comps.skip(i + 1))) =~= (
                    before + comp_entry_paths(self.runtime_root@, comps[i as int]))
                        + managed_raw_entries(*fs, self.runtime_root@, comps.skip(i + 1)));
                }
            } else {
                proof {
                    assert(managed_raw_entries(*fs, self.runtime_root@, rest)
                        == managed_raw_entries(*fs, self.runtime_root@, comps.skip(i + 1)));
                    assert(Seq::<Seq<char>>::empty() + managed_raw_entries(
                        *fs,
                        self.runtime_root@,
                        comps.skip(i + 1),
                    ) =~= managed_raw_entries(*fs, self.runtime_root@, comps.skip(i + 1)));
                }
            }
            i = i + 1;
        }
        proof {
            assert(comps.skip(nc as int) =~= Seq::<Seq<char>>::empty());
            assert(views_of(raw@) + Seq::<Seq<char>>::empty() =~= views_of(raw@));
        }
        crate::system::dedup_existing_dirs(fs, &raw)
    }

    /// Merges the managed PATH entries with the caller's existing search
    /// path: managed entries first, then the caller's non-empty entries, each
    /// directory once, order preserved.
    pub fn merged_path_entries(&self, fs: &FsSnapshot, existing: &Vec<String>) -> (r: Vec<String>)
        ensures
            views_of(r@) == merge_from(views_of(existing@), self.managed_entries_spec(*fs)),
    {
        let managed = self.managed_path_entries(fs);
        let n: usize = existing.len();
        let mut out: Vec<String> = managed;
        let mut i: usize = 0;
        proof {
            assert(views_of(existing@).skip(0) =~= views_of(existing@));
        }
        while i < n
            invariant
                n == existing@.len(),
                i <= n,
                merge_from(views_of(existing@).skip(i as int), views_of(out@)) == merge_from(
                    views_of(existing@),
                    self.managed_entries_spec(*fs),
                ),
            decreases n - i,
        {
            let ghost rest = views_of(existing@).skip(i as int);
            let ghost acc = views_of(out@);
            proof {
                assert(rest.len() > 0);
                assert(rest[0] == views_of(existing@)[i as int]);
                assert(rest[0] == existing@[i as int]@);
                assert(rest.drop_first() =~= views_of(existing@).skip(i + 1));
            }
            let entry: &String = &existing[i];
            let dup = vec_contains_str(&out, entry.as_str());
            proof {
                crate::text::lemma_views_contains(out@, entry@);
            }
            if entry.as_str().unicode_len() != 0 && !dup {
                out.push(entry.clone());
                proof {
                    assert(views_of(out@) =~= acc.push(entry@));
                }
            }
            i = i + 1;
        }
        proof {
            assert(views_of(existing@).skip(n as int) =~= Seq::<Seq<char>>::empty());
        }
        out
    }
}

} // verus!
