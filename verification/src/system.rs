//! System-command utilities: search-path detection and the PATH hygiene
//! helpers shared with the resolver.
//!
//! Running a command is I/O and happens outside the crate; what lives here is
//! the decision logic — which command exists where, and how candidate
//! directory lists are filtered and deduplicated.

use vstd::prelude::*;
use crate::fsmodel::FsSnapshot;
use crate::runtime::{first_system_hit, search_path_lookup, system_probe_path, system_resolves};
use crate::text::{has_prefix, join_seq, nodup_seq, vec_contains_str, views_of};

verus! {

/// Result of probing one command on the system search path.
#[derive(Debug, Clone)]
pub struct CheckCommandResult {
    /// Whether the command exists.
    pub exists: bool,
    /// Full path to the command, when it exists.
    pub path: Option<String>,
}

/// Captured output of a finished command.
#[derive(Debug, Clone)]
pub struct CommandOutput {
    /// Exit code, `-1` when the process was killed by a signal.
    pub exit_code: i32,
    /// Captured standard output.
    pub stdout: String,
    /// Captured standard error.
    pub stderr: String,
    /// Whether the command exited with code zero.
    pub success: bool,
}

/// Failure running or locating a system command.
#[derive(Debug, Clone)]
pub enum SystemError {
    /// The process could not be executed.
    ExecutionFailed(String),
    /// An I/O error occurred while talking to the process.
    IoError(String),
    /// The command was not found.
    CommandNotFound(String),
}

impl SystemError {
    /// A human-readable description of the failure.
    pub fn message(&self) -> (r: String)
        ensures
            match self {
                SystemError::ExecutionFailed(m) => r@ == "Command execution failed: "@ + m@,
                SystemError::IoError(m) => r@ == "IO error: "@ + m@,
                SystemError::CommandNotFound(m) => r@ == "Command not found: "@ + m@,
            },
    {
        match self {
            SystemError::ExecutionFailed(m) => String::from_str("Command execution failed: ")
                .concat(m.as_str()),
            SystemError::IoError(m) => String::from_str("IO error: ").concat(m.as_str()),
            SystemError::CommandNotFound(m) => String::from_str("Command not found: ").concat(
                m.as_str(),
            ),
        }
    }
}

/// Walks `paths` in order, keeping each existing directory the first time it
/// occurs, with `acc` as what was already kept.
pub open spec fn dedup_dirs_from(
    fs: FsSnapshot,
    paths: Seq<Seq<char>>,
    acc: Seq<Seq<char>>,
) -> Seq<Seq<char>>
    decreases paths.len(),
{
    if paths.len() == 0 {
        acc
    } else {
        dedup_dirs_from(
            fs,
            paths.drop_first(),
            if fs.has_dir(paths[0]) && !acc.contains(paths[0]) {
                acc.push(paths[0])
            } else {
                acc
            },
        )
    }
}

/// `r` holds exactly what `acc` held plus the existing directories of
/// `paths`.
pub open spec fn keeps_exactly(
    fs: FsSnapshot,
    paths: Seq<Seq<char>>,
    acc: Seq<Seq<char>>,
    r: Seq<Seq<char>>,
) -> bool {
    forall|p: Seq<char>|
        #![trigger r.contains(p)]
        #![trigger paths.contains(p)]
        r.contains(p) <==> acc.contains(p) || (paths.contains(p) && fs.has_dir(p))
}

/// The shape of a deduplicated directory list: what was already kept stays
/// first and unchanged, nothing occurs twice, everything kept is an existing
/// directory, and exactly the existing directories of the input are kept.
pub proof fn lemma_dedup_dirs_shape(fs: FsSnapshot, paths: Seq<Seq<char>>, acc: Seq<Seq<char>>)
    requires
        nodup_seq(acc),
        forall|i: int| 0 <= i < acc.len() ==> fs.has_dir(#[trigger] acc[i]),
    ensures
        dedup_dirs_from(fs, paths, acc).len() >= acc.len(),
        forall|i: int| 0 <= i < acc.len() ==> #[trigger] dedup_dirs_from(fs, paths, acc)[i]
            == acc[i],
        nodup_seq(dedup_dirs_from(fs, paths, acc)),
        forall|i: int|
            0 <= i < dedup_dirs_from(fs, paths, acc).len() ==> fs.has_dir(
                #[trigger] dedup_dirs_from(fs, paths, acc)[i],
            ),
        keeps_exactly(fs, paths, acc, dedup_dirs_from(fs, paths, acc)),
    decreases paths.len(),
{
    if paths.len() == 0 {
        assert(dedup_dirs_from(fs, paths, acc) == acc);
        assert forall|p: Seq<char>|
            #![trigger dedup_dirs_from(fs, paths, acc).contains(p)]
            #![trigger paths.contains(p)]
            dedup_dirs_from(fs, paths, acc).contains(p) <==> acc.contains(p) || (paths.contains(p)
                && fs.has_dir(p)) by {
            if paths.contains(p) {
                let i = choose|i: int| 0 <= i < paths.len() && paths[i] == p;
                assert(false);
            }
        }
    } else {
        let head = paths[0];
        let pd = paths.drop_first();
        let acc2 = if fs.has_dir(head) && !acc.contains(head) {
            acc.push(head)
        } else {
            acc
        };
        assert(dedup_dirs_from(fs, paths, acc) == dedup_dirs_from(fs, pd, acc2));
        assert forall|i: int| 0 <= i < acc2.len() implies fs.has_dir(#[trigger] acc2[i]) by {
            if i < acc.len() {
                assert(acc2[i] == acc[i]);
            }
        }
        assert(nodup_seq(acc2)) by {
            if fs.has_dir(head) && !acc.contains(head) {
                assert forall|i: int, j: int| 0 <= i < j < acc2.len() implies acc2[i] != acc2[j] by {
                    if j == acc.len() {
                        assert(acc2[i] == acc[i]);
                        assert(acc.contains(acc[i]));
                    }
                }
            }
        }
        lemma_dedup_dirs_shape(fs, pd, acc2);
        assert forall|p: Seq<char>|
            #![trigger dedup_dirs_from(fs, paths, acc).contains(p)]
            #![trigger paths.contains(p)]
            dedup_dirs_from(fs, paths, acc).contains(p) <==> acc.contains(p) || (paths.contains(p)
                && fs.has_dir(p)) by {
            // Fire the recursive membership fact at `p`.
            assert(dedup_dirs_from(fs, pd, acc2).contains(p) <==> acc2.contains(p) || (pd.contains(
                p,
            ) && fs.has_dir(p)));
            if acc2.contains(p) && !acc.contains(p) {
                let i = choose|i: int| 0 <= i < acc2.len() && acc2[i] == p;
                assert(p == head);
                assert(paths.contains(p));
            }
            if paths.contains(p) && fs.has_dir(p) {
                let i = choose|i: int| 0 <= i < paths.len() && paths[i] == p;
                if i == 0 {
                    if !acc.contains(p) {
                        assert(acc2.contains(p)) by {
                            assert(acc2[acc.len() as int] == p);
                        }
                    }
                } else {
                    assert(pd[i - 1] == p);
                    assert(pd.contains(p));
                }
            }
            if acc.contains(p) {
                let i = choose|i: int| 0 <= i < acc.len() && acc[i] == p;
                assert(acc2[i] == p);
                assert(acc2.contains(p));
            }
            if pd.contains(p) {
                let i = choose|i: int| 0 <= i < pd.len() && pd[i] == p;
                assert(paths[i + 1] == p);
                assert(paths.contains(p));
            }
        }
    }
}

/// Keeps each existing directory of `paths` once, in first-occurrence order.
pub fn dedup_existing_dirs(fs: &FsSnapshot, paths: &Vec<String>) -> (r: Vec<String>)
    ensures
        views_of(r@) == dedup_dirs_from(*fs, views_of(paths@), Seq::empty()),
{
    let n: usize = paths.len();
    let mut out: Vec<String> = Vec::new();
    proof {
        assert(views_of(out@) =~= Seq::empty());
        assert(views_of(paths@).skip(0) =~= views_of(paths@));
    }
    let mut i: usize = 0;
    while i < n
        invariant
            n == paths@.len(),
            i <= n,
            views_of(paths@).len() == n,
            dedup_dirs_from(*fs, views_of(paths@).skip(i as int), views_of(out@))
                == dedup_dirs_from(*fs, views_of(paths@), Seq::empty()),
        decreases n - i,
    {
        let ghost rest = views_of(paths@).skip(i as int);
        let ghost acc = views_of(out@);
        proof {
            assert(rest.len() > 0);
            assert(rest[0] == views_of(paths@)[i as int]);
            assert(rest[0] == paths@[i as int]@);
            assert(rest.drop_first() =~= views_of(paths@).skip(i + 1));
        }
        let p: &String = &paths[i];
        let dup = vec_contains_str(&out, p.as_str());
        proof {
            crate::text::lemma_views_contains(out@, p@);
        }
        if fs.is_dir(p.as_str()) && !dup {
            out.push(p.clone());
            proof {
                assert(views_of(out@) =~= acc.push(p@));
            }
        }
        i = i + 1;
    }
    proof {
        assert(views_of(paths@).skip(n as int) =~= Seq::<Seq<char>>::empty());
    }
    out
}

/// The fixed supplemental directories probed for GUI-launched processes:
/// common package-manager install locations.
pub open spec fn platform_candidate_dirs() -> Seq<Seq<char>> {
    seq![
        "/opt/homebrew/bin"@,
        "/opt/homebrew/sbin"@,
        "/usr/local/bin"@,
        "/usr/local/sbin"@,
        "/opt/local/bin"@,
        "/opt/local/sbin"@,
    ]
}

/// Supplemental search-path entries: the fixed package-manager directories,
/// then whatever the platform probe discovered (a login-shell-derived path),
/// restricted to existing directories and deduplicated.
pub fn platform_path_entries(fs: &FsSnapshot, discovered: &Vec<String>) -> (r: Vec<String>)
    ensures
        views_of(r@) == dedup_dirs_from(
            *fs,
            platform_candidate_dirs() + views_of(discovered@),
            Seq::empty(),
        ),
{
    let mut raw: Vec<String> = vec![
        "/opt/homebrew/bin".to_owned(),
        "/opt/homebrew/sbin".to_owned(),
        "/usr/local/bin".to_owned(),
        "/usr/local/sbin".to_owned(),
        "/opt/local/bin".to_owned(),
        "/opt/local/sbin".to_owned(),
    ];
    let n: usize = discovered.len();
    let mut i: usize = 0;
    while i < n
        invariant
            n == discovered@.len(),
            i <= n,
            raw@.len() == 6 + i,
            forall|j: int| 0 <= j < 6 ==> #[trigger] raw@[j]@ == platform_candidate_dirs()[j],
            forall|j: int| 0 <= j < i ==> raw@[6 + j]@ == #[trigger] discovered@[j]@,
        decreases n - i,
    {
        raw.push(discovered[i].clone());
        i = i + 1;
    }
    proof {
        assert forall|k: int|
            0 <= k < raw@.len() implies #[trigger] views_of(raw@)[k] == (platform_candidate_dirs()
            + views_of(discovered@))[k] by {
            if k < 6 {
                assert(raw@[k]@ == platform_candidate_dirs()[k]);
            } else {
                assert(raw@[6 + (k - 6)]@ == discovered@[k - 6]@);
            }
        }
        assert(views_of(raw@) =~= platform_candidate_dirs() + views_of(discovered@));
    }
    dedup_existing_dirs(fs, &raw)
}

/// Probes one command on the system search path.
pub fn check_command(fs: &FsSnapshot, cmd: &str) -> (r: CheckCommandResult)
    ensures
        r.exists == system_resolves(*fs, cmd@),
        r.exists ==> (r.path matches Some(p) && exists|i: int|
            #[trigger] first_system_hit(*fs, cmd@, i) && p@ == system_probe_path(*fs, cmd@, i)),
        !r.exists ==> r.path is None,
{
    match search_path_lookup(fs, cmd) {
        Some(p) => CheckCommandResult { exists: true, path: Some(p) },
        None => CheckCommandResult { exists: false, path: None },
    }
}

/// Probes several commands in order: each element carries the probed name
/// and the same existence and first-hit path that `check_command` reports
/// for it.
pub fn check_commands(fs: &FsSnapshot, commands: &Vec<String>) -> (r: Vec<
    (String, CheckCommandResult),
>)
    ensures
        r@.len() == commands@.len(),
        forall|k: int|
            0 <= k < r@.len() ==> {
                &&& (#[trigger] r@[k]).0@ == commands@[k]@
                &&& r@[k].1.exists == system_resolves(*fs, commands@[k]@)
                &&& (r@[k].1.exists ==> (r@[k].1.path matches Some(p) && exists|i: int|
                    #[trigger] first_system_hit(*fs, commands@[k]@, i) && p@ == system_probe_path(
                        *fs,
                        commands@[k]@,
                        i,
                    )))
                &&& (!r@[k].1.exists ==> r@[k].1.path is None)
            },
{
    let n: usize = commands.len();
    let mut out: Vec<(String, CheckCommandResult)> = Vec::new();
    let mut i: usize = 0;
    while i < n
        invariant
            n == commands@.len(),
            i <= n,
            out@.len() == i,
            forall|k: int|
                0 <= k < i ==> {
                    &&& (#[trigger] out@[k]).0@ == commands@[k]@
                    &&& out@[k].1.exists == system_resolves(*fs, commands@[k]@)
                    &&& (out@[k].1.exists ==> (out@[k].1.path matches Some(p) && exists|j: int|
                        #[trigger] first_system_hit(*fs, commands@[k]@, j) && p@
                            == system_probe_path(*fs, commands@[k]@, j)))
                    &&& (!out@[k].1.exists ==> out@[k].1.path is None)
                },
        decreases n - i,
    {
        let name: String = commands[i].clone();
        let res = check_command(fs, name.as_str());
        out.push((name, res));
        i = i + 1;
    }
    out
}


/// The `bin` directories the node formulas of one package-manager `opt` root
/// contribute: for each listed entry that is an existing directory and whose
/// name starts with `node@`, its `bin` subdirectory.
pub open spec fn node_formula_bins(fs: FsSnapshot, root: Seq<char>, names: Seq<String>) -> Seq<
    Seq<char>,
>
    decreases names.len(),
{
    if names.len() == 0 {
        Seq::empty()
    } else {
        (if has_prefix(names[0]@, "node@"@) && fs.has_dir(join_seq(root, names[0]@)) {
            seq![join_seq(join_seq(root, names[0]@), "bin"@)]
        } else {
            Seq::empty()
        }) + node_formula_bins(fs, root, names.drop_first())
    }
}

/// The candidate node `bin` directories over the given `opt` roots, in
/// order: for each existing root, its fixed `node/bin` entry first, then the
/// versioned formulas' `bin` directories.
pub open spec fn node_opt_bin_candidates(
    fs: FsSnapshot,
    listings: Seq<(String, Vec<String>)>,
) -> Seq<Seq<char>>
    decreases listings.len(),
{
    if listings.len() == 0 {
        Seq::empty()
    } else {
        (if fs.has_dir(listings[0].0@) {
            seq![join_seq(join_seq(listings[0].0@, "node"@), "bin"@)] + node_formula_bins(
                fs,
                listings[0].0@,
                listings[0].1@,
            )
        } else {
            Seq::empty()
        }) + node_opt_bin_candidates(fs, listings.drop_first())
    }
}

/// The node `bin` directories found under the package manager's `opt` roots.
/// Each listing pairs one root with the names read from its directory; for
/// every existing root the fixed `node/bin` entry comes first, then the `bin`
/// directory of each listed `node@` formula, restricted to existing
/// directories and deduplicated.
pub fn homebrew_node_opt_bin_entries(
    fs: &FsSnapshot,
    opt_listings: &Vec<(String, Vec<String>)>,
) -> (r: Vec<String>)
    ensures
        views_of(r@) == dedup_dirs_from(
            *fs,
            node_opt_bin_candidates(*fs, opt_listings@),
            Seq::empty(),
        ),
{
    let mut raw: Vec<String> = Vec::new();
    let n: usize = opt_listings.len();
    let mut i: usize = 0;
    proof {
        assert(opt_listings@.skip(0) =~= opt_listings@);
        assert(views_of(raw@) =~= Seq::<Seq<char>>::empty());
    }
    while i < n
        invariant
            n == opt_listings@.len(),
            i <= n,
            node_opt_bin_candidates(*fs, opt_listings@) == views_of(raw@)
                + node_opt_bin_candidates(*fs, opt_listings@.skip(i as int)),
        decreases n - i,
    {
        let ghost rest = opt_listings@.skip(i as int);
        proof {
            assert(rest[0] == opt_listings@[i as int]);
            assert(rest.drop_first() =~= opt_listings@.skip(i + 1));
        }
        let root: &String = &opt_listings[i].0;
        if fs.is_dir(root.as_str()) {
            let ghost base = views_of(raw@);
            let fixed: String = crate::text::path_join(
                crate::text::path_join(root.as_str(), "node").as_str(),
                "bin",
            );
            raw.push(fixed);
            proof {
                assert(views_of(raw@) =~= base + seq![
                    join_seq(join_seq(root@, "node"@), "bin"@),
                ]);
            }
            let names: &Vec<String> = &opt_listings[i].1;
            let ghost name_views = names@;
            let m: usize = names.len();
            let mut k: usize = 0;
            proof {
                assert(name_views.skip(0) =~= name_views);
            }
            while k < m
                invariant
                    m == name_views.len(),
                    k <= m,
                    names@ == name_views,
                    root@ == opt_listings@[i as int].0@,
                    node_opt_bin_candidates(*fs, opt_listings@) == views_of(raw@)
                        + node_formula_bins(*fs, root@, name_views.skip(k as int))
                        + node_opt_bin_candidates(*fs, opt_listings@.skip(i + 1)),
                decreases m - k,
            {
                let ghost nrest = name_views.skip(k as int);
                proof {
                    assert(nrest[0] == name_views[k as int]);
                    assert(nrest.drop_first() =~= name_views.skip(k + 1));
                }
                let name: &String = &names[k];
                if crate::text::starts_with(name.as_str(), "node@") {
                    let formula: String = crate::text::path_join(root.as_str(), name.as_str());
                    if fs.is_dir(formula.as_str()) {
                        let ghost before = views_of(raw@);
                        raw.push(crate::text::path_join(formula.as_str(), "bin"));
                        proof {
                            assert(views_of(raw@) =~= before + seq![
                                join_seq(join_seq(root@, name@), "bin"@),
                            ]);
                            assert((before + seq![join_seq(join_seq(root@, name@), "bin"@)])
                                + node_formula_bins(*fs, root@, name_views.skip(k + 1))
                                + node_opt_bin_candidates(*fs, opt_listings@.skip(i + 1)) =~= before
                                + (seq![join_seq(join_seq(root@, name@), "bin"@)]
                                + node_formula_bins(*fs, root@, name_views.skip(k + 1)))
                                + node_opt_bin_candidates(*fs, opt_listings@.skip(i + 1)));
                        }
                    } else {
                        proof {
                            assert(Seq::<Seq<char>>::empty() + node_formula_bins(
                                *fs,
                                root@,
                                name_views.skip(k + 1),
                            ) =~= node_formula_bins(*fs, root@, name_views.skip(k + 1)));
                        }
                    }
                } else {
                    proof {
                        assert(Seq::<Seq<char>>::empty() + node_formula_bins(
                            *fs,
                            root@,
                            name_views.skip(k + 1),
                        ) =~= node_formula_bins(*fs, root@, name_views.skip(k + 1)));
                    }
                }
                k = k + 1;
            }
            proof {
                assert(node_formula_bins(*fs, root@, name_views.skip(m as int))
                    =~= Seq::<Seq<char>>::empty());
                assert(views_of(raw@) + Seq::<Seq<char>>::empty() + node_opt_bin_candidates(
                    *fs,
                    opt_listings@.skip(i + 1),
                ) =~= views_of(raw@) + node_opt_bin_candidates(*fs, opt_listings@.skip(i + 1)));
            }
        } else {
            proof {
                assert(Seq::<Seq<char>>::empty() + node_opt_bin_candidates(
                    *fs,
                    opt_listings@.skip(i + 1),
                ) =~= node_opt_bin_candidates(*fs, opt_listings@.skip(i + 1)));
            }
        }
        i = i + 1;
    }
    proof {
        assert(node_opt_bin_candidates(*fs, opt_listings@.skip(n as int))
            =~= Seq::<Seq<char>>::empty());
        assert(views_of(raw@) + Seq::<Seq<char>>::empty() =~= views_of(raw@));
    }
    dedup_existing_dirs(fs, &raw)
}

/// The search-path entries the first usable login-shell report yields: its
/// deduplicated existing-dir list when non-empty, otherwise the next
/// report's; empty when none yields one.
pub open spec fn login_shell_choice(
    fs: FsSnapshot,
    reports: Seq<(String, Option<Vec<String>>)>,
) -> Seq<Seq<char>>
    decreases reports.len(),
{
    if reports.len() == 0 {
        Seq::empty()
    } else {
        match reports[0].1 {
            Some(entries) => {
                let d = dedup_dirs_from(fs, views_of(entries@), Seq::empty());
                if d.len() > 0 {
                    d
                } else {
                    login_shell_choice(fs, reports.drop_first())
                }
            },
            None => login_shell_choice(fs, reports.drop_first()),
        }
    }
}

/// Picks search-path entries from login-shell reports: each report pairs a
/// shell with the PATH entries it printed, when it answered. The result is
/// the deduplicated existing-dir list of the first report that yields a
/// non-empty one, and empty when none does. Which shells are asked, and in
/// what order — the login shell from the environment, then the common
/// defaults, deduplicated — is the caller's choice.
pub fn login_shell_path_entries(
    fs: &FsSnapshot,
    reports: &Vec<(String, Option<Vec<String>>)>,
) -> (r: Vec<String>)
    ensures
        views_of(r@) == login_shell_choice(*fs, reports@),
{
    let n: usize = reports.len();
    let mut i: usize = 0;
    proof {
        assert(reports@.skip(0) =~= reports@);
    }
    while i < n
        invariant
            n == reports@.len(),
            i <= n,
            login_shell_choice(*fs, reports@) == login_shell_choice(
                *fs,
                reports@.skip(i as int),
            ),
        decreases n - i,
    {
        let ghost rest = reports@.skip(i as int);
        proof {
            assert(rest[0] == reports@[i as int]);
            assert(rest.drop_first() =~= reports@.skip(i + 1));
        }
        match &reports[i].1 {
            Some(entries) => {
                let d = dedup_existing_dirs(fs, entries);
                if d.len() > 0 {
                    return d;
                }
            },
            None => {},
        }
        i = i + 1;
    }
    proof {
        assert(login_shell_choice(*fs, reports@.skip(n as int)) =~= Seq::<Seq<char>>::empty());
    }
    Vec::new()
}

} // verus!
