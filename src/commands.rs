use vstd::prelude::*;

verus! {

/// The subcommands of the world tool.
#[derive(Clone, Copy, Debug, PartialEq, Eq, Structural)]
pub enum Commands {
    /// Build the world, generating the artifacts needed for deployment.
    Build,
    /// Run a migration, declaring and deploying contracts to update the world.
    Migrate,
}

impl Commands {
    pub open spec fn name_spec(self) -> Seq<char> {
        match self {
            Commands::Build => "Build"@,
            Commands::Migrate => "Migrate"@,
        }
    }

    /// The subcommand's display name.
    pub fn name(&self) -> (r: String)
        ensures
            r@ == self.name_spec(),
    {
        match self {
            Commands::Build => "Build".to_string(),
            Commands::Migrate => "Migrate".to_string(),
        }
    }
}

/// `pat` occurs in `s`.
pub open spec fn contains_seq(s: Seq<char>, pat: Seq<char>) -> bool {
    exists|i: int| 0 <= i && i + pat.len() <= s.len() && #[trigger] s.subrange(i, i + pat.len()) == pat
}

/// Relies on `str::contains` with a string pattern: whether `pat` occurs in `s`.
#[verifier::external_body]
fn str_contains(s: &str, pat: &str) -> (r: bool)
    ensures
        r == contains_seq(s@, pat@),
{
    s.contains(pat)
}

/// Whether a `dojo` dependency, written out as a string, pins a tagged git
/// release other than `version`. Other kinds of dependency are not checked.
pub fn dojo_version_mismatch(dependency: &str, version: &str) -> (r: bool)
    ensures
        r == mismatches(dependency@, version@),
{
    str_contains(dependency, "git+") && str_contains(dependency, "tag=v") && !str_contains(
        dependency,
        version,
    )
}

/// `dependency`, written out as a string, pins a tagged git release other
/// than `version`.
pub open spec fn mismatches(dependency: Seq<char>, version: Seq<char>) -> bool {
    contains_seq(dependency, "git+"@) && contains_seq(dependency, "tag=v"@) && !contains_seq(
        dependency,
        version,
    )
}

/// A package dependency: its name and its written-out form.
#[derive(Clone, Debug)]
pub struct Dependency {
    pub name: String,
    pub written: String,
}

/// Index of the first dependency named `dojo`.
pub open spec fn first_dojo(deps: Seq<Dependency>) -> Option<int>
    decreases deps.len(),
{
    if deps.len() == 0 {
        None
    } else {
        match first_dojo(deps.drop_last()) {
            Some(i) => Some(i),
            None => if deps.last().name@ == "dojo"@ {
                Some(deps.len() - 1)
            } else {
                None
            },
        }
    }
}

/// Index of the first dependency named `dojo`.
pub fn find_dojo_dependency(deps: &Vec<Dependency>) -> (r: Option<usize>)
    ensures
        match r {
            Some(i) => i < deps@.len() && first_dojo(deps@) == Some(i as int),
            None => first_dojo(deps@) is None,
        },
{
    let dojo = "dojo".to_string();
    let mut i: usize = 0;
    while i < deps.len()
        invariant
            i <= deps@.len(),
            dojo@ == "dojo"@,
            first_dojo(deps@.take(i as int)) is None,
        decreases deps@.len() - i,
    {
        assert(deps@.take(i + 1).drop_last() == deps@.take(i as int));
        if deps[i].name == dojo {
            proof {
                lemma_first_dojo_prefix(deps@, i + 1);
            }
            return Some(i);
        }
        i = i + 1;
    }
    assert(deps@.take(deps@.len() as int) == deps@);
    None
}

/// Where a prefix already holds a `dojo` dependency, the whole list has the
/// same first one.
proof fn lemma_first_dojo_prefix(deps: Seq<Dependency>, k: int)
    requires
        0 <= k <= deps.len(),
        first_dojo(deps.take(k)) is Some,
    ensures
        first_dojo(deps) == first_dojo(deps.take(k)),
    decreases deps.len() - k,
{
    if k < deps.len() {
        assert(deps.take(k + 1).drop_last() == deps.take(k));
        lemma_first_dojo_prefix(deps, k + 1);
    } else {
        assert(deps.take(k) == deps);
    }
}

/// Whether the package's first `dojo` dependency pins a tagged git release
/// other than `version`; false where it has none.
pub fn package_dojo_version_mismatch(deps: &Vec<Dependency>, version: &str) -> (r: bool)
    ensures
        r == match first_dojo(deps@) {
            Some(i) => mismatches(deps@[i].written@, version@),
            None => false,
        },
{
    match find_dojo_dependency(deps) {
        Some(i) => dojo_version_mismatch(deps[i].written.as_str(), version),
        None => false,
    }
}

/// Which manifest a version mismatch is reported against.
#[derive(Clone, Copy, Debug, PartialEq, Eq, Structural)]
pub enum ReportedManifest {
    Package,
    Workspace,
}

/// The manifest to point at: the package's own where it is the workspace's
/// current package, else the workspace's (also for a virtual workspace, which
/// has no current package: `None`).
pub fn reported_manifest(current_is_package: Option<bool>) -> (r: ReportedManifest)
    ensures
        r == (if current_is_package == Some(true) {
            ReportedManifest::Package
        } else {
            ReportedManifest::Workspace
        }),
{
    match current_is_package {
        Some(true) => ReportedManifest::Package,
        _ => ReportedManifest::Workspace,
    }
}

} // verus!
