//! Hook kinds, errors, and the context handed to a running hook.

use vstd::prelude::*;
use vstd::string::StringExecFns;

verus! {

/// The lifecycle points at which a user-provided hook may run.
#[derive(Debug, Clone, PartialEq, Eq, Structural)]
pub enum HookType {
    PreInstall,
    PostInstall,
    InstallFailed,
}

impl HookType {
    /// The fixed name of this hook kind, used both as the on-disk file
    /// name and in diagnostics.
    pub open spec fn name_spec(&self) -> Seq<char> {
        match self {
            HookType::PreInstall => "pre-install"@,
            HookType::PostInstall => "post-install"@,
            HookType::InstallFailed => "install-failed"@,
        }
    }

    pub fn name(&self) -> (r: &'static str)
        ensures
            r@ == self.name_spec(),
    {
        match self {
            HookType::PreInstall => "pre-install",
            HookType::PostInstall => "post-install",
            HookType::InstallFailed => "install-failed",
        }
    }
}

/// How a hook invocation can fail.
#[derive(Debug, PartialEq, Eq)]
pub enum HookError {
    /// A filesystem or process-spawn failure below the hook layer,
    /// tagged with the underlying cause.
    IoError { message: String },
    /// The hook ran but exited with a nonzero status, or with no
    /// portable exit code at all (`exit_code` is then `None`, never a
    /// fabricated number).
    HookExecutionFailed { hook_name: String, exit_code: Option<i32> },
    /// Reserved for callers that treat a hook as mandatory; the default
    /// invocation path never produces it.
    HookNotFound { hook_name: String },
}

/// The mathematical shadow of a [`HookError`]: the same variants over
/// character sequences instead of heap strings.
pub enum HookErrorModel {
    IoError { message: Seq<char> },
    HookExecutionFailed { hook_name: Seq<char>, exit_code: Option<i32> },
    HookNotFound { hook_name: Seq<char> },
}

impl View for HookError {
    type V = HookErrorModel;

    open spec fn view(&self) -> HookErrorModel {
        match self {
            HookError::IoError { message } => HookErrorModel::IoError { message: message@ },
            HookError::HookExecutionFailed { hook_name, exit_code } => {
                HookErrorModel::HookExecutionFailed {
                    hook_name: hook_name@,
                    exit_code: *exit_code,
                }
            },
            HookError::HookNotFound { hook_name } => {
                HookErrorModel::HookNotFound { hook_name: hook_name@ }
            },
        }
    }
}

/// The tag-prefixed rendering of a resolved version: `v` followed by
/// the version string.
pub open spec fn version_label(version: Seq<char>) -> Seq<char> {
    "v"@ + version
}

/// The installation directory derived from a root directory and a
/// version: `<root>/installations/<label>`, with the tag-prefixed label.
pub open spec fn installation_dir_of(root: Seq<char>, version: Seq<char>) -> Seq<char> {
    root + "/installations/"@ + version_label(version)
}

/// The mapping denoted by a sequence of key/value pairs: a later entry
/// takes precedence over an earlier one with the same key (with unique
/// keys the order never matters).
pub open spec fn env_map_of(s: Seq<(String, String)>) -> Map<Seq<char>, Seq<char>>
    decreases s.len(),
{
    if s.len() == 0 {
        Map::empty()
    } else {
        env_map_of(s.drop_last()).insert(s.last().0@, s.last().1@)
    }
}

/// With unique keys, replacing the pair at `i` by one carrying the
/// same key denotes the same mapping as inserting that pair.
proof fn lemma_env_map_of_update(s: Seq<(String, String)>, i: int, p: (String, String))
    requires
        forall|a: int, b: int| 0 <= a < b < s.len() ==> s[a].0@ != s[b].0@,
        0 <= i < s.len(),
        s[i].0@ == p.0@,
    ensures
        env_map_of(s.update(i, p)) == env_map_of(s).insert(p.0@, p.1@),
    decreases s.len(),
{
    let t = s.update(i, p);
    if i == s.len() - 1 {
        assert(t.drop_last() =~= s.drop_last());
        // Inserting the key twice keeps only the later value.
        assert(env_map_of(s.drop_last()).insert(s.last().0@, s.last().1@).insert(p.0@, p.1@)
            =~= env_map_of(s.drop_last()).insert(p.0@, p.1@));
    } else {
        assert(t.drop_last() =~= s.drop_last().update(i, p));
        assert(t.last() == s.last());
        lemma_env_map_of_update(s.drop_last(), i, p);
        // The updated key and the last key differ, so the two inserts
        // commute.
        assert(s[i].0@ != s.last().0@);
        assert(env_map_of(s.drop_last()).insert(p.0@, p.1@).insert(s.last().0@, s.last().1@)
            =~= env_map_of(s.drop_last()).insert(s.last().0@, s.last().1@).insert(p.0@, p.1@));
    }
}

/// The immutable snapshot handed to every hook spawned for one
/// operation: the labels describing the operation, and the environment
/// variables to inject into the child process.
#[derive(Debug)]
pub struct HookContext {
    /// The version being operated on, in tag-prefixed form.
    pub version: String,
    /// The target architecture label.
    pub arch: String,
    /// The root directory of the system.
    pub fnm_dir: String,
    /// The installation directory for this version, always derived from
    /// the root and the version, never supplied independently.
    pub installation_dir: String,
    /// Environment variables to export to the hook, as key/value pairs
    /// with unique keys; seeded with four fixed entries and open to
    /// additional entries from callers.
    pub env_vars: Vec<(String, String)>,
}

impl HookContext {
    /// The four seeded entries are present, in order, each carrying the
    /// field it was derived from.
    pub open spec fn seeded(&self) -> bool {
        &&& self.env_vars@.len() >= 4
        &&& self.env_vars@[0].0@ == "FNM_VERSION"@ && self.env_vars@[0].1@ == self.version@
        &&& self.env_vars@[1].0@ == "FNM_ARCH"@ && self.env_vars@[1].1@ == self.arch@
        &&& self.env_vars@[2].0@ == "FNM_DIR"@ && self.env_vars@[2].1@ == self.fnm_dir@
        &&& self.env_vars@[3].0@ == "FNM_INSTALLATION_DIR"@ && self.env_vars@[3].1@
            == self.installation_dir@
    }

    /// No two environment entries share a key.
    pub open spec fn env_keys_unique(&self) -> bool {
        forall|i: int, j: int|
            0 <= i < j < self.env_vars@.len() ==> self.env_vars@[i].0@ != self.env_vars@[j].0@
    }

    /// The variable mapping this context denotes.
    pub open spec fn env_map(&self) -> Map<Seq<char>, Seq<char>> {
        env_map_of(self.env_vars@)
    }

    /// Adds an environment variable to the context.  When the key is
    /// already present its value is replaced, so keys stay unique; the
    /// four fields describing the operation are untouched.
    pub fn add_env_var(&mut self, key: String, value: String)
        requires
            old(self).env_keys_unique(),
        ensures
            final(self).version@ == old(self).version@,
            final(self).arch@ == old(self).arch@,
            final(self).fnm_dir@ == old(self).fnm_dir@,
            final(self).installation_dir@ == old(self).installation_dir@,
            final(self).env_keys_unique(),
            final(self).env_map() == old(self).env_map().insert(key@, value@),
    {
        let ghost p = (key, value);
        let n = self.env_vars.len();
        let mut i: usize = 0;
        while i < n
            invariant
                i <= n,
                n == self.env_vars@.len(),
                self.env_vars@ == old(self).env_vars@,
                self.version@ == old(self).version@,
                self.arch@ == old(self).arch@,
                self.fnm_dir@ == old(self).fnm_dir@,
                self.installation_dir@ == old(self).installation_dir@,
                old(self).env_keys_unique(),
                p == (key, value),
                forall|k: int| 0 <= k < i ==> self.env_vars@[k].0@ != key@,
            decreases n - i,
        {
            if self.env_vars[i].0 == key {
                let ghost old_env = self.env_vars@;
                self.env_vars.set(i, (key, value));
                proof {
                    lemma_env_map_of_update(old_env, i as int, p);
                    assert(self.env_vars@ == old_env.update(i as int, p));
                }
                return;
            }
            i += 1;
        }
        let ghost old_env = self.env_vars@;
        self.env_vars.push((key, value));
        proof {
            assert(self.env_vars@.drop_last() =~= old_env);
        }
    }

    /// Builds the context for one operation.  Pure data assembly: the
    /// version is rendered in tag-prefixed form, the installation
    /// directory is computed from the root and the version (never
    /// accepted as an input), and the variable mapping holds exactly
    /// the four seeded entries.
    pub fn new(version: &str, arch: &str, root_dir: &str) -> (c: HookContext)
        ensures
            c.version@ == version_label(version@),
            c.arch@ == arch@,
            c.fnm_dir@ == root_dir@,
            c.installation_dir@ == installation_dir_of(root_dir@, version@),
            c.env_vars@.len() == 4,
            c.seeded(),
            c.env_keys_unique(),
            c.env_map() == Map::<Seq<char>, Seq<char>>::empty().insert(
                "FNM_VERSION"@,
                version_label(version@),
            ).insert("FNM_ARCH"@, arch@).insert("FNM_DIR"@, root_dir@).insert(
                "FNM_INSTALLATION_DIR"@,
                installation_dir_of(root_dir@, version@),
            ),
    {
        let version_str = String::from_str("v").concat(version);
        let arch_str = String::from_str(arch);
        let fnm_dir = String::from_str(root_dir);
        let installation_dir = String::from_str(root_dir).concat("/installations/").concat(
            version_str.as_str(),
        );

        let mut env_vars: Vec<(String, String)> = Vec::new();
        env_vars.push((String::from_str("FNM_VERSION"), version_str.clone()));
        env_vars.push((String::from_str("FNM_ARCH"), arch_str.clone()));
        env_vars.push((String::from_str("FNM_DIR"), fnm_dir.clone()));
        env_vars.push((String::from_str("FNM_INSTALLATION_DIR"), installation_dir.clone()));

        let c = HookContext { version: version_str, arch: arch_str, fnm_dir, installation_dir, env_vars };
        proof {
            reveal_strlit("FNM_VERSION");
            reveal_strlit("FNM_ARCH");
            reveal_strlit("FNM_DIR");
            reveal_strlit("FNM_INSTALLATION_DIR");
            // The four seeded keys have pairwise distinct lengths.
            assert(c.env_vars@[0].0@.len() == 11);
            assert(c.env_vars@[1].0@.len() == 8);
            assert(c.env_vars@[2].0@.len() == 7);
            assert(c.env_vars@[3].0@.len() == 20);
            reveal_with_fuel(env_map_of, 5);
        }
        c
    }
}

} // verus!
