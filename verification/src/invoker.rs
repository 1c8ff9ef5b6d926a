//! Hook resolution and outcome classification.
//!
//! The manager here makes every decision of a hook invocation over plain
//! values: it forms the candidate path under `<root>/hooks/<name>`,
//! decides from a filesystem observation whether a hook is present and
//! runnable, and classifies what the spawned process reported.  The
//! observation itself — whether an entry exists, whether the platform
//! predicate accepted it, and how the child process ended — is gathered
//! by the unverified embedding and handed in as a [`PathProbe`] and a
//! [`SpawnReport`].

use vstd::prelude::*;
use vstd::string::StringExecFns;
use crate::hooks::{HookContext, HookError, HookErrorModel, HookType};

verus! {

/// What the embedding observed about the candidate hook path: whether a
/// filesystem entry exists there, and whether the platform
/// executability predicate accepted it (see [`crate::platform`]).
#[derive(Debug, Clone, Copy, PartialEq, Eq, Structural)]
pub struct PathProbe {
    pub exists: bool,
    pub executable: bool,
}

impl PathProbe {
    /// A hook is resolved only when an entry exists at the candidate
    /// path and passes the platform executability check.
    pub open spec fn resolved(&self) -> bool {
        self.exists && self.executable
    }
}

/// What became of the attempt to run a resolved hook.
#[derive(Debug, PartialEq, Eq)]
pub enum SpawnReport {
    /// The process could not be started at all (the executable vanished
    /// between resolution and exec, permission was denied at exec time,
    /// and the like), with the underlying cause.
    SpawnFailed { message: String },
    /// The process ran to completion.  `exit_code` is `None` when the
    /// platform could not report a code (for example, termination by a
    /// signal); that is distinct from exit code `0`.
    Exited { exit_code: Option<i32> },
}

/// The classification of one hook invocation, over the mathematical
/// error model: what `invoke` must return given how the candidate path
/// probed and what the spawn reported.  The report is `None` exactly
/// when no process was spawned.
///
/// An unresolved hook (absent, or failing the executability check) is
/// success.  A resolved hook classifies by its report: a spawn failure
/// surfaces as an input/output error, exit code zero is success, and
/// any other exit — a nonzero code, or none obtainable — is a hook
/// execution failure carrying the hook's fixed name and the code.
pub open spec fn invocation_outcome(
    kind: HookType,
    probe: PathProbe,
    report: Option<SpawnReport>,
) -> Result<(), HookErrorModel> {
    if !probe.resolved() {
        Ok(())
    } else {
        match report {
            None => Ok(()),
            Some(SpawnReport::SpawnFailed { message }) => {
                Err(HookErrorModel::IoError { message: message@ })
            },
            Some(SpawnReport::Exited { exit_code }) => {
                if exit_code == Some(0i32) {
                    Ok(())
                } else {
                    Err(
                        HookErrorModel::HookExecutionFailed {
                            hook_name: kind.name_spec(),
                            exit_code,
                        },
                    )
                }
            },
        }
    }
}

/// The mathematical shadow of an invocation result.
pub open spec fn result_model(r: Result<(), HookError>) -> Result<(), HookErrorModel> {
    match r {
        Ok(u) => Ok(u),
        Err(e) => Err(e@),
    }
}

/// Resolves and classifies hook invocations against one root directory.
pub struct HooksManager {
    /// The root directory of the system; hooks live in its `hooks`
    /// subdirectory.
    pub root_dir: String,
}

impl HooksManager {
    pub fn new(root_dir: String) -> (m: HooksManager)
        ensures
            m.root_dir@ == root_dir@,
    {
        HooksManager { root_dir }
    }

    /// The directory all hooks live in: `<root>/hooks`.
    pub open spec fn hooks_dir_spec(&self) -> Seq<char> {
        self.root_dir@ + "/hooks"@
    }

    /// The fixed candidate path of a hook kind: `<root>/hooks/<name>`.
    pub open spec fn hook_path_spec(&self, kind: HookType) -> Seq<char> {
        self.hooks_dir_spec() + "/"@ + kind.name_spec()
    }

    pub fn hooks_dir(&self) -> (r: String)
        ensures
            r@ == self.hooks_dir_spec(),
    {
        self.root_dir.clone().concat("/hooks")
    }

    /// Forms the candidate path the embedding must probe for `kind`.
    pub fn hook_path(&self, kind: &HookType) -> (r: String)
        ensures
            r@ == self.hook_path_spec(*kind),
    {
        self.hooks_dir().concat("/").concat(kind.name())
    }

    /// Decides from a probe whether the hook of `kind` is configured:
    /// returns its candidate path exactly when an entry exists there
    /// and passed the platform executability check, and `None`
    /// otherwise — so absence and "present but not executable" are
    /// indistinguishable to the caller.  The embedding spawns a process
    /// exactly when this returns `Some`.
    pub fn hook_exists(&self, kind: &HookType, probe: &PathProbe) -> (r: Option<String>)
        ensures
            probe.resolved() ==> (r matches Some(p) && p@ == self.hook_path_spec(*kind)),
            !probe.resolved() ==> r is None,
    {
        if probe.exists && probe.executable {
            Some(self.hook_path(kind))
        } else {
            None
        }
    }

    /// Classifies one hook invocation.  `probe` is the observation of
    /// the candidate path; `report` is what the spawn produced, `None`
    /// when no process was spawned (the embedding spawns only a
    /// resolved hook, so a resolved probe with no report means nothing
    /// ran — that, like an unresolved probe, is success).
    ///
    /// `context` carries the variables the embedding injected into the
    /// child process; the classification itself does not depend on it.
    pub fn execute_hook(
        &self,
        hook_type: &HookType,
        context: &HookContext,
        probe: &PathProbe,
        report: &Option<SpawnReport>,
    ) -> (r: Result<(), HookError>)
        ensures
            result_model(r) == invocation_outcome(*hook_type, *probe, *report),
    {
        if probe.exists && probe.executable {
            match report {
                None => Ok(()),
                Some(SpawnReport::SpawnFailed { message }) => {
                    Err(HookError::IoError { message: message.clone() })
                },
                Some(SpawnReport::Exited { exit_code }) => {
                    let success = match exit_code {
                        Some(code) => *code == 0,
                        None => false,
                    };
                    if success {
                        Ok(())
                    } else {
                        Err(
                            HookError::HookExecutionFailed {
                                hook_name: hook_type.name().to_owned(),
                                exit_code: *exit_code,
                            },
                        )
                    }
                },
            }
        } else {
            Ok(())
        }
    }

    /// Classifies a pre-install hook invocation.
    pub fn execute_pre_install(
        &self,
        context: &HookContext,
        probe: &PathProbe,
        report: &Option<SpawnReport>,
    ) -> (r: Result<(), HookError>)
        ensures
            result_model(r) == invocation_outcome(HookType::PreInstall, *probe, *report),
    {
        self.execute_hook(&HookType::PreInstall, context, probe, report)
    }

    /// Classifies a post-install hook invocation.
    pub fn execute_post_install(
        &self,
        context: &HookContext,
        probe: &PathProbe,
        report: &Option<SpawnReport>,
    ) -> (r: Result<(), HookError>)
        ensures
            result_model(r) == invocation_outcome(HookType::PostInstall, *probe, *report),
    {
        self.execute_hook(&HookType::PostInstall, context, probe, report)
    }

    /// Classifies an install-failed hook invocation.
    pub fn execute_install_failed(
        &self,
        context: &HookContext,
        probe: &PathProbe,
        report: &Option<SpawnReport>,
    ) -> (r: Result<(), HookError>)
        ensures
            result_model(r) == invocation_outcome(HookType::InstallFailed, *probe, *report),
    {
        self.execute_hook(&HookType::InstallFailed, context, probe, report)
    }
}

/// When no entry exists at the candidate path, no hook resolves — so no
/// process is spawned — and the invocation classifies as success, for
/// every hook kind.
pub proof fn lemma_absent_hook_is_success(kind: HookType, probe: PathProbe)
    requires
        !probe.exists,
    ensures
        !probe.resolved(),
        invocation_outcome(kind, probe, None) == Ok::<(), HookErrorModel>(()),
{
}

/// When an entry exists at the candidate path but fails the platform
/// executability check, no hook resolves — so no process is spawned —
/// and the invocation classifies as success, for every hook kind:
/// observably identical to the hook being absent.
pub proof fn lemma_not_executable_is_success(kind: HookType, probe: PathProbe)
    requires
        !probe.executable,
    ensures
        !probe.resolved(),
        invocation_outcome(kind, probe, None) == Ok::<(), HookErrorModel>(()),
{
}

/// Classification is deterministic: two invocations with the same hook
/// kind, the same probe of the same hook file, and the same spawn
/// report classify identically — re-running a non-mutating hook cannot
/// change the result.
pub proof fn lemma_invocation_deterministic(
    kind: HookType,
    probe: PathProbe,
    report: Option<SpawnReport>,
    r1: Result<(), HookError>,
    r2: Result<(), HookError>,
)
    requires
        result_model(r1) == invocation_outcome(kind, probe, report),
        result_model(r2) == invocation_outcome(kind, probe, report),
    ensures
        result_model(r1) == result_model(r2),
        r1 is Ok <==> r2 is Ok,
{
}

} // verus!
