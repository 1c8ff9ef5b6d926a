use fnm_hooks::hooks::{HookContext, HookError, HookType};
use fnm_hooks::invoker::{HooksManager, PathProbe, SpawnReport};

fn contains_key(context: &HookContext, key: &str) -> bool {
    context.env_vars.iter().any(|(k, _)| k == key)
}

fn env_value<'a>(context: &'a HookContext, key: &str) -> Option<&'a str> {
    context
        .env_vars
        .iter()
        .find(|(k, _)| k == key)
        .map(|(_, v)| v.as_str())
}

#[test]
fn test_hook_context_creation() {
    let context = HookContext::new("18.0.0", "x64", "/base");

    assert_eq!(context.version, "v18.0.0");
    assert_eq!(context.arch, "x64");
    assert_eq!(context.fnm_dir, "/base");
    assert!(contains_key(&context, "FNM_VERSION"));
    assert!(contains_key(&context, "FNM_ARCH"));
}

#[test]
fn context_installation_dir_is_derived_join() {
    let context = HookContext::new("18.0.0", "arm64", "R");
    assert_eq!(context.installation_dir, "R/installations/v18.0.0");
    assert_eq!(
        env_value(&context, "FNM_INSTALLATION_DIR"),
        Some("R/installations/v18.0.0")
    );
}

#[test]
fn context_seeds_exactly_four_entries() {
    let context = HookContext::new("18.0.0", "x64", "/base");
    assert_eq!(context.env_vars.len(), 4);
    assert_eq!(env_value(&context, "FNM_VERSION"), Some("v18.0.0"));
    assert_eq!(env_value(&context, "FNM_ARCH"), Some("x64"));
    assert_eq!(env_value(&context, "FNM_DIR"), Some("/base"));
    assert_eq!(
        env_value(&context, "FNM_INSTALLATION_DIR"),
        Some("/base/installations/v18.0.0")
    );
}

#[test]
fn hook_type_names_are_fixed() {
    assert_eq!(HookType::PreInstall.name(), "pre-install");
    assert_eq!(HookType::PostInstall.name(), "post-install");
    assert_eq!(HookType::InstallFailed.name(), "install-failed");
}

#[test]
fn hooks_dir_and_hook_path_join() {
    let manager = HooksManager::new(String::from("/base"));
    assert_eq!(manager.hooks_dir(), "/base/hooks");
    assert_eq!(manager.hook_path(&HookType::PreInstall), "/base/hooks/pre-install");
    assert_eq!(manager.hook_path(&HookType::PostInstall), "/base/hooks/post-install");
    assert_eq!(
        manager.hook_path(&HookType::InstallFailed),
        "/base/hooks/install-failed"
    );
}

#[test]
fn hook_exists_requires_existence_and_executability() {
    let manager = HooksManager::new(String::from("/base"));
    let kind = HookType::PreInstall;
    assert_eq!(
        manager.hook_exists(&kind, &PathProbe { exists: true, executable: true }),
        Some(String::from("/base/hooks/pre-install"))
    );
    assert_eq!(
        manager.hook_exists(&kind, &PathProbe { exists: true, executable: false }),
        None
    );
    assert_eq!(
        manager.hook_exists(&kind, &PathProbe { exists: false, executable: false }),
        None
    );
}

#[test]
fn absent_hook_is_success_for_all_kinds() {
    let manager = HooksManager::new(String::from("/base"));
    let context = HookContext::new("18.0.0", "x64", "/base");
    let absent = PathProbe { exists: false, executable: false };
    for kind in [HookType::PreInstall, HookType::PostInstall, HookType::InstallFailed] {
        assert_eq!(manager.hook_exists(&kind, &absent), None);
        assert_eq!(manager.execute_hook(&kind, &context, &absent, &None), Ok(()));
    }
}

#[test]
fn non_executable_hook_is_success_for_all_kinds() {
    let manager = HooksManager::new(String::from("/base"));
    let context = HookContext::new("18.0.0", "x64", "/base");
    let not_executable = PathProbe { exists: true, executable: false };
    for kind in [HookType::PreInstall, HookType::PostInstall, HookType::InstallFailed] {
        assert_eq!(manager.hook_exists(&kind, &not_executable), None);
        assert_eq!(
            manager.execute_hook(&kind, &context, &not_executable, &None),
            Ok(())
        );
    }
}

#[test]
fn hook_exiting_zero_is_success() {
    let manager = HooksManager::new(String::from("/base"));
    let context = HookContext::new("18.0.0", "x64", "/base");
    let found = PathProbe { exists: true, executable: true };
    let report = Some(SpawnReport::Exited { exit_code: Some(0) });
    assert_eq!(
        manager.execute_hook(&HookType::PreInstall, &context, &found, &report),
        Ok(())
    );
}

#[test]
fn hook_exiting_seven_fails_with_code_and_name() {
    let manager = HooksManager::new(String::from("/base"));
    let context = HookContext::new("18.0.0", "x64", "/base");
    let found = PathProbe { exists: true, executable: true };
    let report = Some(SpawnReport::Exited { exit_code: Some(7) });
    let result = manager.execute_hook(&HookType::PreInstall, &context, &found, &report);
    assert_eq!(
        result,
        Err(HookError::HookExecutionFailed {
            hook_name: String::from("pre-install"),
            exit_code: Some(7),
        })
    );
}

#[test]
fn signal_termination_fails_with_unknown_code() {
    let manager = HooksManager::new(String::from("/base"));
    let context = HookContext::new("18.0.0", "x64", "/base");
    let found = PathProbe { exists: true, executable: true };
    let report = Some(SpawnReport::Exited { exit_code: None });
    let result = manager.execute_hook(&HookType::PostInstall, &context, &found, &report);
    assert_eq!(
        result,
        Err(HookError::HookExecutionFailed {
            hook_name: String::from("post-install"),
            exit_code: None,
        })
    );
}

#[test]
fn spawn_failure_surfaces_as_io_error() {
    let manager = HooksManager::new(String::from("/base"));
    let context = HookContext::new("18.0.0", "x64", "/base");
    let found = PathProbe { exists: true, executable: true };
    let report = Some(SpawnReport::SpawnFailed {
        message: String::from("permission denied"),
    });
    let result = manager.execute_hook(&HookType::InstallFailed, &context, &found, &report);
    assert_eq!(
        result,
        Err(HookError::IoError {
            message: String::from("permission denied"),
        })
    );
}

#[test]
fn convenience_entry_points_select_their_kind() {
    let manager = HooksManager::new(String::from("/base"));
    let context = HookContext::new("18.0.0", "x64", "/base");
    let found = PathProbe { exists: true, executable: true };
    let report = Some(SpawnReport::Exited { exit_code: Some(3) });

    let pre = manager.execute_pre_install(&context, &found, &report);
    let post = manager.execute_post_install(&context, &found, &report);
    let failed = manager.execute_install_failed(&context, &found, &report);

    for (result, name) in [(pre, "pre-install"), (post, "post-install"), (failed, "install-failed")] {
        assert_eq!(
            result,
            Err(HookError::HookExecutionFailed {
                hook_name: String::from(name),
                exit_code: Some(3),
            })
        );
    }

    let absent = PathProbe { exists: false, executable: false };
    assert_eq!(manager.execute_pre_install(&context, &absent, &None), Ok(()));
    assert_eq!(manager.execute_post_install(&context, &absent, &None), Ok(()));
    assert_eq!(manager.execute_install_failed(&context, &absent, &None), Ok(()));
}

#[test]
fn repeated_invocation_classifies_identically() {
    let manager = HooksManager::new(String::from("/base"));
    let context = HookContext::new("18.0.0", "x64", "/base");
    let found = PathProbe { exists: true, executable: true };
    let report = Some(SpawnReport::Exited { exit_code: Some(7) });
    let first = manager.execute_hook(&HookType::PreInstall, &context, &found, &report);
    let second = manager.execute_hook(&HookType::PreInstall, &context, &found, &report);
    assert_eq!(first, second);
}

#[test]
fn added_env_var_appends_new_key() {
    let mut context = HookContext::new("18.0.0", "x64", "/base");
    context.add_env_var(String::from("FNM_LOGLEVEL"), String::from("info"));
    assert_eq!(context.env_vars.len(), 5);
    assert_eq!(env_value(&context, "FNM_LOGLEVEL"), Some("info"));
    assert_eq!(env_value(&context, "FNM_VERSION"), Some("v18.0.0"));
}

#[test]
fn added_env_var_overrides_existing_key() {
    let mut context = HookContext::new("18.0.0", "x64", "/base");
    context.add_env_var(String::from("FNM_ARCH"), String::from("arm64"));
    assert_eq!(context.env_vars.len(), 4);
    assert_eq!(env_value(&context, "FNM_ARCH"), Some("arm64"));
}
