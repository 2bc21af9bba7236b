use backend_supervisor::launch::{
    backend_workdir, base_url, db_path_variable, launch_outcome, launch_plan, program_variable,
    session_for, LaunchError, StreamTarget, BACKEND_PORT,
};

fn env_of(plan: &backend_supervisor::launch::LaunchPlan) -> Vec<(String, String)> {
    plan.env.iter().map(|var| (var.name.clone(), var.value.clone())).collect()
}

fn pair(name: &str, value: &str) -> (String, String) {
    (name.to_string(), value.to_string())
}

#[test]
fn workdir_is_the_backend_project_root() {
    assert_eq!(backend_workdir(), "../backend");
}

#[test]
fn base_url_is_loopback_with_the_port() {
    assert_eq!(BACKEND_PORT, 8765);
    assert_eq!(base_url(BACKEND_PORT), "http://127.0.0.1:8765");
    assert_eq!(base_url(0), "http://127.0.0.1:0");
    assert_eq!(base_url(65535), "http://127.0.0.1:65535");
}

#[test]
fn session_for_pairs_address_and_credential() {
    let session = session_for("deadbeef".to_string(), 8765);
    assert_eq!(session.base_url, "http://127.0.0.1:8765");
    assert_eq!(session.token, "deadbeef");
}

#[test]
fn plan_with_nothing_in_the_environment() {
    let plan = launch_plan("secret-token", 8765, None, None);
    assert_eq!(plan.program, "python3");
    assert_eq!(plan.args, vec!["-m".to_string(), "app.main".to_string()]);
    assert_eq!(plan.workdir, "../backend");
    assert_eq!(
        env_of(&plan),
        vec![
            pair("APP_API_TOKEN", "secret-token"),
            pair("APP_BIND_HOST", "127.0.0.1"),
            pair("APP_BIND_PORT", "8765"),
        ]
    );
    assert_eq!(plan.stdin, StreamTarget::Null);
    assert_eq!(plan.stdout, StreamTarget::Null);
    assert_eq!(plan.stderr, StreamTarget::Null);
}

#[test]
fn plan_takes_the_program_the_environment_names() {
    let plan = launch_plan("t", 1, Some("/opt/venv/bin/python".to_string()), None);
    assert_eq!(plan.program, "/opt/venv/bin/python");
    assert_eq!(plan.args, vec!["-m".to_string(), "app.main".to_string()]);
    assert_eq!(plan.env.len(), 3);
}

#[test]
fn plan_hands_the_database_path_on_unchanged() {
    let plan = launch_plan("t", 40000, None, Some("/tmp/My Messages/chat.db".to_string()));
    assert_eq!(
        env_of(&plan),
        vec![
            pair("APP_API_TOKEN", "t"),
            pair("APP_BIND_HOST", "127.0.0.1"),
            pair("APP_BIND_PORT", "40000"),
            pair("IMESSAGE_DB_PATH", "/tmp/My Messages/chat.db"),
        ]
    );
}

#[test]
fn plan_makes_up_no_database_path() {
    let plan = launch_plan("t", 8765, Some("python3.12".to_string()), None);
    assert!(plan.env.iter().all(|var| var.name != "IMESSAGE_DB_PATH"));
}

#[test]
fn names_of_the_variables_read() {
    assert_eq!(program_variable(), "IMEXPORT_BACKEND_PYTHON");
    assert_eq!(db_path_variable(), "IMESSAGE_DB_PATH");
}

#[test]
fn launch_outcome_of_a_spawned_child() {
    assert_eq!(launch_outcome(Some(17_u32)), Ok(17_u32));
}

#[test]
fn launch_outcome_of_a_failed_spawn() {
    assert_eq!(launch_outcome::<u32>(None), Err(LaunchError::SpawnFailed));
    assert_eq!(LaunchError::SpawnFailed.message(), "Failed to launch backend process");
}
