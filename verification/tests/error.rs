use launch_supervisor::error::SupervisorError;

#[test]
fn error_messages_describe_the_failure() {
    assert_eq!(
        SupervisorError::ExecutableNotFound("\"/opt/app/dipeo-server.exe\"".to_string()).message(),
        "Backend executable not found at: \"/opt/app/dipeo-server.exe\""
    );
    assert_eq!(
        SupervisorError::ContentRootNotFound("\"/opt/app/web\"".to_string()).message(),
        "Web directory not found at: \"/opt/app/web\""
    );
    assert_eq!(
        SupervisorError::SpawnFailed("permission denied".to_string()).message(),
        "Failed to start backend: permission denied"
    );
    assert_eq!(
        SupervisorError::BindFailed("Address already in use".to_string()).message(),
        "Failed to bind web server: Address already in use"
    );
    assert_eq!(
        SupervisorError::KillFailed("no such process".to_string()).message(),
        "no such process"
    );
    assert_eq!(
        SupervisorError::ResourceDirUnavailable("unknown path".to_string()).message(),
        "unknown path"
    );
    assert_eq!(
        SupervisorError::NoParentDirectory.message(),
        "Failed to get parent directory"
    );
    assert_eq!(
        SupervisorError::StartupTimeout.message(),
        "Backend failed to start within 15 seconds"
    );
}

#[test]
fn error_message_with_empty_cause() {
    assert_eq!(
        SupervisorError::SpawnFailed(String::new()).message(),
        "Failed to start backend: "
    );
    assert_eq!(SupervisorError::KillFailed(String::new()).message(), "");
}
