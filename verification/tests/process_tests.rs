use jormungandr_supervisor::{JormungandrConfig, JormungandrError, JormungandrProcess};

fn sample_config() -> JormungandrConfig {
    JormungandrConfig::new(
        String::from("node.log"),
        String::from("127.0.0.1"),
        8080,
        String::from("/ip4/127.0.0.1/tcp/3000"),
        String::from("ed25519_pk1node"),
    )
}

#[test]
fn check_reports_error_lines() {
    let process = JormungandrProcess::from_config(sample_config());
    let content = b"INFO started\nERRO disk full\n";
    let outcome = process.check_no_errors_in_log(content);
    match outcome {
        Err(JormungandrError::ErrorInLogs { logs, log_location, error_lines }) => {
            assert_eq!(logs, content.to_vec());
            assert_eq!(log_location, String::from("node.log"));
            assert_eq!(error_lines, vec![b"ERRO disk full".to_vec()]);
        }
        Ok(()) => panic!("an error line must be reported"),
    }
}

#[test]
fn check_reports_invalid_marker_line() {
    let process = JormungandrProcess::from_config(sample_config());
    let content = b"STATE invalid transition\n";
    match process.check_no_errors_in_log(content) {
        Err(JormungandrError::ErrorInLogs { logs, log_location, error_lines }) => {
            assert_eq!(logs, content.to_vec());
            assert_eq!(log_location, String::from("node.log"));
            assert_eq!(error_lines, vec![b"STATE invalid transition".to_vec()]);
        }
        Ok(()) => panic!("an invalid-state line must be reported"),
    }
}

#[test]
fn check_carries_both_marker_kinds_in_order() {
    let process = JormungandrProcess::from_config(sample_config());
    let content = b"ERRO io\nINFO ok\nWARN invalid block\n";
    match process.check_no_errors_in_log(content) {
        Err(JormungandrError::ErrorInLogs { error_lines, .. }) => {
            assert_eq!(
                error_lines,
                vec![b"ERRO io".to_vec(), b"WARN invalid block".to_vec()]
            );
        }
        Ok(()) => panic!("both marked lines must be reported"),
    }
}

#[test]
fn check_passes_clean_log() {
    let process = JormungandrProcess::from_config(sample_config());
    let content = b"INFO started\nINFO ready\n";
    assert!(process.check_no_errors_in_log(content).is_ok());
    // The hard check runs the same detection and returns on a clean log.
    process.assert_no_errors_in_log(content);
}

#[test]
fn termination_attempt_is_recorded_once() {
    let mut process = JormungandrProcess::from_config(sample_config());
    assert!(!process.has_termination_attempt());
    process.mark_termination_attempt();
    assert!(process.has_termination_attempt());
}

#[test]
fn rest_address_unchanged_by_config_clone() {
    let process = JormungandrProcess::from_config(sample_config());
    let before = process.rest_address();
    let copy = process.config();
    let after = process.rest_address();
    assert_eq!(before, after);
    assert_eq!(before, String::from("127.0.0.1:8080"));
    assert_eq!(copy.get_node_address(), before);
}

#[test]
fn from_config_binds_description_and_log_location() {
    let process = JormungandrProcess::from_config(sample_config());
    assert_eq!(process.description, String::from("Jormungandr node"));
    assert_eq!(process.logger.log_file_path, String::from("node.log"));
}

#[test]
fn new_binds_given_description() {
    let process = JormungandrProcess::new(
        String::from("backup node"),
        String::from("other.log"),
        sample_config(),
    );
    assert_eq!(process.description, String::from("backup node"));
    assert_eq!(process.logger.log_file_path, String::from("other.log"));
    assert!(!process.has_termination_attempt());
}

#[test]
fn trusted_peer_copies_identity() {
    let process = JormungandrProcess::from_config(sample_config());
    let peer = process.as_trusted_peer();
    assert_eq!(peer.address, String::from("/ip4/127.0.0.1/tcp/3000"));
    assert_eq!(peer.id, String::from("ed25519_pk1node"));
}

#[test]
fn explorer_is_bound_to_rest_address() {
    let process = JormungandrProcess::from_config(sample_config());
    assert_eq!(process.explorer().address, process.rest_address());
}

#[test]
fn release_diagnostics_surface_error_and_invalid_lines() {
    let process = JormungandrProcess::from_config(sample_config());
    let content = b"WARN invalid block\nINFO ok\nERRO io\n";
    assert_eq!(
        process.release_diagnostics(content),
        vec![b"WARN invalid block".to_vec(), b"ERRO io".to_vec()]
    );
}

#[test]
fn rest_address_renders_edge_ports() {
    let low = JormungandrConfig::new(
        String::from("a.log"),
        String::from("host"),
        0,
        String::new(),
        String::new(),
    );
    assert_eq!(low.get_node_address(), String::from("host:0"));
    let high = JormungandrConfig::new(
        String::from("a.log"),
        String::from("host"),
        65535,
        String::new(),
        String::new(),
    );
    assert_eq!(high.get_node_address(), String::from("host:65535"));
}
