use local_sent_bridge::command::clamp_discover_timeout;
use local_sent_bridge::command::command_result;
use local_sent_bridge::command::process_send_output;
use local_sent_bridge::command::render_cli_error;
use local_sent_bridge::command::validate_send_request;
use local_sent_bridge::errors::BridgeError;

#[test]
fn failed_command_renders_code_and_stderr() {
    let output = command_result(false, Some(2), Vec::new(), b"bad arg".to_vec());
    assert!(!output.success);
    assert_eq!(output.code, 2);
    let rendered = String::from_utf8(render_cli_error(b"send", &output)).unwrap();
    assert_eq!(rendered, "send failed (exit code 2)\nbad arg");
    assert!(rendered.contains("bad arg"));
}

#[test]
fn missing_exit_code_defaults_to_minus_one() {
    let output = command_result(false, None, Vec::new(), Vec::new());
    assert_eq!(output.code, -1);
    let rendered = String::from_utf8(render_cli_error(b"send", &output)).unwrap();
    assert_eq!(rendered, "send failed (exit code -1)");
}

#[test]
fn render_orders_stderr_before_stdout() {
    let output = command_result(false, Some(3), b" out text \n".to_vec(), b"\terr text ".to_vec());
    let rendered = String::from_utf8(render_cli_error(b"discover", &output)).unwrap();
    assert_eq!(rendered, "discover failed (exit code 3)\nerr text\nout text");
}

#[test]
fn successful_send_passes_through() {
    let output = command_result(true, Some(0), b"sent".to_vec(), Vec::new());
    let result = process_send_output(output).expect("success passes through");
    assert!(result.success);
    assert_eq!(result.stdout, b"sent".to_vec());
}

#[test]
fn failed_send_becomes_non_zero_exit() {
    let output = command_result(false, Some(2), Vec::new(), b"bad arg".to_vec());
    match process_send_output(output) {
        Err(BridgeError::NonZeroExit(message)) => {
            let text = String::from_utf8(message).unwrap();
            assert_eq!(text, "send failed (exit code 2)\nbad arg");
        }
        other => panic!("expected NonZeroExit, got {other:?}"),
    }
}

#[test]
fn send_request_validation() {
    assert_eq!(validate_send_request(b"  ", &None, 7777), Err(BridgeError::EmptyPath));
    assert_eq!(validate_send_request(b"/tmp/f", &None, 0), Err(BridgeError::InvalidPort));
    assert_eq!(
        validate_send_request(b"/tmp/f", &Some(b" ".to_vec()), 7777),
        Err(BridgeError::EmptyHost)
    );
    assert_eq!(validate_send_request(b"/tmp/f", &Some(b"10.0.0.2".to_vec()), 7777), Ok(()));
    assert_eq!(validate_send_request(b"/tmp/f", &None, 7777), Ok(()));
}

#[test]
fn discover_timeout_is_clamped() {
    assert_eq!(clamp_discover_timeout(None), 3000);
    assert_eq!(clamp_discover_timeout(Some(5)), 100);
    assert_eq!(clamp_discover_timeout(Some(100)), 100);
    assert_eq!(clamp_discover_timeout(Some(60_000)), 60_000);
}
