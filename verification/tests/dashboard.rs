use rns_mavlink::dashboard::{
    error_response, get_config_response, get_page, ok_response, put_config_step, restart_response,
    server_error, tls_error, Body, PutAction, PutEvent, Response, RestartOutcome,
};

fn message(response: Response) -> (u16, String) {
    match response.body {
        Body::Message(message) => (response.status, message.detail),
        Body::Config(config) => panic!("{config}"),
    }
}

#[test]
fn responses_carry_status_and_detail() {
    assert_eq!(message(error_response(404, "none".to_string())), (404, "none".to_string()));
    assert_eq!(message(ok_response("fine".to_string())), (200, "fine".to_string()));
}

#[test]
fn page_shows_its_parts() {
    let page = get_page("A Title", "Gc.toml", "db332f13541eb2e4b47d02923fbbcb9a");
    assert!(page.starts_with("<!doctype html>\n<html lang=\"en\">\n"));
    assert!(page.contains("  <title>A Title</title>\n"));
    assert!(page.contains("    <h1>A Title</h1>\n"));
    assert!(page.contains("<span class=\"hash\">db332f13541eb2e4b47d02923fbbcb9a</span>"));
    assert!(page.contains("<div class=\"card-title\">Gc.toml</div>"));
    assert!(page.contains("    :root {\n      color-scheme: dark;\n"));
    assert!(page.contains("await resp.json().catch(() => ({}));"));
    assert!(page.ends_with("    })();\n  </script>\n</body>\n</html>\n"));
    assert!(!page.contains("{{"));
    assert_eq!(page.matches("A Title").count(), 2);
}

#[test]
fn config_is_shown_or_the_reason_why_not() {
    let shown = get_config_response(Ok("a = 1".to_string()));
    assert_eq!(shown.status, 200);
    assert!(matches!(shown.body, Body::Config(config) if config == "a = 1"));
    assert_eq!(
        message(get_config_response(Err("bad".to_string()))),
        (500, "Failed to serialize config: bad".to_string())
    );
}

#[test]
fn config_is_replaced_once_it_is_written() {
    let request = "# as typed\nserial_baud=57600  ";
    let event = PutEvent::Parsed { text: request.to_string(), parsed: Ok(57600u32) };
    let config = match put_config_step(event) {
        PutAction::Write { text, config } => {
            assert_eq!(text, request);
            config
        }
        other => panic!("{other:?}"),
    };
    match put_config_step(PutEvent::Written { config, written: Ok(()) }) {
        PutAction::ReplaceAndRespond { config, response } => {
            assert_eq!(config, 57600);
            assert_eq!(
                message(response),
                (
                    200,
                    "Config saved successfully. Restart the service to apply changes.".to_string()
                )
            )
        }
        other => panic!("{other:?}"),
    }
}

#[test]
fn config_that_is_refused_changes_nothing() {
    let refused: PutEvent<u32> =
        PutEvent::Parsed { text: "?".to_string(), parsed: Err("line 1".to_string()) };
    match put_config_step(refused) {
        PutAction::Respond(response) => {
            assert_eq!(message(response), (400, "Invalid TOML: line 1".to_string()))
        }
        other => panic!("{other:?}"),
    }
    let unwritten = PutEvent::Written { config: 1u32, written: Err("disk full".to_string()) };
    match put_config_step(unwritten) {
        PutAction::Respond(response) => assert_eq!(
            message(response),
            (500, "Failed to write config file: disk full".to_string())
        ),
        other => panic!("{other:?}"),
    }
}

#[test]
fn restart_is_reported() {
    let ran = |success: bool| RestartOutcome::Ran { success, stderr: "no such unit".to_string() };
    assert_eq!(
        message(restart_response("rns-mavlink-gc.service", ran(true))),
        (200, "Service rns-mavlink-gc.service restart initiated".to_string())
    );
    assert_eq!(
        message(restart_response("rns-mavlink-gc.service", ran(false))),
        (500, "systemctl failed: no such unit".to_string())
    );
    assert_eq!(
        message(restart_response("x", RestartOutcome::NotRun("not found".to_string()))),
        (500, "Failed to run systemctl: not found".to_string())
    );
}

#[test]
fn server_errors_say_what_failed() {
    assert_eq!(
        tls_error("missing"),
        "Failed to load TLS certificates plugin-tls.crt and plugin-tls.key: missing"
    );
    assert_eq!(server_error("port in use"), "HTTPS server error: port in use");
}
