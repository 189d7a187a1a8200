//! The dashboard of a bridge: the page itself, and what its requests are
//! answered.

use crate::page::{
    PAGE_AFTER_CONFIG_NAME, PAGE_BEFORE_CONFIG_NAME, PAGE_BEFORE_HASH, PAGE_BEFORE_HEADING,
    PAGE_BEFORE_TITLE,
};
use vstd::prelude::*;

verus! {

/// The certificate of the dashboard.
pub const PLUGIN_TLS_CERT_FILE: &'static str = "plugin-tls.crt";

/// The key of the dashboard.
pub const PLUGIN_TLS_KEY_FILE: &'static str = "plugin-tls.key";

/// The HTTP status of success.
pub const STATUS_OK: u16 = 200;

/// The HTTP status of a request that makes no sense.
pub const STATUS_BAD_REQUEST: u16 = 400;

/// The HTTP status of a failure on this side.
pub const STATUS_INTERNAL_SERVER_ERROR: u16 = 500;

/// A message for the user.
#[derive(Debug)]
pub struct MessageResponse {
    pub detail: String,
}

/// The body of an answer.
#[derive(Debug)]
pub enum Body {
    Message(MessageResponse),
    /// The configuration as text.
    Config(String),
}

/// The answer to a request.
#[derive(Debug)]
pub struct Response {
    pub status: u16,
    pub body: Body,
}

impl Response {
    /// Whether this is a message with this status and text.
    pub open spec fn says(self, status: u16, detail: Seq<char>) -> bool {
        &&& self.status == status
        &&& self.body matches Body::Message(message)
        &&& message.detail@ == detail
    }
}

/// Two texts, one behind the other.
fn concat(first: &str, second: &str) -> (text: String)
    ensures
        text@ == first@ + second@,
{
    let mut text = String::new();
    text.append(first);
    text.append(second);
    assert(text@ =~= first@ + second@);
    text
}

/// An answer that reports a failure.
pub fn error_response(status: u16, detail: String) -> (response: Response)
    ensures
        response == (Response { status, body: Body::Message(MessageResponse { detail }) }),
{
    Response { status, body: Body::Message(MessageResponse { detail }) }
}

/// An answer that reports success.
pub fn ok_response(detail: String) -> (response: Response)
    ensures
        response == (Response {
            status: STATUS_OK,
            body: Body::Message(MessageResponse { detail }),
        }),
{
    Response { status: STATUS_OK, body: Body::Message(MessageResponse { detail }) }
}

/// The text of the page that shows and edits the configuration.
pub open spec fn page_text(
    title: Seq<char>,
    config_name: Seq<char>,
    destination_hash: Seq<char>,
) -> Seq<char> {
    PAGE_BEFORE_TITLE@ + title + PAGE_BEFORE_HEADING@ + title + PAGE_BEFORE_HASH@
        + destination_hash + PAGE_BEFORE_CONFIG_NAME@ + config_name + PAGE_AFTER_CONFIG_NAME@
}

/// The page that shows and edits the configuration.
pub fn get_page(title: &str, config_name: &str, destination_hash: &str) -> (page: String)
    ensures
        page@ == PAGE_BEFORE_TITLE@ + title@ + PAGE_BEFORE_HEADING@ + title@ + PAGE_BEFORE_HASH@
            + destination_hash@ + PAGE_BEFORE_CONFIG_NAME@ + config_name@
            + PAGE_AFTER_CONFIG_NAME@,
        page@ == page_text(title@, config_name@, destination_hash@),
{
    let mut page = String::new();
    page.append(PAGE_BEFORE_TITLE);
    page.append(title);
    page.append(PAGE_BEFORE_HEADING);
    page.append(title);
    page.append(PAGE_BEFORE_HASH);
    page.append(destination_hash);
    page.append(PAGE_BEFORE_CONFIG_NAME);
    page.append(config_name);
    page.append(PAGE_AFTER_CONFIG_NAME);
    assert(page@ =~= PAGE_BEFORE_TITLE@ + title@ + PAGE_BEFORE_HEADING@ + title@ + PAGE_BEFORE_HASH@
        + destination_hash@ + PAGE_BEFORE_CONFIG_NAME@ + config_name@ + PAGE_AFTER_CONFIG_NAME@);
    page
}

/// The answer to a request for the configuration. `serialized` is its text, or
/// the reason why it has none.
pub fn get_config_response(serialized: Result<String, String>) -> (response: Response)
    ensures
        match serialized {
            Ok(config) => response == (Response { status: STATUS_OK, body: Body::Config(config) }),
            Err(err) => response.says(
                STATUS_INTERNAL_SERVER_ERROR,
                "Failed to serialize config: "@ + err@,
            ),
        },
        answers_get(serialized, response),
{
    match serialized {
        Ok(config) => Response { status: STATUS_OK, body: Body::Config(config) },
        Err(err) => error_response(
            STATUS_INTERNAL_SERVER_ERROR,
            concat("Failed to serialize config: ", err.as_str()),
        ),
    }
}

/// Whether an answer to a request for the configuration is right.
pub open spec fn answers_get(serialized: Result<String, String>, response: Response) -> bool {
    match serialized {
        Ok(config) => response == (Response { status: STATUS_OK, body: Body::Config(config) }),
        Err(err) => response.says(
            STATUS_INTERNAL_SERVER_ERROR,
            "Failed to serialize config: "@ + err@,
        ),
    }
}

/// How far a request to change the configuration has come.
#[derive(Debug)]
pub enum PutEvent<C> {
    /// The text of the request was read as a configuration; `Err` says why it
    /// makes no sense.
    Parsed { text: String, parsed: Result<C, String> },
    /// The text of the new configuration was written to its file; `Err` says why
    /// not.
    Written { config: C, written: Result<(), String> },
}

/// What a request to change the configuration leads to next.
#[derive(Debug)]
pub enum PutAction<C> {
    /// Write the text to the file, and keep the new configuration at hand.
    Write { text: String, config: C },
    /// Use the new configuration from now on, and answer.
    ReplaceAndRespond { config: C, response: Response },
    /// Change nothing, and answer.
    Respond(Response),
}

/// Whether a step of a request to change the configuration is right.
pub open spec fn answers_put<C>(event: PutEvent<C>, action: PutAction<C>) -> bool {
    match (event, action) {
        (
            PutEvent::Parsed { text, parsed: Ok(config) },
            PutAction::Write { text: written, config: kept },
        ) => written == text && kept == config,
        (PutEvent::Parsed { text, parsed: Err(err) }, PutAction::Respond(response)) =>
            response.says(STATUS_BAD_REQUEST, "Invalid TOML: "@ + err@),
        (
            PutEvent::Written { config, written: Ok(_) },
            PutAction::ReplaceAndRespond { config: kept, response },
        ) => kept == config && response.says(
            STATUS_OK,
            "Config saved successfully. Restart the service to apply changes."@,
        ),
        (PutEvent::Written { config, written: Err(err) }, PutAction::Respond(response)) =>
            response.says(
                STATUS_INTERNAL_SERVER_ERROR,
                "Failed to write config file: "@ + err@,
            ),
        _ => false,
    }
}

/// The steps of a request to change the configuration: what makes no sense is
/// refused, the text of the request is written as it came, and only what has
/// been written is used.
pub fn put_config_step<C>(event: PutEvent<C>) -> (action: PutAction<C>)
    ensures
        match event {
            PutEvent::Parsed { text, parsed: Ok(config) } => action == (PutAction::Write {
                text,
                config,
            }),
            PutEvent::Parsed { text, parsed: Err(err) } => action matches PutAction::Respond(response)
                && response.says(STATUS_BAD_REQUEST, "Invalid TOML: "@ + err@),
            PutEvent::Written { config, written: Ok(_) } => action
                matches PutAction::ReplaceAndRespond { config: kept, response } && kept == config
                && response.says(
                STATUS_OK,
                "Config saved successfully. Restart the service to apply changes."@,
            ),
            PutEvent::Written { config, written: Err(err) } => action matches PutAction::Respond(response)
                && response.says(
                STATUS_INTERNAL_SERVER_ERROR,
                "Failed to write config file: "@ + err@,
            ),
        },
        answers_put(event, action),
{
    match event {
        PutEvent::Parsed { text, parsed: Ok(config) } => PutAction::Write { text, config },
        PutEvent::Parsed { text: _, parsed: Err(err) } => PutAction::Respond(
            error_response(STATUS_BAD_REQUEST, concat("Invalid TOML: ", err.as_str())),
        ),
        PutEvent::Written { config, written: Ok(_) } => PutAction::ReplaceAndRespond {
            config,
            response: ok_response(
                "Config saved successfully. Restart the service to apply changes.".to_owned(),
            ),
        },
        PutEvent::Written { config: _, written: Err(err) } => PutAction::Respond(
            error_response(
                STATUS_INTERNAL_SERVER_ERROR,
                concat("Failed to write config file: ", err.as_str()),
            ),
        ),
    }
}

/// How the attempt to restart a service came out.
#[derive(Debug)]
pub enum RestartOutcome {
    /// The command ran. `stderr` is what it complained of.
    Ran { success: bool, stderr: String },
    /// The command could not be run.
    NotRun(String),
}

/// Whether an answer to a request to restart a service is right.
pub open spec fn answers_restart(
    service: Seq<char>,
    outcome: RestartOutcome,
    response: Response,
) -> bool {
    match outcome {
        RestartOutcome::Ran { success, stderr } => if success {
            response.says(STATUS_OK, "Service "@ + service + " restart initiated"@)
        } else {
            response.says(STATUS_INTERNAL_SERVER_ERROR, "systemctl failed: "@ + stderr@)
        },
        RestartOutcome::NotRun(err) => response.says(
            STATUS_INTERNAL_SERVER_ERROR,
            "Failed to run systemctl: "@ + err@,
        ),
    }
}

/// The answer to a request to restart the service.
pub fn restart_response(service: &str, outcome: RestartOutcome) -> (response: Response)
    ensures
        match outcome {
            RestartOutcome::Ran { success: true, stderr } => response.says(
                STATUS_OK,
                "Service "@ + service@ + " restart initiated"@,
            ),
            RestartOutcome::Ran { success: false, stderr } => response.says(
                STATUS_INTERNAL_SERVER_ERROR,
                "systemctl failed: "@ + stderr@,
            ),
            RestartOutcome::NotRun(err) => response.says(
                STATUS_INTERNAL_SERVER_ERROR,
                "Failed to run systemctl: "@ + err@,
            ),
        },
        answers_restart(service@, outcome, response),
{
    match outcome {
        RestartOutcome::Ran { success, stderr } => if success {
            let mut detail = concat("Service ", service);
            detail.append(" restart initiated");
            ok_response(detail)
        } else {
            error_response(
                STATUS_INTERNAL_SERVER_ERROR,
                concat("systemctl failed: ", stderr.as_str()),
            )
        },
        RestartOutcome::NotRun(err) => error_response(
            STATUS_INTERNAL_SERVER_ERROR,
            concat("Failed to run systemctl: ", err.as_str()),
        ),
    }
}

/// Why the server could not start: its certificate or key could not be loaded.
pub fn tls_error(err: &str) -> (message: String)
    ensures
        message@ == "Failed to load TLS certificates "@ + PLUGIN_TLS_CERT_FILE@ + " and "@
            + PLUGIN_TLS_KEY_FILE@ + ": "@ + err@,
{
    let mut message = concat("Failed to load TLS certificates ", PLUGIN_TLS_CERT_FILE);
    message.append(" and ");
    message.append(PLUGIN_TLS_KEY_FILE);
    message.append(": ");
    message.append(err);
    message
}

/// Why the server ended.
pub fn server_error(err: &str) -> (message: String)
    ensures
        message@ == "HTTPS server error: "@ + err@,
{
    concat("HTTPS server error: ", err)
}

/// An answer says a text with a status exactly where it is the message with that
/// text and has that status.
pub proof fn law_what_an_answer_says(response: Response, status: u16, detail: Seq<char>)
    ensures
        response.body matches Body::Message(message) ==> (response.says(status, detail)
            <==> message.detail@ == detail && response.status == status),
        response.body is Config ==> !response.says(status, detail),
{
}

/// The statuses are those of HTTP, and the certificate and key have these files.
pub proof fn law_dashboard_constants()
    ensures
        STATUS_OK == 200,
        STATUS_BAD_REQUEST == 400,
        STATUS_INTERNAL_SERVER_ERROR == 500,
        PLUGIN_TLS_CERT_FILE@ == "plugin-tls.crt"@,
        PLUGIN_TLS_KEY_FILE@ == "plugin-tls.key"@,
{
}

/// The page shows the title twice, then the destination and the name of the
/// configuration, each once and as it is, with nothing else between the fixed parts
/// of the page.
pub proof fn law_page_shows_its_parts(title: Seq<char>, config_name: Seq<char>, hash: Seq<char>)
    ensures
        ({
            let page = page_text(title, config_name, hash);
            let t1 = PAGE_BEFORE_TITLE@.len() as int;
            let t2 = t1 + title.len() + PAGE_BEFORE_HEADING@.len();
            let h = t2 + title.len() + PAGE_BEFORE_HASH@.len();
            let c = h + hash.len() + PAGE_BEFORE_CONFIG_NAME@.len();
            &&& page.len() == c + config_name.len() + PAGE_AFTER_CONFIG_NAME@.len()
            &&& page.subrange(t1, t1 + title.len()) == title
            &&& page.subrange(t2, t2 + title.len()) == title
            &&& page.subrange(h, h + hash.len()) == hash
            &&& page.subrange(c, c + config_name.len()) == config_name
            &&& page.subrange(0, t1) == PAGE_BEFORE_TITLE@
            &&& page.subrange(t1 + title.len(), t2) == PAGE_BEFORE_HEADING@
            &&& page.subrange(t2 + title.len(), h) == PAGE_BEFORE_HASH@
            &&& page.subrange(h + hash.len(), c) == PAGE_BEFORE_CONFIG_NAME@
            &&& page.subrange(c + config_name.len(), page.len() as int) == PAGE_AFTER_CONFIG_NAME@
        }),
{
    let page = page_text(title, config_name, hash);
    let t1 = PAGE_BEFORE_TITLE@.len() as int;
    let t2 = t1 + title.len() + PAGE_BEFORE_HEADING@.len();
    let h = t2 + title.len() + PAGE_BEFORE_HASH@.len();
    let c = h + hash.len() + PAGE_BEFORE_CONFIG_NAME@.len();
    assert(page.subrange(t1, t1 + title.len()) =~= title);
    assert(page.subrange(t2, t2 + title.len()) =~= title);
    assert(page.subrange(h, h + hash.len()) =~= hash);
    assert(page.subrange(c, c + config_name.len()) =~= config_name);
    assert(page.subrange(0, t1) =~= PAGE_BEFORE_TITLE@);
    assert(page.subrange(t1 + title.len(), t2) =~= PAGE_BEFORE_HEADING@);
    assert(page.subrange(t2 + title.len(), h) =~= PAGE_BEFORE_HASH@);
    assert(page.subrange(h + hash.len(), c) =~= PAGE_BEFORE_CONFIG_NAME@);
    assert(page.subrange(c + config_name.len(), page.len() as int) =~= PAGE_AFTER_CONFIG_NAME@);
}

/// The text of a message.
pub open spec fn detail_of(response: Response) -> Seq<char> {
    response.body->Message_0.detail@
}

/// A configuration that has a text is answered with that text, as it is; else the
/// reason is told as a failure on this side.
pub proof fn law_config_is_answered_as_it_is(
    serialized: Result<String, String>,
    response: Response,
)
    requires
        answers_get(serialized, response),
    ensures
        serialized is Ok ==> response.status == 200 && response.body == Body::Config(
            serialized->Ok_0,
        ),
        serialized is Err ==> response.status == 500 && response.body is Message && detail_of(
            response,
        ) == "Failed to serialize config: "@ + serialized->Err_0@,
{
}

/// A request to change the configuration: the text that came is what is written,
/// byte for byte; the configuration that was read from it is what is used, and only
/// once it has been written; and what fails is told with its reason and changes
/// nothing.
pub proof fn law_config_is_written_as_it_came<C>(
    text: String,
    config: C,
    err: String,
    action: PutAction<C>,
)
    ensures
        answers_put(PutEvent::Parsed { text, parsed: Ok(config) }, action) ==> action == (
        PutAction::Write { text, config }),
        answers_put(PutEvent::Parsed { text, parsed: Err::<C, String>(err) }, action) ==> (
        action matches PutAction::Respond(response) && response.status == 400
            && response.body is Message && detail_of(response) == "Invalid TOML: "@ + err@),
        answers_put(PutEvent::Written { config, written: Ok(()) }, action) ==> (
        action matches PutAction::ReplaceAndRespond { config: used, response } && used == config
            && response.status == 200 && response.body is Message && detail_of(response)
            == "Config saved successfully. Restart the service to apply changes."@),
        answers_put(PutEvent::Written { config, written: Err::<(), String>(err) }, action) ==> (
        action matches PutAction::Respond(response) && response.status == 500
            && response.body is Message && detail_of(response)
            == "Failed to write config file: "@ + err@),
{
}

/// A restart is answered by success exactly where the command ran and succeeded,
/// with the name of the service; else by what the command, or the attempt to run
/// it, complained of.
pub proof fn law_restart_is_answered(
    service: Seq<char>,
    outcome: RestartOutcome,
    response: Response,
)
    requires
        answers_restart(service, outcome, response),
    ensures
        response.body is Message,
        response.status == 200 <==> (outcome matches RestartOutcome::Ran { success, stderr }
            && success),
        response.status == 200 || response.status == 500,
        outcome matches RestartOutcome::Ran { success, stderr } ==> detail_of(response) == if success {
            "Service "@ + service + " restart initiated"@
        } else {
            "systemctl failed: "@ + stderr@
        },
        outcome matches RestartOutcome::NotRun(err) ==> detail_of(response)
            == "Failed to run systemctl: "@ + err@,
{
}

} // verus!
