use vstd::prelude::*;

use crate::event::Event;

verus! {

/// The production endpoint that events are posted to.
pub const API_URL: &'static str = "https://api.apialerts.com/event";

/// The `X-Integration` header a client sends unless overridden.
pub const INTEGRATION_NAME: &'static str = "rust";

/// The `X-Version` header a client sends unless overridden: this crate's version.
pub const INTEGRATION_VERSION: &'static str = "1.1.0";

/// How long, in seconds, a request may take before it is abandoned.
pub const TIMEOUT_SECONDS: u64 = 30;

/// The result of a successful event delivery.
#[derive(Debug, Clone)]
pub struct SendResult {
    pub workspace: String,
    pub channel: String,
    pub warnings: Vec<String>,
}

/// Errors that can be returned by the API Alerts client.
#[derive(Debug)]
pub enum ApiAlertsError {
    NotConfigured,
    ApiKeyMissing,
    MessageRequired,
    NetworkError(String),
    HttpError(u16, String),
    InvalidResponse,
}

/// The body of a successful reply, as the service sends it.
#[derive(Debug, Clone)]
pub struct ApiResponse {
    pub workspace: String,
    pub channel: String,
    /// Empty when the reply names no warnings.
    pub warnings: Vec<String>,
}

/// A reply that came back: its status code, and its body read as an
/// [`ApiResponse`] (`None` where it could not be read as one).
#[derive(Debug)]
pub struct HttpReply {
    pub status: u16,
    pub body: Option<ApiResponse>,
}

// ---------------------------------------------------------------------------
// Decimal digits

/// The character of the decimal digit `d`.
pub open spec fn digit_char(d: nat) -> char {
    if d == 0 { '0' }
    else if d == 1 { '1' }
    else if d == 2 { '2' }
    else if d == 3 { '3' }
    else if d == 4 { '4' }
    else if d == 5 { '5' }
    else if d == 6 { '6' }
    else if d == 7 { '7' }
    else if d == 8 { '8' }
    else { '9' }
}

/// `n` written in decimal, without leading zeros.
pub open spec fn decimal(n: nat) -> Seq<char>
    decreases n,
{
    if n < 10 {
        seq![digit_char(n)]
    } else {
        decimal(n / 10) + seq![digit_char(n % 10)]
    }
}

fn digit_str(d: u64) -> (s: &'static str)
    requires
        d < 10,
    ensures
        s@ == seq![digit_char(d as nat)],
{
    if d == 0 {
        proof { reveal_strlit("0"); }
        "0"
    } else if d == 1 {
        proof { reveal_strlit("1"); }
        "1"
    } else if d == 2 {
        proof { reveal_strlit("2"); }
        "2"
    } else if d == 3 {
        proof { reveal_strlit("3"); }
        "3"
    } else if d == 4 {
        proof { reveal_strlit("4"); }
        "4"
    } else if d == 5 {
        proof { reveal_strlit("5"); }
        "5"
    } else if d == 6 {
        proof { reveal_strlit("6"); }
        "6"
    } else if d == 7 {
        proof { reveal_strlit("7"); }
        "7"
    } else if d == 8 {
        proof { reveal_strlit("8"); }
        "8"
    } else {
        proof { reveal_strlit("9"); }
        "9"
    }
}

/// Appends `n`, written in decimal, to `s`.
pub fn push_decimal(s: &mut String, n: u64)
    ensures
        final(s)@ == old(s)@ + decimal(n as nat),
    decreases n,
{
    if n >= 10 {
        push_decimal(s, n / 10);
    }
    s.append(digit_str(n % 10));
    assert(final(s)@ =~= old(s)@ + decimal(n as nat));
}

// ---------------------------------------------------------------------------
// Error texts and log lines

/// The text of the status line that a rejected request gets back.
pub open spec fn status_text(status: u16) -> Seq<char> {
    if status == 400 {
        "bad request"@
    } else if status == 401 {
        "unauthorized - check your api key"@
    } else if status == 403 {
        "forbidden"@
    } else if status == 429 {
        "rate limit exceeded"@
    } else {
        "unexpected status: "@ + decimal(status as nat)
    }
}

/// How an error reads: the text that a user of the library is shown.
pub open spec fn error_text(e: ApiAlertsError) -> Seq<char> {
    match e {
        ApiAlertsError::NotConfigured => "client not configured"@,
        ApiAlertsError::ApiKeyMissing => "api key is missing"@,
        ApiAlertsError::MessageRequired => "message is required"@,
        ApiAlertsError::NetworkError(msg) => msg@,
        ApiAlertsError::HttpError(_, msg) => msg@,
        ApiAlertsError::InvalidResponse => "invalid response from server"@,
    }
}

/// The line logged for an error.
pub open spec fn error_line(e: ApiAlertsError) -> Seq<char> {
    "x (apialerts.com) Error: "@ + error_text(e)
}

/// The line logged for a delivered event.
pub open spec fn sent_line(workspace: Seq<char>, channel: Seq<char>) -> Seq<char> {
    "\u{2713} (apialerts.com) Alert sent to "@ + workspace + " ("@ + channel + ")"@
}

/// The line logged for a warning that came back with a delivered event.
pub open spec fn warning_line(warning: Seq<char>) -> Seq<char> {
    "! (apialerts.com) Warning: "@ + warning
}

impl ApiAlertsError {
    /// How this error reads.
    pub fn message(&self) -> (s: String)
        ensures
            s@ == error_text(*self),
    {
        match self {
            ApiAlertsError::NotConfigured => "client not configured".to_owned(),
            ApiAlertsError::ApiKeyMissing => "api key is missing".to_owned(),
            ApiAlertsError::MessageRequired => "message is required".to_owned(),
            ApiAlertsError::NetworkError(msg) => msg.clone(),
            ApiAlertsError::HttpError(_, msg) => msg.clone(),
            ApiAlertsError::InvalidResponse => "invalid response from server".to_owned(),
        }
    }

    /// The line that is logged for this error.
    pub fn log_line(&self) -> (s: String)
        ensures
            s@ == error_line(*self),
            s@ == "x (apialerts.com) Error: "@ + error_text(*self),
    {
        let text = self.message();
        let mut line = "x (apialerts.com) Error: ".to_owned();
        line.append(text.as_str());
        line
    }
}

/// The error that a rejected request gets, by its status code.
fn status_error(status: u16) -> (e: ApiAlertsError)
    ensures
        e matches ApiAlertsError::HttpError(code, msg) && code == status && msg@ == status_text(status),
{
    let msg = if status == 400 {
        "bad request".to_owned()
    } else if status == 401 {
        "unauthorized - check your api key".to_owned()
    } else if status == 403 {
        "forbidden".to_owned()
    } else if status == 429 {
        "rate limit exceeded".to_owned()
    } else {
        let mut m = "unexpected status: ".to_owned();
        push_decimal(&mut m, status as u64);
        m
    };
    ApiAlertsError::HttpError(status, msg)
}

/// What a reply amounts to: the delivery it confirms, or the error it
/// reports. `Err` holds the text of a failure to get any reply at all.
pub open spec fn reply_outcome(reply: Result<HttpReply, String>, r: Result<SendResult, ApiAlertsError>) -> bool {
    match reply {
        Err(msg) => r matches Err(ApiAlertsError::NetworkError(m)) && m@ == msg@,
        Ok(rep) => if rep.status == 200 {
            match rep.body {
                Some(b) => r == Ok::<SendResult, ApiAlertsError>(
                    SendResult { workspace: b.workspace, channel: b.channel, warnings: b.warnings },
                ),
                None => r matches Err(ApiAlertsError::InvalidResponse),
            }
        } else {
            r matches Err(ApiAlertsError::HttpError(code, m)) && code == rep.status && m@
                == status_text(rep.status)
        },
    }
}

/// Reads the reply to a posted event: a `200` with a readable body is a
/// delivery, every other reply is an error.
pub fn read_reply(reply: Result<HttpReply, String>) -> (r: Result<SendResult, ApiAlertsError>)
    ensures
        reply_outcome(reply, r),
        reply is Ok && reply->Ok_0.status == 200 && reply->Ok_0.body is Some ==> {
            &&& r is Ok
            &&& r->Ok_0.workspace == reply->Ok_0.body->Some_0.workspace
            &&& r->Ok_0.channel == reply->Ok_0.body->Some_0.channel
            &&& r->Ok_0.warnings == reply->Ok_0.body->Some_0.warnings
            &&& r->Ok_0.warnings@ == reply->Ok_0.body->Some_0.warnings@
        },
        reply is Ok && reply->Ok_0.status == 200 && reply->Ok_0.body is None ==> (r is Err
            && r->Err_0 is InvalidResponse),
        reply is Ok && reply->Ok_0.status != 200 ==> (r is Err && r->Err_0 is HttpError
            && r->Err_0->HttpError_0 == reply->Ok_0.status
            && r->Err_0->HttpError_1@ == status_text(reply->Ok_0.status)),
        reply is Err ==> (r is Err && r->Err_0 is NetworkError && r->Err_0->NetworkError_0@
            == reply->Err_0@),
{
    match reply {
        Err(msg) => Err(ApiAlertsError::NetworkError(msg)),
        Ok(rep) => {
            if rep.status == 200 {
                match rep.body {
                    Some(b) => Ok(
                        SendResult { workspace: b.workspace, channel: b.channel, warnings: b.warnings },
                    ),
                    None => Err(ApiAlertsError::InvalidResponse),
                }
            } else {
                Err(status_error(rep.status))
            }
        },
    }
}

// ---------------------------------------------------------------------------
// The client

/// The settings a client sends events with.
pub struct ClientView {
    pub api_key: Seq<char>,
    pub integration: Seq<char>,
    pub integration_version: Seq<char>,
    pub base_url: Seq<char>,
    pub debug: bool,
}

/// An API Alerts client: the key, the integration headers and the endpoint
/// that its events go out with, and whether it logs what becomes of them.
///
/// Construct it with [`ApiAlertsClient::new`] and reuse it for the lifetime of
/// the application; there is no global singleton beyond the optional slot of
/// [`crate::configure`].
#[derive(Debug, Clone)]
pub struct ApiAlertsClient {
    api_key: String,
    integration: String,
    integration_version: String,
    base_url: String,
    debug: bool,
}

impl View for ApiAlertsClient {
    type V = ClientView;

    closed spec fn view(&self) -> ClientView {
        ClientView {
            api_key: self.api_key@,
            integration: self.integration@,
            integration_version: self.integration_version@,
            base_url: self.base_url@,
            debug: self.debug,
        }
    }
}

/// The settings of a new client with the key `api_key`.
pub open spec fn default_client(api_key: Seq<char>) -> ClientView {
    ClientView {
        api_key: api_key,
        integration: INTEGRATION_NAME@,
        integration_version: INTEGRATION_VERSION@,
        base_url: API_URL@,
        debug: false,
    }
}

/// The settings after the integration headers and the endpoint were overridden.
pub open spec fn overridden(c: ClientView, integration: Seq<char>, version: Seq<char>, base_url: Seq<char>) -> ClientView {
    ClientView { integration: integration, integration_version: version, base_url: base_url, ..c }
}

/// Why an event with this key and message is refused before anything is
/// sent, if it is: a missing key is reported before a missing message.
pub open spec fn refusal(api_key: Seq<char>, message: Seq<char>) -> Option<ApiAlertsError> {
    if api_key.len() == 0 {
        Some(ApiAlertsError::ApiKeyMissing)
    } else if message.len() == 0 {
        Some(ApiAlertsError::MessageRequired)
    } else {
        None
    }
}

/// The headers, name and value, that an event is posted with.
pub open spec fn request_headers(c: ClientView, api_key: Seq<char>) -> Seq<(Seq<char>, Seq<char>)> {
    seq![
        ("Authorization"@, "Bearer "@ + api_key),
        ("Content-Type"@, "application/json"@),
        ("X-Integration"@, c.integration),
        ("X-Version"@, c.integration_version),
    ]
}

/// The characters of each header's name and value.
pub open spec fn header_views(headers: Seq<(String, String)>) -> Seq<(Seq<char>, Seq<char>)> {
    headers.map_values(|h: (String, String)| (h.0@, h.1@))
}

/// A request ready to go out: where to, with which headers, and the event
/// whose JSON form is its body.
#[derive(Debug)]
pub struct PostRequest {
    pub url: String,
    pub headers: Vec<(String, String)>,
    pub event: Event,
}

/// `req` posts `event` with the key `api_key` from a client with the settings `c`.
pub open spec fn is_request_for(req: PostRequest, c: ClientView, api_key: Seq<char>, event: Event) -> bool {
    &&& req.url@ == c.base_url
    &&& header_views(req.headers@) == request_headers(c, api_key)
    &&& req.event == event
}

/// What the fire-and-forget send does: log a line and stop, or post a request.
#[derive(Debug)]
pub enum SendPlan {
    Log(String),
    Post(PostRequest),
}

/// The lines logged once a fire-and-forget send has an outcome.
pub open spec fn delivery_lines(debug: bool, result: Result<SendResult, ApiAlertsError>) -> Seq<Seq<char>> {
    if !debug {
        seq![]
    } else {
        match result {
            Ok(r) => seq![sent_line(r.workspace@, r.channel@)] + r.warnings@.map_values(
                |w: String| warning_line(w@),
            ),
            Err(e) => seq![error_line(e)],
        }
    }
}

impl ApiAlertsClient {
    /// A new client with the given API key, the default integration headers,
    /// the production endpoint, and debug logging off.
    pub fn new(api_key: &str) -> (c: Self)
        ensures
            c@ == default_client(api_key@),
            c@.api_key == api_key@,
            c@.integration == INTEGRATION_NAME@,
            c@.integration_version == INTEGRATION_VERSION@,
            c@.base_url == API_URL@,
            !c@.debug,
    {
        ApiAlertsClient {
            api_key: api_key.to_owned(),
            integration: INTEGRATION_NAME.to_owned(),
            integration_version: INTEGRATION_VERSION.to_owned(),
            base_url: API_URL.to_owned(),
            debug: false,
        }
    }

    /// Enables or disables debug logging; nothing else changes.
    pub fn set_debug(&mut self, debug: bool)
        ensures
            final(self)@ == (ClientView { debug: debug, ..old(self)@ }),
    {
        self.debug = debug;
    }

    /// Overrides the `X-Integration` / `X-Version` headers and the endpoint;
    /// the key and the debug setting stay.
    pub fn set_overrides(&mut self, integration: &str, version: &str, base_url: &str)
        ensures
            final(self)@ == overridden(old(self)@, integration@, version@, base_url@),
    {
        self.integration = integration.to_owned();
        self.integration_version = version.to_owned();
        self.base_url = base_url.to_owned();
    }

    /// The request that posts `event` with the key `api_key`, or why it is
    /// refused before anything is sent.
    pub fn prepare_post_with_key(&self, api_key: &str, event: Event) -> (r: Result<PostRequest, ApiAlertsError>)
        ensures
            match refusal(api_key@, event.message@) {
                Some(e) => r == Err::<PostRequest, ApiAlertsError>(e),
                None => r matches Ok(req) && is_request_for(req, self@, api_key@, event),
            },
            r is Ok <==> (api_key@.len() > 0 && event.message@.len() > 0),
            r matches Ok(req) ==> {
                &&& req.event == event
                &&& req.url@ == self@.base_url
                &&& req.headers@.len() == 4
                &&& req.headers@[0].0@ == "Authorization"@
                &&& req.headers@[0].1@ == "Bearer "@ + api_key@
                &&& req.headers@[1].0@ == "Content-Type"@
                &&& req.headers@[1].1@ == "application/json"@
                &&& req.headers@[2].0@ == "X-Integration"@
                &&& req.headers@[2].1@ == self@.integration
                &&& req.headers@[3].0@ == "X-Version"@
                &&& req.headers@[3].1@ == self@.integration_version
            },
    {
        if api_key.is_empty() {
            return Err(ApiAlertsError::ApiKeyMissing);
        }
        if event.message.as_str().is_empty() {
            return Err(ApiAlertsError::MessageRequired);
        }
        let mut authorization = "Bearer ".to_owned();
        authorization.append(api_key);
        let mut headers: Vec<(String, String)> = Vec::new();
        headers.push(("Authorization".to_owned(), authorization));
        headers.push(("Content-Type".to_owned(), "application/json".to_owned()));
        headers.push(("X-Integration".to_owned(), self.integration.clone()));
        headers.push(("X-Version".to_owned(), self.integration_version.clone()));
        let req = PostRequest { url: self.base_url.clone(), headers, event };
        assert(header_views(req.headers@) =~= request_headers(self@, api_key@));
        Ok(req)
    }

    /// The request that posts `event` with this client's own key, or why it
    /// is refused before anything is sent.
    pub fn prepare_post(&self, event: Event) -> (r: Result<PostRequest, ApiAlertsError>)
        ensures
            match refusal(self@.api_key, event.message@) {
                Some(e) => r == Err::<PostRequest, ApiAlertsError>(e),
                None => r matches Ok(req) && is_request_for(req, self@, self@.api_key, event),
            },
            r is Ok <==> (self@.api_key.len() > 0 && event.message@.len() > 0),
            r matches Ok(req) ==> {
                &&& req.event == event
                &&& req.url@ == self@.base_url
                &&& req.headers@.len() == 4
                &&& req.headers@[0].0@ == "Authorization"@
                &&& req.headers@[0].1@ == "Bearer "@ + self@.api_key
                &&& req.headers@[1].0@ == "Content-Type"@
                &&& req.headers@[1].1@ == "application/json"@
                &&& req.headers@[2].0@ == "X-Integration"@
                &&& req.headers@[2].1@ == self@.integration
                &&& req.headers@[3].0@ == "X-Version"@
                &&& req.headers@[3].1@ == self@.integration_version
            },
    {
        self.prepare_post_with_key(self.api_key.as_str(), event)
    }

    /// How a fire-and-forget send of `event` with this client's own key
    /// begins: a refused event is logged, whatever the debug setting; any
    /// other is posted.
    pub fn plan_send(&self, event: Event) -> (p: SendPlan)
        ensures
            match refusal(self@.api_key, event.message@) {
                Some(e) => p matches SendPlan::Log(line) && line@ == error_line(e),
                None => p matches SendPlan::Post(req) && is_request_for(req, self@, self@.api_key, event),
            },
            p is Log <==> (self@.api_key.len() == 0 || event.message@.len() == 0),
            self@.api_key.len() == 0 ==> (p is Log && p->Log_0@ == "x (apialerts.com) Error: "@ + "api key is missing"@),
            self@.api_key.len() != 0 && event.message@.len() == 0 ==> (p is Log && p->Log_0@
                == "x (apialerts.com) Error: "@ + "message is required"@),
            p is Post ==> (p->Post_0.event == event && p->Post_0.url@ == self@.base_url
                && p->Post_0.headers@.len() == 4 && p->Post_0.headers@[0].1@ == "Bearer "@ + self@.api_key),
    {
        self.plan_send_with_key(self.api_key.as_str(), event)
    }

    /// How a fire-and-forget send of `event` with the key `api_key` begins:
    /// a refused event is logged, whatever the debug setting; any other is posted.
    pub fn plan_send_with_key(&self, api_key: &str, event: Event) -> (p: SendPlan)
        ensures
            match refusal(api_key@, event.message@) {
                Some(e) => p matches SendPlan::Log(line) && line@ == error_line(e),
                None => p matches SendPlan::Post(req) && is_request_for(req, self@, api_key@, event),
            },
            p is Log <==> (api_key@.len() == 0 || event.message@.len() == 0),
            api_key@.len() == 0 ==> (p is Log && p->Log_0@ == "x (apialerts.com) Error: "@ + "api key is missing"@),
            api_key@.len() != 0 && event.message@.len() == 0 ==> (p is Log && p->Log_0@
                == "x (apialerts.com) Error: "@ + "message is required"@),
            p is Post ==> (p->Post_0.event == event && p->Post_0.url@ == self@.base_url
                && p->Post_0.headers@.len() == 4 && p->Post_0.headers@[0].1@ == "Bearer "@ + api_key@),
    {
        match self.prepare_post_with_key(api_key, event) {
            Ok(req) => SendPlan::Post(req),
            Err(e) => SendPlan::Log(e.log_line()),
        }
    }

    /// The lines a fire-and-forget send logs once it has an outcome: none
    /// unless debug logging is on.
    pub fn delivery_log(&self, result: &Result<SendResult, ApiAlertsError>) -> (lines: Vec<String>)
        ensures
            lines@.map_values(|l: String| l@) == delivery_lines(self@.debug, *result),
            !self@.debug ==> lines@.len() == 0,
            self@.debug && result is Err ==> (lines@.len() == 1 && lines@[0]@
                == "x (apialerts.com) Error: "@ + error_text(result->Err_0)),
            self@.debug && result is Ok ==> ({
                &&& lines@.len() == result->Ok_0.warnings@.len() + 1
                &&& lines@[0]@ == "\u{2713} (apialerts.com) Alert sent to "@
                    + result->Ok_0.workspace@ + " ("@ + result->Ok_0.channel@ + ")"@
                &&& forall|i: int|
                    0 <= i < result->Ok_0.warnings@.len() ==> #[trigger] lines@[i + 1]@
                        == "! (apialerts.com) Warning: "@ + result->Ok_0.warnings@[i]@
            }),
    {
        let mut lines: Vec<String> = Vec::new();
        if !self.debug {
            assert(lines@.map_values(|l: String| l@) =~= delivery_lines(self@.debug, *result));
            return lines;
        }
        match result {
            Ok(r) => {
                let mut first = "\u{2713} (apialerts.com) Alert sent to ".to_owned();
                first.append(r.workspace.as_str());
                first.append(" (");
                first.append(r.channel.as_str());
                first.append(")");
                lines.push(first);
                let n = r.warnings.len();
                for i in 0..n
                    invariant
                        n == r.warnings@.len(),
                        lines@.len() == i + 1,
                        lines@[0]@ == sent_line(r.workspace@, r.channel@),
                        forall|j: int| 0 <= j < i ==> #[trigger] lines@[j + 1]@ == warning_line(
                            r.warnings@[j]@,
                        ),
                {
                    let mut line = "! (apialerts.com) Warning: ".to_owned();
                    line.append(r.warnings[i].as_str());
                    lines.push(line);
                }
                let ghost expected = delivery_lines(self@.debug, *result);
                let ghost warned = r.warnings@.map_values(|w: String| warning_line(w@));
                assert(expected == seq![sent_line(r.workspace@, r.channel@)] + warned);
                assert forall|j: int| 0 <= j < lines@.len() implies #[trigger] lines@[j]@
                    == expected[j] by {
                    if j > 0 {
                        assert(lines@[(j - 1) + 1]@ == warning_line(r.warnings@[j - 1]@));
                        assert(warned[j - 1] == warning_line(r.warnings@[j - 1]@));
                    }
                }
                assert(lines@.map_values(|l: String| l@) =~= expected);
            },
            Err(e) => {
                lines.push(e.log_line());
                assert(lines@.map_values(|l: String| l@) =~= delivery_lines(self@.debug, *result));
            },
        }
        lines
    }
}

// ---------------------------------------------------------------------------
// Laws

/// An event goes out exactly when both the key and the message are
/// non-empty; a missing key is what is reported when both are missing, and a
/// missing message when only it is. A refused event is logged as the error's
/// text after `x (apialerts.com) Error: `.
pub proof fn lemma_refused_exactly_when_empty(api_key: Seq<char>, message: Seq<char>, e: ApiAlertsError)
    ensures
        refusal(api_key, message) is None <==> (api_key.len() > 0 && message.len() > 0),
        api_key.len() == 0 ==> refusal(api_key, message) == Some(ApiAlertsError::ApiKeyMissing),
        api_key.len() > 0 && message.len() == 0 ==> refusal(api_key, message) == Some(
            ApiAlertsError::MessageRequired,
        ),
        error_line(e) == "x (apialerts.com) Error: "@ + error_text(e),
{
}

/// The text of each rejected status: the four documented ones, and
/// `unexpected status: ` followed by the code in decimal for every other.
pub proof fn lemma_status_texts(status: u16)
    ensures
        status_text(400) == "bad request"@,
        status_text(401) == "unauthorized - check your api key"@,
        status_text(403) == "forbidden"@,
        status_text(429) == "rate limit exceeded"@,
        status != 400 && status != 401 && status != 403 && status != 429 ==> status_text(status)
            == "unexpected status: "@ + decimal(status as nat),
{
}

/// Overriding the integration and the endpoint changes the `X-Integration`
/// and `X-Version` headers and the endpoint of every later request to the
/// given ones, and leaves the key that goes out unchanged.
pub proof fn lemma_overrides_reach_requests(
    c: ClientView,
    integration: Seq<char>,
    version: Seq<char>,
    base_url: Seq<char>,
    api_key: Seq<char>,
)
    ensures
        ({
            let o = overridden(c, integration, version, base_url);
            &&& request_headers(o, api_key)[2] == ("X-Integration"@, integration)
            &&& request_headers(o, api_key)[3] == ("X-Version"@, version)
            &&& request_headers(o, api_key)[0] == request_headers(c, api_key)[0]
            &&& o.base_url == base_url
            &&& o.api_key == c.api_key
            &&& o.debug == c.debug
        }),
{
}

/// The value of a string of decimal digits.
pub open spec fn digits_value(s: Seq<char>) -> nat
    decreases s.len(),
{
    if s.len() == 0 {
        0
    } else {
        digits_value(s.drop_last()) * 10 + digit_value(s.last())
    }
}

/// The value of a decimal digit character.
pub open spec fn digit_value(c: char) -> nat {
    if c == '1' { 1 }
    else if c == '2' { 2 }
    else if c == '3' { 3 }
    else if c == '4' { 4 }
    else if c == '5' { 5 }
    else if c == '6' { 6 }
    else if c == '7' { 7 }
    else if c == '8' { 8 }
    else if c == '9' { 9 }
    else { 0 }
}

/// `decimal` writes a number as it is read back: a non-empty string of
/// digits, with no leading zero unless the number is zero, whose value is
/// the number.
pub proof fn lemma_decimal_reads_back(n: nat)
    ensures
        decimal(n).len() > 0,
        digits_value(decimal(n)) == n,
        decimal(n)[0] == '0' ==> n == 0,
        forall|i: int| 0 <= i < decimal(n).len() ==> '0' <= #[trigger] decimal(n)[i] <= '9',
    decreases n,
{
    if n >= 10 {
        lemma_decimal_reads_back(n / 10);
        let d = decimal(n);
        assert(d.drop_last() =~= decimal(n / 10));
        assert(d.last() == digit_char(n % 10));
        assert forall|i: int| 0 <= i < d.len() implies '0' <= #[trigger] d[i] <= '9' by {
            if i < d.len() - 1 {
                assert(d[i] == decimal(n / 10)[i]);
            }
        }
        assert(d[0] == decimal(n / 10)[0]);
        assert(digit_value(digit_char(n % 10)) == n % 10);
        assert(digits_value(d) == digits_value(decimal(n / 10)) * 10 + digit_value(d.last()));
        assert(n == (n / 10) * 10 + n % 10);
        assert(digits_value(d) == n);
    } else {
        let d = decimal(n);
        assert(d.drop_last() =~= Seq::<char>::empty());
        assert(digits_value(Seq::<char>::empty()) == 0);
        assert(digit_value(digit_char(n)) == n);
        assert(digits_value(d) == digits_value(d.drop_last()) * 10 + digit_value(d.last()));
        assert(digits_value(d) == n);
    }
}

/// A new client holds exactly the key it was given, whatever its length, and
/// the default integration, version and endpoint, with debug logging off.
pub proof fn lemma_new_client_keeps_key(api_key: Seq<char>)
    ensures
        default_client(api_key).api_key == api_key,
        default_client(api_key).api_key.len() == api_key.len(),
        default_client(api_key).integration == INTEGRATION_NAME@,
        default_client(api_key).integration_version == INTEGRATION_VERSION@,
        default_client(api_key).base_url == API_URL@,
        !default_client(api_key).debug,
{
}

/// A `200` reply whose body reads as `b` is delivered with `b`'s workspace,
/// channel and every one of its warnings, in order.
pub proof fn lemma_delivery_keeps_body(reply: Result<HttpReply, String>, r: Result<SendResult, ApiAlertsError>)
    requires
        reply_outcome(reply, r),
        reply is Ok,
        reply->Ok_0.status == 200,
        reply->Ok_0.body is Some,
    ensures
        r is Ok,
        r->Ok_0.workspace == reply->Ok_0.body->Some_0.workspace,
        r->Ok_0.channel == reply->Ok_0.body->Some_0.channel,
        r->Ok_0.warnings@ == reply->Ok_0.body->Some_0.warnings@,
        r->Ok_0.warnings@.len() == reply->Ok_0.body->Some_0.warnings@.len(),
{
}

/// Every reply that is not a `200` is an error that keeps its status code,
/// and a failure to get a reply is a network error with its text.
pub proof fn lemma_failures_are_errors(reply: Result<HttpReply, String>, r: Result<SendResult, ApiAlertsError>)
    requires
        reply_outcome(reply, r),
    ensures
        reply is Ok && reply->Ok_0.status != 200 ==> (r is Err && r->Err_0 is HttpError
            && r->Err_0->HttpError_0 == reply->Ok_0.status),
        reply is Ok && reply->Ok_0.status == 200 && reply->Ok_0.body is None ==> (r is Err
            && r->Err_0 is InvalidResponse),
        reply is Err ==> (r is Err && r->Err_0 is NetworkError && r->Err_0->NetworkError_0@
            == reply->Err_0@),
{
}

/// A prepared request carries exactly the event it was prepared for (an
/// event without a channel goes out without one), to the client's endpoint,
/// with the whole key after `Bearer ` and the client's integration headers.
pub proof fn lemma_request_carries_event(req: PostRequest, c: ClientView, api_key: Seq<char>, event: Event)
    requires
        is_request_for(req, c, api_key, event),
    ensures
        req.event == event,
        req.event.channel == event.channel,
        event.channel is None ==> req.event.channel is None,
        req.url@ == c.base_url,
        req.headers@.len() == 4,
        req.headers@[0].0@ == "Authorization"@,
        req.headers@[0].1@ == "Bearer "@ + api_key,
        req.headers@[1].0@ == "Content-Type"@,
        req.headers@[1].1@ == "application/json"@,
        req.headers@[2].0@ == "X-Integration"@,
        req.headers@[2].1@ == c.integration,
        req.headers@[3].0@ == "X-Version"@,
        req.headers@[3].1@ == c.integration_version,
{
    assert(header_views(req.headers@).len() == req.headers@.len());
    assert(request_headers(c, api_key).len() == 4);
    assert(header_views(req.headers@)[0] == (req.headers@[0].0@, req.headers@[0].1@));
    assert(header_views(req.headers@)[1] == (req.headers@[1].0@, req.headers@[1].1@));
    assert(header_views(req.headers@)[2] == (req.headers@[2].0@, req.headers@[2].1@));
    assert(header_views(req.headers@)[3] == (req.headers@[3].0@, req.headers@[3].1@));
}

/// With debug logging on, every error, whatever its kind, is logged as one
/// line: its text after `x (apialerts.com) Error: `; with it off, no outcome
/// is logged.
pub proof fn lemma_debug_logs_every_error(e: ApiAlertsError, result: Result<SendResult, ApiAlertsError>)
    ensures
        delivery_lines(true, Err(e)).len() == 1,
        delivery_lines(true, Err(e))[0] == "x (apialerts.com) Error: "@ + error_text(e),
        delivery_lines(false, result).len() == 0,
        error_text(ApiAlertsError::NotConfigured) == "client not configured"@,
        error_text(ApiAlertsError::ApiKeyMissing) == "api key is missing"@,
        error_text(ApiAlertsError::MessageRequired) == "message is required"@,
        e matches ApiAlertsError::NetworkError(m) ==> error_text(e) == m@,
        e matches ApiAlertsError::HttpError(_, m) ==> error_text(e) == m@,
        error_text(ApiAlertsError::InvalidResponse) == "invalid response from server"@,
{
}

} // verus!
