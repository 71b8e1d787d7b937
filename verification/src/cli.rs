use vstd::prelude::*;

use crate::client::{header_views, API_URL, INTEGRATION_NAME};

verus! {

/// The `X-Version` header that the command-line client sends.
pub const CLI_VERSION: &'static str = "1.0.0";

/// The minimal command-line client: an API key, sent with every message.
#[derive(Debug, Clone)]
pub struct Client {
    api_key: String,
}

impl View for Client {
    type V = Seq<char>;

    /// The client's API key.
    closed spec fn view(&self) -> Seq<char> {
        self.api_key@
    }
}

/// A message ready to go out from the command-line client: where to, with
/// which headers, and the fields of its JSON body.
#[derive(Debug)]
pub struct CliRequest {
    pub url: String,
    pub headers: Vec<(String, String)>,
    pub message: String,
    pub tags: Vec<String>,
    pub link: String,
}

/// The headers, name and value, that the command-line client posts with.
pub open spec fn cli_headers(api_key: Seq<char>) -> Seq<(Seq<char>, Seq<char>)> {
    seq![
        ("Authorization"@, "Bearer "@ + api_key),
        ("Content-Type"@, "application/json"@),
        ("X-Integration"@, INTEGRATION_NAME@),
        ("X-Version"@, CLI_VERSION@),
    ]
}

/// The error text of the command-line client for a reply's status code;
/// `None` for a `200`.
pub open spec fn cli_status_text(status: u16) -> Option<Seq<char>> {
    if status == 200 {
        None
    } else if status == 400 {
        Some("bad request"@)
    } else if status == 401 {
        Some("unauthorized"@)
    } else if status == 403 {
        Some("forbidden"@)
    } else if status == 429 {
        Some("rate limit exceeded"@)
    } else {
        Some("unknown error"@)
    }
}

impl Client {
    /// A client with the key found in the environment, or an empty key when
    /// there is none.
    pub fn new(env_api_key: Option<String>) -> (c: Self)
        ensures
            c@ == (match env_api_key {
                Some(k) => k@,
                None => Seq::<char>::empty(),
            }),
    {
        match env_api_key {
            Some(k) => Client { api_key: k },
            None => Client { api_key: String::new() },
        }
    }

    /// Replaces the key.
    pub fn set_api_key(&mut self, api_key: String)
        ensures
            final(self)@ == api_key@,
    {
        self.api_key = api_key;
    }

    /// The request that sends `message` with `tags` and `link`, or the text
    /// of why it is refused: a missing key before a missing message.
    pub fn prepare_send(&self, message: &str, tags: &[String], link: &str) -> (r: Result<CliRequest, String>)
        ensures
            self@.len() == 0 ==> (r matches Err(e) && e@ == "api key is missing"@),
            self@.len() != 0 && message@.len() == 0 ==> (r matches Err(e) && e@
                == "message is required"@),
            self@.len() != 0 && message@.len() != 0 ==> (r matches Ok(req) && {
                &&& req.url@ == API_URL@
                &&& header_views(req.headers@) == cli_headers(self@)
                &&& req.headers@.len() == 4
                &&& req.headers@[0].0@ == "Authorization"@
                &&& req.headers@[0].1@ == "Bearer "@ + self@
                &&& req.headers@[1].0@ == "Content-Type"@
                &&& req.headers@[1].1@ == "application/json"@
                &&& req.headers@[2].0@ == "X-Integration"@
                &&& req.headers@[2].1@ == INTEGRATION_NAME@
                &&& req.headers@[3].0@ == "X-Version"@
                &&& req.headers@[3].1@ == CLI_VERSION@
                &&& req.message@ == message@
                &&& req.tags@ == tags@
                &&& req.link@ == link@
            }),
    {
        if self.api_key.as_str().is_empty() {
            return Err("api key is missing".to_owned());
        }
        if message.is_empty() {
            return Err("message is required".to_owned());
        }
        let mut owned: Vec<String> = Vec::new();
        let n = tags.len();
        for i in 0..n
            invariant
                n == tags@.len(),
                owned@.len() == i,
                forall|j: int| 0 <= j < i ==> #[trigger] owned@[j] == tags@[j],
        {
            owned.push(tags[i].clone());
        }
        assert(owned@ =~= tags@);
        let mut authorization = "Bearer ".to_owned();
        authorization.append(self.api_key.as_str());
        let mut headers: Vec<(String, String)> = Vec::new();
        headers.push(("Authorization".to_owned(), authorization));
        headers.push(("Content-Type".to_owned(), "application/json".to_owned()));
        headers.push(("X-Integration".to_owned(), INTEGRATION_NAME.to_owned()));
        headers.push(("X-Version".to_owned(), CLI_VERSION.to_owned()));
        assert(header_views(headers@) =~= cli_headers(self@));
        Ok(
            CliRequest {
                url: API_URL.to_owned(),
                headers,
                message: message.to_owned(),
                tags: owned,
                link: link.to_owned(),
            },
        )
    }
}

/// What the command-line client makes of a reply's status code: `Ok` for a
/// `200`, else the text of the error.
pub fn status_outcome(status: u16) -> (r: Result<(), String>)
    ensures
        match cli_status_text(status) {
            None => r is Ok,
            Some(t) => r matches Err(e) && e@ == t,
        },
        r is Ok <==> status == 200,
        status == 400 ==> r is Err && r->Err_0@ == "bad request"@,
        status == 401 ==> r is Err && r->Err_0@ == "unauthorized"@,
        status == 403 ==> r is Err && r->Err_0@ == "forbidden"@,
        status == 429 ==> r is Err && r->Err_0@ == "rate limit exceeded"@,
        status != 200 && status != 400 && status != 401 && status != 403 && status != 429 ==> r is Err
            && r->Err_0@ == "unknown error"@,
{
    if status == 200 {
        Ok(())
    } else if status == 400 {
        Err("bad request".to_owned())
    } else if status == 401 {
        Err("unauthorized".to_owned())
    } else if status == 403 {
        Err("forbidden".to_owned())
    } else if status == 429 {
        Err("rate limit exceeded".to_owned())
    } else {
        Err("unknown error".to_owned())
    }
}

/// The line printed once a message was delivered to `project`.
pub fn success_line(project: &str) -> (s: String)
    ensures
        s@ == "\u{2713} (apialerts.com) Alert sent to "@ + project@ + " successfully."@,
{
    let mut s = "\u{2713} (apialerts.com) Alert sent to ".to_owned();
    s.append(project);
    s.append(" successfully.");
    s
}

/// The command-line client sends its whole key, whatever its length, after
/// `Bearer `, along with the fixed JSON content type, integration and version.
pub proof fn lemma_cli_sends_whole_key(api_key: Seq<char>)
    ensures
        cli_headers(api_key).len() == 4,
        cli_headers(api_key)[0] == ("Authorization"@, "Bearer "@ + api_key),
        cli_headers(api_key)[0].1.len() == "Bearer "@.len() + api_key.len(),
        cli_headers(api_key)[0].1.subrange("Bearer "@.len() as int, cli_headers(api_key)[0].1.len() as int)
            == api_key,
        cli_headers(api_key)[1] == ("Content-Type"@, "application/json"@),
        cli_headers(api_key)[2] == ("X-Integration"@, INTEGRATION_NAME@),
        cli_headers(api_key)[3] == ("X-Version"@, CLI_VERSION@),
{
    let h = "Bearer "@ + api_key;
    assert(h.subrange("Bearer "@.len() as int, h.len() as int) =~= api_key);
}

} // verus!
