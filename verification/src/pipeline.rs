//! Logging of queries to a remote SQL pipeline: a batch of statements to
//! execute, closed at its end, posted as one JSON document. It stands beside
//! the chat flow, which never calls it.

use vstd::prelude::*;
use crate::json::{json_string, json_string_text};
use crate::transport::{HttpRequest, HttpRequestView, json_post};

verus! {

/// Where the batches are posted.
pub const PIPELINE_URL: &'static str = "https://log-seungjin.turso.io/v2/pipeline";

/// How many seconds the connection to the pipeline may take to come about.
pub const PIPELINE_TIMEOUT_SECS: u64 = 5;

/// What is said where the pipeline's key is missing.
pub const MISSING_KEY_NOTICE: &'static str = "Can't find TURSO_API_KEY.";

/// What a request of a batch asks for.
#[derive(Debug, Clone, Copy, PartialEq, Eq, Structural)]
pub enum RequestType {
    Execute,
    Close,
}

impl RequestType {
    /// The name of the type on the wire.
    pub open spec fn name(self) -> Seq<char> {
        match self {
            RequestType::Execute => "execute"@,
            RequestType::Close => "close"@,
        }
    }

    /// The name of the type on the wire.
    pub fn as_str(self) -> (name: &'static str)
        ensures
            name@ == self.name(),
    {
        match self {
            RequestType::Execute => "execute",
            RequestType::Close => "close",
        }
    }
}

/// One SQL statement.
#[derive(Debug, PartialEq, Eq)]
pub struct Statement {
    pub sql: String,
}

/// One request of a batch.
#[derive(Debug, PartialEq, Eq)]
pub struct Request {
    pub type_: RequestType,
    pub stmt: Option<Statement>,
}

/// A request as mathematics sees it.
pub struct RequestView {
    pub type_: RequestType,
    pub stmt: Option<Seq<char>>,
}

impl View for Request {
    type V = RequestView;

    open spec fn view(&self) -> RequestView {
        RequestView {
            type_: self.type_,
            stmt: match self.stmt {
                Some(statement) => Some(statement.sql@),
                None => None,
            },
        }
    }
}

/// A batch of requests.
#[derive(Debug, PartialEq, Eq)]
pub struct Body {
    pub requests: Vec<Request>,
}

/// The views of a sequence of requests, in order.
pub open spec fn request_views(requests: Seq<Request>) -> Seq<RequestView> {
    requests.map_values(|r: Request| r@)
}

impl View for Body {
    type V = Seq<RequestView>;

    open spec fn view(&self) -> Seq<RequestView> {
        request_views(self.requests@)
    }
}

/// The batch that logs `queries`: one request to execute each, in order,
/// and one to close after the last.
pub open spec fn batch_of(queries: Seq<Seq<char>>) -> Seq<RequestView> {
    Seq::new(
        queries.len() + 1,
        |i: int|
            if 0 <= i < queries.len() {
                RequestView { type_: RequestType::Execute, stmt: Some(queries[i]) }
            } else {
                RequestView { type_: RequestType::Close, stmt: None }
            },
    )
}

/// The JSON object of one request: `{"type":".."}`, with
/// `"stmt":{"sql":".."}` after the type where it has a statement.
pub open spec fn request_json(request: RequestView) -> Seq<char> {
    match request.stmt {
        Some(sql) => "{\"type\":\""@ + request.type_.name() + "\",\"stmt\":{\"sql\":"@
            + json_string_text(sql) + "}}"@,
        None => "{\"type\":\""@ + request.type_.name() + "\"}"@,
    }
}

/// The JSON objects of the requests, in order, with a comma between each two.
pub open spec fn requests_json(requests: Seq<RequestView>) -> Seq<char>
    decreases requests.len(),
{
    if requests.len() == 0 {
        Seq::empty()
    } else if requests.len() == 1 {
        request_json(requests[0])
    } else {
        requests_json(requests.drop_last()) + ","@ + request_json(requests.last())
    }
}

/// The JSON text of a batch: `{"requests":[..]}`.
pub open spec fn batch_json(requests: Seq<RequestView>) -> Seq<char> {
    "{\"requests\":["@ + requests_json(requests) + "]}"@
}

/// The characters of each query, in order.
pub open spec fn query_views(queries: Seq<String>) -> Seq<Seq<char>> {
    queries.map_values(|q: String| q@)
}

/// Writes the JSON object of `request` at the end of `out`.
fn push_request(out: &mut String, request: &Request)
    ensures
        final(out)@ == old(out)@ + request_json(request@),
{
    out.append("{\"type\":\"");
    out.append(request.type_.as_str());
    match &request.stmt {
        Some(statement) => {
            out.append("\",\"stmt\":{\"sql\":");
            let sql = json_string(statement.sql.as_str());
            out.append(sql.as_str());
            out.append("}}");
        },
        None => {
            out.append("\"}");
        },
    }
    assert(final(out)@ =~= old(out)@ + request_json(request@));
}

impl Body {
    /// The batch that logs `queries`.
    pub fn for_queries(queries: &Vec<String>) -> (body: Body)
        ensures
            body@ == batch_of(query_views(queries@)),
    {
        let mut requests: Vec<Request> = Vec::new();
        let mut i: usize = 0;
        while i < queries.len()
            invariant
                i <= queries.len(),
                requests@.len() == i,
                forall|k: int|
                    0 <= k < i ==> (#[trigger] requests@[k])@ == (RequestView {
                        type_: RequestType::Execute,
                        stmt: Some(queries@[k]@),
                    }),
            decreases queries.len() - i,
        {
            requests.push(
                Request {
                    type_: RequestType::Execute,
                    stmt: Some(Statement { sql: queries[i].clone() }),
                },
            );
            i += 1;
        }
        requests.push(Request { type_: RequestType::Close, stmt: None });
        let body = Body { requests };
        assert(body@ =~= batch_of(query_views(queries@)));
        body
    }

    /// The JSON text of this batch.
    pub fn to_json(&self) -> (text: String)
        ensures
            text@ == batch_json(self@),
    {
        let mut out = String::new();
        out.append("{\"requests\":[");
        let ghost head = out@;
        let ghost views = self@;
        assert(head =~= "{\"requests\":["@);
        assert(views.take(0) =~= Seq::<RequestView>::empty());
        let mut i: usize = 0;
        while i < self.requests.len()
            invariant
                i <= self.requests.len(),
                views == request_views(self.requests@),
                out@ == head + requests_json(views.take(i as int)),
            decreases self.requests.len() - i,
        {
            if i > 0 {
                out.append(",");
            }
            push_request(&mut out, &self.requests[i]);
            proof {
                let before = views.take(i as int);
                let after = views.take(i + 1);
                assert(after.drop_last() =~= before);
                assert(after.last() == self.requests@[i as int]@);
                assert(out@ =~= head + requests_json(after));
            }
            i += 1;
        }
        assert(views.take(i as int) =~= views);
        out.append("]}");
        assert(out@ =~= batch_json(self@));
        out
    }
}

/// What a run of the logger does.
#[derive(Debug, PartialEq, Eq)]
pub enum Logging {
    /// Say [`MISSING_KEY_NOTICE`]; nothing is sent.
    MissingKey,
    /// Send this request, once.
    Send(HttpRequest),
}

/// A run of the logger as mathematics sees it.
pub enum LoggingView {
    MissingKey,
    Send(HttpRequestView),
}

impl View for Logging {
    type V = LoggingView;

    open spec fn view(&self) -> LoggingView {
        match self {
            Logging::MissingKey => LoggingView::MissingKey,
            Logging::Send(request) => LoggingView::Send(request@),
        }
    }
}

/// What a run of the logger does with this key and these queries: without a
/// key it sends nothing, and with one it posts the batch of the queries to
/// [`PIPELINE_URL`].
pub open spec fn logging_of(api_key: Option<Seq<char>>, queries: Seq<Seq<char>>) -> LoggingView {
    match api_key {
        None => LoggingView::MissingKey,
        Some(key) => LoggingView::Send(
            json_post(
                PIPELINE_URL@,
                key,
                batch_json(batch_of(queries)),
                PIPELINE_TIMEOUT_SECS as nat,
            ),
        ),
    }
}

impl Logging {
    /// The number that a run reports once it is through: -1 where the key
    /// was missing, 1 where the batch was sent.
    pub open spec fn status_of(self) -> int {
        match self {
            Logging::MissingKey => -1,
            Logging::Send(_) => 1,
        }
    }

    /// The number of [`Logging::status_of`].
    pub fn status(&self) -> (code: i32)
        ensures
            code as int == self.status_of(),
    {
        match self {
            Logging::MissingKey => -1,
            Logging::Send(_) => 1,
        }
    }
}

/// Decides what a run of the logger does. `api_key` is the key that the
/// environment holds, if it holds one.
pub fn plan_logging(api_key: Option<String>, queries: &Vec<String>) -> (plan: Logging)
    ensures
        plan@ == logging_of(
            match api_key {
                Some(key) => Some(key@),
                None => None,
            },
            query_views(queries@),
        ),
{
    match api_key {
        None => Logging::MissingKey,
        Some(key) => {
            let text = Body::for_queries(queries).to_json();
            Logging::Send(
                HttpRequest::post_json(
                    PIPELINE_URL,
                    key.as_str(),
                    text.as_str(),
                    PIPELINE_TIMEOUT_SECS,
                ),
            )
        },
    }
}

} // verus!
