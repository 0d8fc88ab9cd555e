//! What one poll of the graph endpoint yields, and how it is decoded from
//! the body of a reply.

use crate::json;
use crate::json::json_of;
use crate::json::json_parsed;
use crate::json::Json;
use crate::status::status_of_field;
use crate::status::GraphResponseStatuses;
use vstd::prelude::*;

verus! {

/// A computed graph as the service sent it: a JSON object that is stored and
/// handed on, never looked into.
#[derive(Debug, PartialEq)]
pub struct GraphSnapshot {
    value: serde_json::Value,
}

impl View for GraphSnapshot {
    type V = Json;

    closed spec fn view(&self) -> Json {
        json_of(self.value)
    }
}

impl Clone for GraphSnapshot {
    fn clone(&self) -> (copy: Self)
        ensures
            copy@ == self@,
    {
        proof {
            use_type_invariant(self);
        }
        GraphSnapshot { value: self.value.clone() }
    }
}

impl GraphSnapshot {
    /// A graph is always a JSON object.
    #[verifier::type_invariant]
    spec fn holds_object(self) -> bool {
        json_of(self.value) is Object
    }

    /// Takes `value` as a graph, provided it is a JSON object.
    pub fn from_value(value: serde_json::Value) -> (graph: Option<GraphSnapshot>)
        ensures
            graph is Some <==> json_of(value) is Object,
            graph matches Some(g) ==> g@ == json_of(value),
    {
        if value.is_object() {
            Some(GraphSnapshot { value })
        } else {
            None
        }
    }

    /// The JSON object that makes up the graph.
    pub fn as_value(&self) -> (value: &serde_json::Value)
        ensures
            json_of(*value) == self@,
            self@ is Object,
    {
        proof {
            use_type_invariant(self);
        }
        &self.value
    }

    /// Gives up the JSON object that makes up the graph.
    pub fn into_value(self) -> (value: serde_json::Value)
        ensures
            json_of(value) == self@,
            self@ is Object,
    {
        proof {
            use_type_invariant(&self);
        }
        self.value
    }
}

/// How far the computation has come, as the service sent it: a JSON number
/// that is stored and handed on, never computed with.
#[derive(Debug, PartialEq)]
pub struct Progress {
    value: serde_json::Value,
}

impl View for Progress {
    type V = Json;

    closed spec fn view(&self) -> Json {
        json_of(self.value)
    }
}

impl Clone for Progress {
    fn clone(&self) -> (copy: Self)
        ensures
            copy@ == self@,
    {
        proof {
            use_type_invariant(self);
        }
        Progress { value: self.value.clone() }
    }
}

impl Progress {
    /// A progress is always a JSON number.
    #[verifier::type_invariant]
    spec fn holds_number(self) -> bool {
        json_of(self.value) is Number
    }

    /// Takes `value` as a progress, provided it is a JSON number.
    pub fn from_value(value: serde_json::Value) -> (progress: Option<Progress>)
        ensures
            progress is Some <==> json_of(value) is Number,
            progress matches Some(p) ==> p@ == json_of(value),
    {
        if value.is_number() {
            Some(Progress { value })
        } else {
            None
        }
    }

    /// The JSON number that tells the progress.
    pub fn as_value(&self) -> (value: &serde_json::Value)
        ensures
            json_of(*value) == self@,
            self@ is Number,
    {
        proof {
            use_type_invariant(self);
        }
        &self.value
    }

    /// Gives up the JSON number that tells the progress.
    pub fn into_value(self) -> (value: serde_json::Value)
        ensures
            json_of(value) == self@,
            self@ is Number,
    {
        proof {
            use_type_invariant(&self);
        }
        self.value
    }
}

/// The outcome of one successful poll.
#[derive(Debug, PartialEq)]
pub struct GraphResponse {
    pub status: GraphResponseStatuses,
    pub graph_json: Option<GraphSnapshot>,
    pub progress: Option<Progress>,
}

/// A [`GraphResponse`] with its graph and its progress as mathematical
/// trees.
pub struct GraphResponseView {
    pub status: GraphResponseStatuses,
    pub graph_json: Option<Json>,
    pub progress: Option<Json>,
}

/// The tree of a graph that may be absent.
pub open spec fn graph_view(graph: Option<GraphSnapshot>) -> Option<Json> {
    match graph {
        Some(g) => Some(g@),
        None => None,
    }
}

/// The tree of a progress that may be absent.
pub open spec fn progress_view(progress: Option<Progress>) -> Option<Json> {
    match progress {
        Some(p) => Some(p@),
        None => None,
    }
}

impl View for GraphResponse {
    type V = GraphResponseView;

    open spec fn view(&self) -> GraphResponseView {
        GraphResponseView {
            status: self.status,
            graph_json: graph_view(self.graph_json),
            progress: progress_view(self.progress),
        }
    }
}

impl Clone for GraphResponse {
    fn clone(&self) -> (copy: Self)
        ensures
            copy@ == self@,
    {
        GraphResponse {
            status: self.status,
            graph_json: match &self.graph_json {
                Some(g) => Some(g.clone()),
                None => None,
            },
            progress: match &self.progress {
                Some(p) => Some(p.clone()),
                None => None,
            },
        }
    }
}

/// Why a request did not yield what was asked for.
#[derive(Clone, Debug, PartialEq, Eq)]
pub enum ClientError {
    /// No reply arrived: the connection failed or timed out. Holds the
    /// transport's own description.
    TransportFailure(String),
    /// The reply carried an HTTP status that the request does not accept.
    BadHttpStatus(u16),
    /// The body of the reply could not be decoded.
    DecodeFailure,
    /// The body is valid JSON but lacks the field asked for, or holds a value
    /// of another kind there.
    BadField,
}

/// A [`ClientError`] with its text as a sequence of characters.
pub enum ClientErrorView {
    TransportFailure(Seq<char>),
    BadHttpStatus(u16),
    DecodeFailure,
    BadField,
}

impl View for ClientError {
    type V = ClientErrorView;

    open spec fn view(&self) -> ClientErrorView {
        match self {
            ClientError::TransportFailure(detail) => ClientErrorView::TransportFailure(detail@),
            ClientError::BadHttpStatus(code) => ClientErrorView::BadHttpStatus(*code),
            ClientError::DecodeFailure => ClientErrorView::DecodeFailure,
            ClientError::BadField => ClientErrorView::BadField,
        }
    }
}

/// What came back from one GET.
#[derive(Clone, Debug, PartialEq, Eq)]
pub enum TransportReply {
    /// No reply arrived; holds the transport's own description of why.
    Failed(String),
    /// A reply arrived with this HTTP status code and raw body.
    Response { status: u16, body: Vec<u8> },
}

/// A [`TransportReply`] with its text and bytes as sequences.
pub enum TransportReplyView {
    Failed(Seq<char>),
    Response { status: u16, body: Seq<u8> },
}

impl View for TransportReply {
    type V = TransportReplyView;

    open spec fn view(&self) -> TransportReplyView {
        match self {
            TransportReply::Failed(detail) => TransportReplyView::Failed(detail@),
            TransportReply::Response { status, body } => TransportReplyView::Response {
                status: *status,
                body: body@,
            },
        }
    }
}

/// Whether an HTTP status code reports success.
pub open spec fn is_success(status: u16) -> bool {
    200 <= status < 300
}

/// Whether an HTTP status code reports success.
pub fn status_is_success(status: u16) -> (success: bool)
    ensures
        success == is_success(status),
{
    200 <= status && status < 300
}

/// What the status field of a body holds: its characters where it is a
/// string, nothing where it is missing or of another kind.
pub open spec fn status_text(body: Json) -> Option<Seq<char>> {
    match body.member("status"@) {
        Some(field) => field.text(),
        None => None,
    }
}

/// The graph that a body carries. A missing or `null` field carries none, an
/// object is the graph, and anything else cannot be decoded (outer `None`).
pub open spec fn graph_field(body: Json) -> Option<Option<Json>> {
    match body.member("graph_json"@) {
        None => Some(None),
        Some(Json::Null) => Some(None),
        Some(Json::Object(members)) => Some(Some(Json::Object(members))),
        Some(_) => None,
    }
}

/// The progress that a body reports. A missing or `null` field reports none,
/// a number is the progress, and anything else cannot be decoded (outer
/// `None`).
pub open spec fn progress_field(body: Json) -> Option<Option<Json>> {
    match body.member("progress"@) {
        None => Some(None),
        Some(Json::Null) => Some(None),
        Some(Json::Number(number)) => Some(Some(Json::Number(number))),
        Some(_) => None,
    }
}

/// The outcome that a JSON body decodes to, if it decodes. The status never
/// stands in the way: one that is missing or unknown is read as `Error`.
pub open spec fn decoded(body: Json) -> Option<GraphResponseView> {
    match (graph_field(body), progress_field(body)) {
        (Some(graph_json), Some(progress)) => Some(
            GraphResponseView {
                status: status_of_field(status_text(body)),
                graph_json,
                progress,
            },
        ),
        _ => None,
    }
}

/// The outcome that the raw bytes of a body decode to: they must spell JSON,
/// and that JSON must decode.
pub open spec fn decoded_bytes(bytes: Seq<u8>) -> Option<GraphResponseView> {
    match json_parsed(bytes) {
        Some(body) => decoded(body),
        None => None,
    }
}

/// The characters of a string that may be absent.
pub open spec fn text_view(text: Option<&str>) -> Option<Seq<char>> {
    match text {
        Some(chars) => Some(chars@),
        None => None,
    }
}

impl GraphResponse {
    /// The outcome reported when nothing else is known: a generic error
    /// without graph or progress.
    pub fn unknown() -> (outcome: GraphResponse)
        ensures
            outcome@ == (GraphResponseView {
                status: GraphResponseStatuses::Error,
                graph_json: None,
                progress: None,
            }),
    {
        GraphResponse { status: GraphResponseStatuses::Error, graph_json: None, progress: None }
    }

    /// An outcome from the fields of a body. The status is the one that
    /// `status` spells; where it spells none, or is missing, the outcome is
    /// still built and its status is `Error`.
    pub fn from_fields(
        status: Option<&str>,
        graph_json: Option<GraphSnapshot>,
        progress: Option<Progress>,
    ) -> (outcome: GraphResponse)
        ensures
            outcome@ == (GraphResponseView {
                status: status_of_field(text_view(status)),
                graph_json: graph_view(graph_json),
                progress: progress_view(progress),
            }),
    {
        GraphResponse { status: GraphResponseStatuses::from_field(status), graph_json, progress }
    }

    /// Decodes a parsed body.
    pub fn from_value(body: &serde_json::Value) -> (outcome: Result<GraphResponse, ClientError>)
        ensures
            match outcome {
                Ok(response) => decoded(json_of(*body)) == Some(response@),
                Err(error) => decoded(json_of(*body)) is None && error@
                    == ClientErrorView::DecodeFailure,
            },
    {
        let status = match json::member(body, "status") {
            Some(field) => field.as_str(),
            None => None,
        };
        let graph_json = match json::member(body, "graph_json") {
            None => None,
            Some(field) => {
                if field.is_null() {
                    None
                } else {
                    match GraphSnapshot::from_value(field.clone()) {
                        Some(graph) => Some(graph),
                        None => {
                            return Err(ClientError::DecodeFailure);
                        },
                    }
                }
            },
        };
        let progress = match json::member(body, "progress") {
            None => None,
            Some(field) => {
                if field.is_null() {
                    None
                } else {
                    match Progress::from_value(field.clone()) {
                        Some(progress) => Some(progress),
                        None => {
                            return Err(ClientError::DecodeFailure);
                        },
                    }
                }
            },
        };
        Ok(GraphResponse::from_fields(status, graph_json, progress))
    }

    /// Decodes the raw body of a reply.
    pub fn decode(bytes: &[u8]) -> (outcome: Result<GraphResponse, ClientError>)
        ensures
            match outcome {
                Ok(response) => decoded_bytes(bytes@) == Some(response@),
                Err(error) => decoded_bytes(bytes@) is None && error@
                    == ClientErrorView::DecodeFailure,
            },
    {
        match json::parse(bytes) {
            Ok(body) => GraphResponse::from_value(&body),
            Err(_) => Err(ClientError::DecodeFailure),
        }
    }
}

} // verus!
