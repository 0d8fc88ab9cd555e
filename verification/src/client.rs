//! The client: where the service lives, which credential to present, which
//! URLs to ask and how to read each answer.

use crate::aggregate::aggregate;
use crate::aggregate::final_outcome;
use crate::graph::PaperID;
use crate::json;
use crate::json::json_of;
use crate::json::json_parsed;
use crate::json::Json;
use crate::poll::action;
use crate::poll::attempts_of;
use crate::poll::default_config;
use crate::poll::element_view;
use crate::poll::initial_state;
use crate::poll::run;
use crate::poll::GraphPoll;
use crate::poll::PollAction;
use crate::poll::PollConfig;
use crate::poll::PollRules;
use crate::response::is_success;
use crate::response::status_is_success;
use crate::response::ClientError;
use crate::response::ClientErrorView;
use crate::response::GraphResponse;
use crate::response::TransportReply;
use crate::response::TransportReplyView;
use crate::text::concat;
use vstd::prelude::*;
use vstd::string::*;

verus! {

/// Where the service is reached unless another address is given.
pub const DEFAULT_SERVER_ADDR: &'static str = "https://api.connectedpapers.com";

/// The credential presented unless another one is given.
pub const DEFAULT_ACCESS_TOKEN: &'static str = "TEST_TOKEN";

/// Name of the variable that, when set, overrides the address of the service.
pub const SERVER_ADDR_VARIABLE: &'static str = "CONNECTED_PAPERS_REST_API";

/// Name of the variable that, when set, overrides the credential.
pub const ACCESS_TOKEN_VARIABLE: &'static str = "CONNECTED_PAPERS_API_KEY";

/// The header in which every request carries the credential.
pub const API_KEY_HEADER: &'static str = "X-Api-Key";

/// One GET to perform: its URL and the credential for its header.
#[derive(Clone, Debug, PartialEq, Eq)]
pub struct ApiRequest {
    pub url: String,
    pub api_key: String,
}

/// The path of the graph endpoint for one paper.
pub open spec fn graph_path(fresh_only: bool, paper_id: Seq<char>) -> Seq<char> {
    "/papers-api/graph/"@ + (if fresh_only {
        "1"@
    } else {
        "0"@
    }) + "/"@ + paper_id
}

/// The remaining quota that a decoded body reports: the integer under
/// `remaining_uses`, cut to 32 bits.
pub open spec fn remaining_usages_in(body: Json) -> Result<i32, ClientErrorView> {
    match body.member("remaining_uses"@) {
        Some(field) => match field.int64() {
            Some(uses) => Ok(uses as i32),
            None => Err(ClientErrorView::BadField),
        },
        None => Err(ClientErrorView::BadField),
    }
}

/// The strings among `items`, in order.
pub open spec fn texts_in(items: Seq<Json>) -> Seq<Seq<char>> {
    items.filter_map(|item: Json| item.text())
}

/// The paper identifiers that a decoded body lists: the strings of the array
/// under `papers`. Elements that are no strings are passed over.
pub open spec fn free_access_papers_in(body: Json) -> Result<Seq<Seq<char>>, ClientErrorView> {
    match body.member("papers"@) {
        Some(Json::Array(items)) => Ok(texts_in(items)),
        _ => Err(ClientErrorView::BadField),
    }
}

/// The JSON body of a reply to a plain GET: the reply must have arrived, its
/// status must report success and its body must spell JSON.
pub open spec fn body_of(reply: TransportReplyView) -> Result<Json, ClientErrorView> {
    match reply {
        TransportReplyView::Failed(detail) => Err(ClientErrorView::TransportFailure(detail)),
        TransportReplyView::Response { status, body } => if !is_success(status) {
            Err(ClientErrorView::BadHttpStatus(status))
        } else {
            match json_parsed(body) {
                Some(parsed) => Ok(parsed),
                None => Err(ClientErrorView::DecodeFailure),
            }
        },
    }
}

/// The remaining quota that a reply reports.
pub open spec fn remaining_usages_of(reply: TransportReplyView) -> Result<i32, ClientErrorView> {
    match body_of(reply) {
        Ok(body) => remaining_usages_in(body),
        Err(error) => Err(error),
    }
}

/// The paper identifiers that a reply lists.
pub open spec fn free_access_papers_of(reply: TransportReplyView) -> Result<
    Seq<Seq<char>>,
    ClientErrorView,
> {
    match body_of(reply) {
        Ok(body) => free_access_papers_in(body),
        Err(error) => Err(error),
    }
}

/// A result with its error as a mathematical value.
pub open spec fn error_view<T>(result: Result<T, ClientError>) -> Result<T, ClientErrorView> {
    match result {
        Ok(value) => Ok(value),
        Err(error) => Err(error@),
    }
}

/// A list of identifiers, or the error in its place, as mathematical values.
pub open spec fn papers_view(result: Result<Vec<PaperID>, ClientError>) -> Result<
    Seq<Seq<char>>,
    ClientErrorView,
> {
    match result {
        Ok(papers) => Ok(papers.deep_view()),
        Err(error) => Err(error@),
    }
}

/// Reads the JSON body of a reply to a plain GET.
fn read_body(reply: &TransportReply) -> (body: Result<serde_json::Value, ClientError>)
    ensures
        match body {
            Ok(value) => body_of(reply@) == Ok::<Json, ClientErrorView>(json_of(value)),
            Err(error) => body_of(reply@) == Err::<Json, ClientErrorView>(error@),
        },
{
    match reply {
        TransportReply::Failed(detail) => Err(ClientError::TransportFailure(detail.clone())),
        TransportReply::Response { status, body } => {
            if !status_is_success(*status) {
                Err(ClientError::BadHttpStatus(*status))
            } else {
                match json::parse(body.as_slice()) {
                    Ok(value) => Ok(value),
                    Err(_) => Err(ClientError::DecodeFailure),
                }
            }
        },
    }
}

/// Reads the remaining quota out of a decoded body.
pub fn remaining_usages_in_value(body: &serde_json::Value) -> (uses: Result<i32, ClientError>)
    ensures
        error_view(uses) == remaining_usages_in(json_of(*body)),
{
    match json::member(body, "remaining_uses") {
        Some(field) => match field.as_i64() {
            Some(uses) => Ok(#[verifier::truncate] (uses as i32)),
            None => Err(ClientError::BadField),
        },
        None => Err(ClientError::BadField),
    }
}

/// Reads the list of freely accessible papers out of a decoded body.
pub fn free_access_papers_in_value(body: &serde_json::Value) -> (papers: Result<
    Vec<PaperID>,
    ClientError,
>)
    ensures
        papers_view(papers) == free_access_papers_in(json_of(*body)),
{
    let items = match json::member(body, "papers") {
        Some(field) => match field.as_array() {
            Some(items) => items,
            None => {
                return Err(ClientError::BadField);
            },
        },
        None => {
            return Err(ClientError::BadField);
        },
    };
    let ghost trees = json_of(*body).member("papers"@)->Some_0->Array_0;
    let mut papers: Vec<PaperID> = Vec::new();
    let mut i: usize = 0;
    assert(papers.deep_view() =~= texts_in(trees.take(0)));
    while i < items.len()
        invariant
            i <= items.len(),
            trees.len() == items@.len(),
            forall|k: int| 0 <= k < trees.len() ==> trees[k] == json_of(#[trigger] items@[k]),
            papers.deep_view() == texts_in(trees.take(i as int)),
        decreases items.len() - i,
    {
        let ghost before = papers.deep_view();
        proof {
            assert(trees.take(i + 1).drop_last() =~= trees.take(i as int));
            assert(trees.take(i + 1).last() == json_of(items@[i as int]));
        }
        match items[i].as_str() {
            Some(text) => {
                papers.push(text.to_owned());
                assert(papers.deep_view() =~= before + seq![text@]);
            },
            None => {},
        }
        i += 1;
    }
    assert(trees.take(i as int) =~= trees);
    Ok(papers)
}

/// Configuration of a client of the graph service.
#[derive(Clone, Debug)]
pub struct ConnectedPapersClient {
    access_token: String,
    server_addr: String,
    poll_config: PollConfig,
}

impl ConnectedPapersClient {
    /// The credential that every request presents.
    pub closed spec fn spec_access_token(&self) -> Seq<char> {
        self.access_token@
    }

    /// The address that every URL starts with.
    pub closed spec fn spec_server_addr(&self) -> Seq<char> {
        self.server_addr@
    }

    /// The knobs of the poll sequences that this client starts.
    pub closed spec fn spec_poll_config(&self) -> PollConfig {
        self.poll_config
    }

    /// A client for the service at `server_addr` that presents
    /// `access_token`.
    pub fn build(access_token: &str, server_addr: &str) -> (client: ConnectedPapersClient)
        ensures
            client.spec_access_token() == access_token@,
            client.spec_server_addr() == server_addr@,
            client.spec_poll_config() == default_config(),
    {
        ConnectedPapersClient {
            access_token: access_token.to_owned(),
            server_addr: server_addr.to_owned(),
            poll_config: PollConfig::default(),
        }
    }

    /// A client configured from overrides, as read from the variables
    /// [`ACCESS_TOKEN_VARIABLE`] and [`SERVER_ADDR_VARIABLE`]: each one that
    /// is absent gives way to its default.
    pub fn new(access_token: Option<String>, server_addr: Option<String>) -> (client:
        ConnectedPapersClient)
        ensures
            client.spec_access_token() == match access_token {
                Some(token) => token@,
                None => DEFAULT_ACCESS_TOKEN@,
            },
            client.spec_server_addr() == match server_addr {
                Some(addr) => addr@,
                None => DEFAULT_SERVER_ADDR@,
            },
            client.spec_poll_config() == default_config(),
    {
        let server_addr = match server_addr {
            Some(addr) => addr,
            None => DEFAULT_SERVER_ADDR.to_owned(),
        };
        let access_token = match access_token {
            Some(token) => token,
            None => DEFAULT_ACCESS_TOKEN.to_owned(),
        };
        ConnectedPapersClient { access_token, server_addr, poll_config: PollConfig::default() }
    }

    /// The same client with other knobs for its poll sequences.
    pub fn with_poll_config(self, poll_config: PollConfig) -> (client: ConnectedPapersClient)
        ensures
            client.spec_access_token() == self.spec_access_token(),
            client.spec_server_addr() == self.spec_server_addr(),
            client.spec_poll_config() == poll_config,
    {
        ConnectedPapersClient {
            access_token: self.access_token,
            server_addr: self.server_addr,
            poll_config,
        }
    }

    /// The credential that every request presents.
    pub fn access_token(&self) -> (token: &String)
        ensures
            token@ == self.spec_access_token(),
    {
        &self.access_token
    }

    /// The address that every URL starts with.
    pub fn server_addr(&self) -> (addr: &String)
        ensures
            addr@ == self.spec_server_addr(),
    {
        &self.server_addr
    }

    /// The knobs of the poll sequences that this client starts.
    pub fn poll_config(&self) -> (config: PollConfig)
        ensures
            config == self.spec_poll_config(),
    {
        self.poll_config
    }

    /// The URL that asks for the graph of `paper_id`.
    pub fn graph_url(&self, fresh_only: bool, paper_id: &str) -> (url: String)
        ensures
            url@ == self.spec_server_addr() + graph_path(fresh_only, paper_id@),
    {
        let mut url = concat(self.server_addr.as_str(), "/papers-api/graph/");
        url.append(if fresh_only {
            "1"
        } else {
            "0"
        });
        url.append("/");
        url.append(paper_id);
        assert(url@ =~= self.spec_server_addr() + graph_path(fresh_only, paper_id@));
        url
    }

    /// The request that `poll` wants made next, if it wants one.
    pub fn next_request(&self, poll: &GraphPoll) -> (request: Option<ApiRequest>)
        ensures
            match request {
                Some(get) => action(poll@) is Request && get.url@ == self.spec_server_addr()
                    + graph_path(poll@.fresh_only, poll.spec_paper_id()) && get.api_key@
                    == self.spec_access_token(),
                None => !(action(poll@) is Request),
            },
    {
        match poll.next_action() {
            PollAction::Request { fresh_only } => Some(
                ApiRequest {
                    url: self.graph_url(fresh_only, poll.paper_id().as_str()),
                    api_key: self.access_token.clone(),
                },
            ),
            _ => None,
        }
    }

    /// The request that asks for the remaining quota.
    pub fn remaining_usages_request(&self) -> (get: ApiRequest)
        ensures
            get.url@ == self.spec_server_addr() + "/papers-api/remaining-usages"@,
            get.api_key@ == self.spec_access_token(),
    {
        ApiRequest {
            url: concat(self.server_addr.as_str(), "/papers-api/remaining-usages"),
            api_key: self.access_token.clone(),
        }
    }

    /// The request that asks for the freely accessible papers.
    pub fn free_access_papers_request(&self) -> (get: ApiRequest)
        ensures
            get.url@ == self.spec_server_addr() + "/papers-api/free-access-papers"@,
            get.api_key@ == self.spec_access_token(),
    {
        ApiRequest {
            url: concat(self.server_addr.as_str(), "/papers-api/free-access-papers"),
            api_key: self.access_token.clone(),
        }
    }

    /// Starts a poll sequence for the graph of `paper_id`. What the sequence
    /// yields is decided by the replies that the caller reports to it.
    pub fn get_graph_async_iterator(
        &self,
        paper_id: String,
        initial_fresh_only: bool,
        loop_until_fresh: bool,
    ) -> (poll: GraphPoll)
        ensures
            poll.spec_paper_id() == paper_id@,
            poll.spec_rules() == (PollRules { config: self.spec_poll_config(), loop_until_fresh }),
            poll@ == initial_state(poll.spec_rules(), initial_fresh_only),
    {
        GraphPoll::new(paper_id, initial_fresh_only, loop_until_fresh, self.poll_config)
    }

    /// The final outcome of polling for the graph of `paper_id` until it is
    /// fresh, when the requests are answered by `replies`, in order.
    pub fn get_graph(&self, paper_id: String, fresh_only: bool, replies: &Vec<TransportReply>) -> (
        outcome: Result<GraphResponse, ClientError>
    )
        ensures
            element_view(outcome) == final_outcome(
                run(
                    PollRules { config: self.spec_poll_config(), loop_until_fresh: true },
                    initial_state(
                        PollRules { config: self.spec_poll_config(), loop_until_fresh: true },
                        fresh_only,
                    ),
                    attempts_of(replies@),
                ).emitted,
            ),
    {
        let mut poll = self.get_graph_async_iterator(paper_id, fresh_only, true);
        let transcript = poll.replay(replies);
        aggregate(transcript.emitted)
    }

    /// Reads the remaining quota out of the reply to
    /// [`remaining_usages_request`](Self::remaining_usages_request).
    pub fn get_remaining_usages(&self, reply: &TransportReply) -> (uses: Result<i32, ClientError>)
        ensures
            error_view(uses) == remaining_usages_of(reply@),
    {
        match read_body(reply) {
            Ok(body) => remaining_usages_in_value(&body),
            Err(error) => Err(error),
        }
    }

    /// Reads the freely accessible papers out of the reply to
    /// [`free_access_papers_request`](Self::free_access_papers_request).
    pub fn get_free_access_papers(&self, reply: &TransportReply) -> (papers: Result<
        Vec<PaperID>,
        ClientError,
    >)
        ensures
            papers_view(papers) == free_access_papers_of(reply@),
    {
        match read_body(reply) {
            Ok(body) => free_access_papers_in_value(&body),
            Err(error) => Err(error),
        }
    }
}

} // verus!
