//! The client's identity and the addresses of the backend's endpoints.

use vstd::prelude::*;
use vstd::string::StringExecFns;

verus! {

/// A client of one backend: the backend's address and the session under
/// which the client listens to it.
///
/// The session identifier is fixed when the client is made and never changes.
#[derive(Clone, Debug, PartialEq, Eq)]
pub struct Client {
    server_address: String,
    client_id: String,
}

/// What a [`Client`] holds, as plain values.
pub struct ClientView {
    pub server_address: Seq<char>,
    pub client_id: Seq<char>,
}

impl View for Client {
    type V = ClientView;

    closed spec fn view(&self) -> ClientView {
        ClientView { server_address: self.server_address@, client_id: self.client_id@ }
    }
}

/// The address of the endpoint that takes job submissions.
pub open spec fn prompt_url(server_address: Seq<char>) -> Seq<char> {
    "http://"@ + server_address + "/prompt"@
}

/// The address of the endpoint that serves assets. The asset's file name is
/// sent as the query parameter `filename`.
pub open spec fn view_url(server_address: Seq<char>) -> Seq<char> {
    "http://"@ + server_address + "/view"@
}

/// The address of the endpoint that serves the history record of a job.
pub open spec fn history_url(server_address: Seq<char>, prompt_id: Seq<char>) -> Seq<char> {
    "http://"@ + server_address + "/history/"@ + prompt_id
}

/// The address of the event stream of a session.
pub open spec fn stream_url(server_address: Seq<char>, client_id: Seq<char>) -> Seq<char> {
    "ws://"@ + server_address + "/ws?clientId="@ + client_id
}

/// The address of the endpoint that reports the backend's system statistics.
pub open spec fn system_stats_url(server_address: Seq<char>) -> Seq<char> {
    "http://"@ + server_address + "/system_stats"@
}

/// The number of characters of a session identifier that the client makes
/// for itself.
pub const SESSION_ID_LEN: usize = 36;

/// Calls `uuid::Uuid::new_v4` and writes the identifier out. The identifier
/// is random; all that is stated of it is its length, which is that of the
/// hyphenated form in which `uuid` writes every identifier.
#[verifier::external_body]
fn fresh_session_id() -> (r: String)
    ensures
        r@.len() == SESSION_ID_LEN,
{
    uuid::Uuid::new_v4().to_string()
}

impl Client {
    /// A client of the backend at `server_address`, under a session
    /// identifier of its own.
    pub fn new(server_address: &str) -> (r: Client)
        ensures
            r@.server_address == server_address@,
            r@.client_id.len() == SESSION_ID_LEN,
    {
        Client::with_session(server_address, fresh_session_id())
    }

    /// A client of the backend at `server_address`, under the session
    /// `client_id`.
    pub fn with_session(server_address: &str, client_id: String) -> (r: Client)
        ensures
            r@ == (ClientView { server_address: server_address@, client_id: client_id@ }),
    {
        Client { server_address: server_address.to_owned(), client_id }
    }

    /// The address of the backend.
    pub fn server_address(&self) -> (r: &str)
        ensures
            r@ == self@.server_address,
    {
        self.server_address.as_str()
    }

    /// The session identifier.
    pub fn client_id(&self) -> (r: &str)
        ensures
            r@ == self@.client_id,
    {
        self.client_id.as_str()
    }

    /// The address to which a job is submitted.
    pub fn prompt_url(&self) -> (r: String)
        ensures
            r@ == prompt_url(self@.server_address),
    {
        let mut url = String::from_str("http://");
        url.append(self.server_address.as_str());
        url.append("/prompt");
        url
    }

    /// The address from which an asset is downloaded.
    pub fn view_url(&self) -> (r: String)
        ensures
            r@ == view_url(self@.server_address),
    {
        let mut url = String::from_str("http://");
        url.append(self.server_address.as_str());
        url.append("/view");
        url
    }

    /// The address from which the history record of `prompt_id` is fetched.
    pub fn history_url(&self, prompt_id: &str) -> (r: String)
        ensures
            r@ == history_url(self@.server_address, prompt_id@),
    {
        let mut url = String::from_str("http://");
        url.append(self.server_address.as_str());
        url.append("/history/");
        url.append(prompt_id);
        url
    }

    /// The address of this client's event stream.
    pub fn stream_url(&self) -> (r: String)
        ensures
            r@ == stream_url(self@.server_address, self@.client_id),
    {
        let mut url = String::from_str("ws://");
        url.append(self.server_address.as_str());
        url.append("/ws?clientId=");
        url.append(self.client_id.as_str());
        url
    }

    /// The address from which the backend's system statistics are fetched.
    pub fn system_stats_url(&self) -> (r: String)
        ensures
            r@ == system_stats_url(self@.server_address),
    {
        let mut url = String::from_str("http://");
        url.append(self.server_address.as_str());
        url.append("/system_stats");
        url
    }
}

} // verus!
