//! The requests that the platform's interface expects, as plain values for a
//! client to send.
use crate::error::ErrorKind;
use vstd::prelude::*;
use vstd::string::StringExecFns;

verus! {

/// The credentials for the platform, each as it was found: `None` where it
/// was absent.
pub struct Credentials {
    pub client_id: Option<String>,
    pub client_secret: Option<String>,
    pub access_token: Option<String>,
}

/// The method of a request.
#[derive(Clone, Copy, Debug, PartialEq, Eq, Structural)]
pub enum Method {
    Get,
    Post,
}

/// One header line of a request.
pub struct Header {
    pub name: String,
    pub value: String,
}

/// A request to be sent as it stands.
pub struct Request {
    pub method: Method,
    /// The address, with its query.
    pub url: String,
    pub headers: Vec<Header>,
    pub body: String,
}

/// What a request holds, as mathematical values.
pub struct RequestView {
    pub method: Method,
    pub url: Seq<char>,
    /// Name and value of each header, in order.
    pub headers: Seq<(Seq<char>, Seq<char>)>,
    pub body: Seq<char>,
}

impl View for Header {
    type V = (Seq<char>, Seq<char>);

    open spec fn view(&self) -> (Seq<char>, Seq<char>) {
        (self.name@, self.value@)
    }
}

impl View for Request {
    type V = RequestView;

    open spec fn view(&self) -> RequestView {
        RequestView {
            method: self.method,
            url: self.url@,
            headers: self.headers@.map_values(|header: Header| header@),
            body: self.body@,
        }
    }
}

/// A request for `url` with no header and no body.
pub open spec fn plain_get(url: Seq<char>) -> RequestView {
    RequestView { method: Method::Get, url, headers: Seq::empty(), body: Seq::empty() }
}

/// The request that lists up to a hundred live streams, authorised by the
/// access token and identified by the client.
pub open spec fn streams_request(access_token: Seq<char>, client_id: Seq<char>) -> RequestView {
    RequestView {
        method: Method::Get,
        url: "https://api.twitch.tv/helix/streams?first=100"@,
        headers: seq![
            ("Authorization"@, "Bearer "@ + access_token),
            ("Client-Id"@, client_id),
        ],
        body: Seq::empty(),
    }
}

/// The request that asks for an access token by client credentials.
pub open spec fn token_request(client_id: Seq<char>, client_secret: Seq<char>) -> RequestView {
    RequestView {
        method: Method::Post,
        url: "https://id.twitch.tv/oauth2/token"@,
        headers: seq![("Content-Type"@, "application/x-www-form-urlencoded"@)],
        body: "client_id="@ + client_id + "&client_secret="@ + client_secret
            + "&grant_type=client_credentials"@,
    }
}

fn header(name: &str, value: String) -> (header: Header)
    ensures
        header@ == (name@, value@),
{
    Header { name: String::from_str(name), value }
}

/// The request for `url` with no header and no body.
pub fn get(url: String) -> (request: Request)
    ensures
        request@ == plain_get(url@),
{
    let request = Request { method: Method::Get, url, headers: Vec::new(), body: String::new() };
    assert(request@.headers =~= Seq::empty());
    request
}

/// The request that lists the live streams. It needs the access token and the
/// client's identifier, and fails with `MissingCredential` exactly when one of
/// the two is absent.
pub fn get_streams(credentials: &Credentials) -> (request: Result<Request, ErrorKind>)
    ensures
        match (credentials.access_token, credentials.client_id) {
            (Some(access_token), Some(client_id)) => request is Ok && request.unwrap()@
                == streams_request(access_token@, client_id@),
            _ => request == Err::<Request, ErrorKind>(ErrorKind::MissingCredential),
        },
{
    match (&credentials.access_token, &credentials.client_id) {
        (Some(access_token), Some(client_id)) => {
            let mut headers: Vec<Header> = Vec::new();
            headers.push(
                header("Authorization", String::from_str("Bearer ").concat(access_token.as_str())),
            );
            headers.push(header("Client-Id", client_id.clone()));
            let request = Request {
                method: Method::Get,
                url: String::from_str("https://api.twitch.tv/helix/streams?first=100"),
                headers,
                body: String::new(),
            };
            assert(request@.headers =~= streams_request(access_token@, client_id@).headers);
            Ok(request)
        },
        _ => Err(ErrorKind::MissingCredential),
    }
}

/// The request that asks for an access token. It needs the client's identifier
/// and secret, and fails with `MissingCredential` exactly when one of the two
/// is absent.
pub fn get_token(credentials: &Credentials) -> (request: Result<Request, ErrorKind>)
    ensures
        match (credentials.client_id, credentials.client_secret) {
            (Some(client_id), Some(client_secret)) => request is Ok && request.unwrap()@
                == token_request(client_id@, client_secret@),
            _ => request == Err::<Request, ErrorKind>(ErrorKind::MissingCredential),
        },
{
    match (&credentials.client_id, &credentials.client_secret) {
        (Some(client_id), Some(client_secret)) => {
            let mut headers: Vec<Header> = Vec::new();
            headers.push(
                header("Content-Type", String::from_str("application/x-www-form-urlencoded")),
            );
            let body = String::from_str("client_id=").concat(client_id.as_str()).concat(
                "&client_secret=",
            ).concat(client_secret.as_str()).concat("&grant_type=client_credentials");
            let request = Request {
                method: Method::Post,
                url: String::from_str("https://id.twitch.tv/oauth2/token"),
                headers,
                body,
            };
            assert(request@.headers =~= token_request(client_id@, client_secret@).headers);
            Ok(request)
        },
        _ => Err(ErrorKind::MissingCredential),
    }
}

} // verus!
