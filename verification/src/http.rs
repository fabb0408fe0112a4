//! The trusted face of the HTTP transport: the declaration of reqwest's
//! blocking client, and the wrappers that build it and perform a GET.

use vstd::prelude::*;

verus! {

#[verifier::external_type_specification]
#[verifier::external_body]
pub struct ExReqwestBlockingClient(reqwest::blocking::Client);

/// What one HTTP GET produced: the status code, the status text (e.g.
/// `404 Not Found`) and the raw body bytes.
pub struct HttpReply {
    pub status: u16,
    pub status_text: String,
    pub body: Vec<u8>,
}

/// Relies on reqwest's blocking `ClientBuilder`: builds a client that
/// announces the given user agent; the error text when it cannot be built.
#[verifier::external_body]
pub(crate) fn build_http_client(user_agent: &str) -> (r: Result<reqwest::blocking::Client, String>) {
    match reqwest::blocking::Client::builder().user_agent(user_agent).build() {
        Ok(client) => Ok(client),
        Err(error) => Err(error.to_string()),
    }
}

/// Relies on reqwest's blocking GET: sends the request, with the given
/// header when one is supplied, and hands back the status line and the
/// body bytes; the error text of a request that could not be sent or read.
#[verifier::external_body]
pub(crate) fn http_get(client: &reqwest::blocking::Client, url: &str, header: Option<(&str, &str)>) -> (r:
    Result<HttpReply, String>) {
    let mut request = client.get(url);
    if let Some((name, value)) = header {
        request = request.header(name, value);
    }
    let response = request.send().map_err(|error| error.to_string())?;
    let status = response.status();
    let bytes = response.bytes().map_err(|error| error.to_string())?;
    Ok(HttpReply {
        status: status.as_u16(),
        status_text: status.to_string(),
        body: bytes.to_vec(),
    })
}

} // verus!
