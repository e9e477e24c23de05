use vstd::prelude::*;

verus! {

/// A full user profile as returned by the record endpoint.
pub struct GitHubUser {
    pub login: String,
    pub id: u64,
    pub avatar_url: String,
    pub html_url: String,
    pub name: Option<String>,
    pub bio: Option<String>,
    pub public_repos: u32,
    pub followers: u32,
    pub following: u32,
    pub created_at: String,
}

/// The envelope around the items of a user search response.
pub struct SearchResponse {
    pub items: Vec<SearchUser>,
}

/// One entry of a user search result: order within the result list is the
/// relevance order assigned by the remote service.
pub struct SearchUser {
    pub login: String,
    pub id: u64,
    pub avatar_url: String,
}

/// One repository record from a user's repository list.
pub struct Repo {
    pub name: String,
    pub description: Option<String>,
    pub language: Option<String>,
    pub stargazers_count: u32,
    pub html_url: String,
}

/// How a request against the remote service can fail. Transport failures,
/// non-success statuses and schema mismatches are told apart so that callers
/// can degrade differently for each.
pub enum FetchError {
    /// The connection itself failed; no response was received.
    Transport,
    /// A response arrived with a non-success status.
    Remote { status: u16, body: String },
    /// The response body did not match the expected schema.
    Decode,
}

/// What the transport layer hands back for one request: either no response
/// at all, or a status code with the raw body text.
pub enum HttpOutcome {
    Failed,
    Responded { status: u16, body: String },
}

} // verus!
