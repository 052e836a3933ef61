//! The platform's query protocol: one named query with its variables is
//! posted, and exactly one result object is expected back. Encoding to and
//! decoding from JSON is done by the caller; this module builds the request
//! values and checks and unpacks the decoded response.
use vstd::prelude::*;
use crate::error::LeaderboardError;
use crate::models::InsertSubmission;

verus! {

/// The endpoint every query is posted to.
pub const GRAPHQL_ENDPOINT: &'static str = "https://medium.com/_/graphql";

pub const CLAP_COUNT_QUERY: &'static str = "query ClapCountQuery($postId: ID!, $includeFirstBoostedAt: Boolean!) {\n  postResult(id: $postId) {\n    __typename\n    ... on Post {\n      id\n      clapCount\n      firstBoostedAt @include(if: $includeFirstBoostedAt)\n      __typename\n    }\n  }\n}\n";

pub const POST_PAGE_QUERY: &'static str = "query PostPageQuery($postId: ID!) {postResult(id: $postId) {__typename\n ... on Post {id\n creator {id\n name\n username\n __typename}\n mediumUrl\n latestPublishedVersion\n latestPublishedAt\n clapCount\n title\n previewImage{id\n __typename}\n tags{\n id\n __typename}\n wordCount\n __typename}}}";

/// One request of the protocol: the operation's name, its query text and its variables.
#[derive(Debug)]
pub struct GraphQlRequest<'a, V> {
    pub operation_name: &'a str,
    pub query: &'a str,
    pub variables: V,
}

/// One element of the response array.
#[derive(Debug)]
pub struct GraphQlResponse<T> {
    pub data: PostResult<T>,
}

/// The `data` object of a response element.
#[derive(Debug)]
pub struct PostResult<T> {
    pub post_result: T,
}

/// Variables of the query that reads a post's clap count.
#[derive(Debug)]
pub struct ClapCountQuery<'a> {
    pub post_id: &'a str,
    pub include_first_boosted_at: bool,
}

/// Payload of the clap count query.
#[derive(Debug)]
pub struct ClapCountResponse {
    pub clap_count: i32,
}

/// Variables of the query that reads a post's details.
#[derive(Debug)]
pub struct PostPageQuery<'a> {
    pub post_id: &'a str,
}

/// Payload of the post details query.
#[derive(Debug)]
pub struct PostResponse {
    pub id: String,
    pub creator: CreatorResponse,
    pub medium_url: String,
    pub latest_published_version: String,
    pub latest_published_at: i64,
    pub clap_count: i32,
    pub title: String,
    pub preview_image: PreviewImageResponse,
    pub word_count: i32,
}

#[derive(Debug)]
pub struct CreatorResponse {
    pub id: String,
    pub name: String,
    pub username: String,
}

#[derive(Debug)]
pub struct PreviewImageResponse {
    pub id: String,
}

impl<'a> From<ClapCountQuery<'a>> for GraphQlRequest<'a, ClapCountQuery<'a>> {
    fn from(variables: ClapCountQuery<'a>) -> (r: GraphQlRequest<'a, ClapCountQuery<'a>>) {
        GraphQlRequest { operation_name: "ClapCountQuery", query: CLAP_COUNT_QUERY, variables }
    }
}

impl<'a> vstd::std_specs::convert::FromSpecImpl<ClapCountQuery<'a>> for GraphQlRequest<'a, ClapCountQuery<'a>> {
    open spec fn obeys_from_spec() -> bool {
        true
    }

    open spec fn from_spec(v: ClapCountQuery<'a>) -> GraphQlRequest<'a, ClapCountQuery<'a>> {
        GraphQlRequest { operation_name: "ClapCountQuery", query: CLAP_COUNT_QUERY, variables: v }
    }
}

impl<'a> From<PostPageQuery<'a>> for GraphQlRequest<'a, PostPageQuery<'a>> {
    fn from(variables: PostPageQuery<'a>) -> (r: GraphQlRequest<'a, PostPageQuery<'a>>) {
        GraphQlRequest { operation_name: "PostPageQuery", query: POST_PAGE_QUERY, variables }
    }
}

impl<'a> vstd::std_specs::convert::FromSpecImpl<PostPageQuery<'a>> for GraphQlRequest<'a, PostPageQuery<'a>> {
    open spec fn obeys_from_spec() -> bool {
        true
    }

    open spec fn from_spec(v: PostPageQuery<'a>) -> GraphQlRequest<'a, PostPageQuery<'a>> {
        GraphQlRequest { operation_name: "PostPageQuery", query: POST_PAGE_QUERY, variables: v }
    }
}

/// The clap count request for `post_id`; the optional boost field is never asked for.
pub fn clap_count_request<'a>(post_id: &'a str) -> (r: GraphQlRequest<'a, ClapCountQuery<'a>>)
    ensures
        r.operation_name == "ClapCountQuery",
        r.query == CLAP_COUNT_QUERY,
        r.variables.post_id == post_id,
        !r.variables.include_first_boosted_at,
{
    GraphQlRequest::from(ClapCountQuery { post_id, include_first_boosted_at: false })
}

/// The details request for `post_id`.
pub fn post_page_request<'a>(post_id: &'a str) -> (r: GraphQlRequest<'a, PostPageQuery<'a>>)
    ensures
        r.operation_name == "PostPageQuery",
        r.query == POST_PAGE_QUERY,
        r.variables.post_id == post_id,
{
    GraphQlRequest::from(PostPageQuery { post_id })
}

/// The payload of a response that holds exactly one result object.
pub fn single_result<T>(results: Vec<GraphQlResponse<T>>) -> (r: Result<T, LeaderboardError>)
    ensures
        results@.len() == 1 ==> r == Ok::<T, LeaderboardError>(results@[0].data.post_result),
        results@.len() != 1 ==> r == Err::<T, LeaderboardError>(LeaderboardError::Protocol),
{
    let mut results = results;
    if results.len() != 1 {
        return Err(LeaderboardError::Protocol);
    }
    match results.pop() {
        Some(first) => Ok(first.data.post_result),
        None => Err(LeaderboardError::Protocol),
    }
}

/// The submission draft that a details payload describes.
pub open spec fn draft_of(p: PostResponse) -> InsertSubmission {
    InsertSubmission {
        guid: p.id,
        realname: p.creator.name,
        username: p.creator.username,
        latest_published_version: p.latest_published_version,
        latest_published_at: p.latest_published_at,
        clap_count: p.clap_count,
        title: p.title,
        img_id: p.preview_image.id,
        word_count: p.word_count,
    }
}

impl PostResponse {
    /// The submission draft this payload describes.
    pub fn into_draft(self) -> (r: InsertSubmission)
        ensures
            r == draft_of(self),
    {
        InsertSubmission {
            guid: self.id,
            realname: self.creator.name,
            username: self.creator.username,
            latest_published_version: self.latest_published_version,
            latest_published_at: self.latest_published_at,
            clap_count: self.clap_count,
            title: self.title,
            img_id: self.preview_image.id,
            word_count: self.word_count,
        }
    }
}

/// The submission draft carried by a decoded details response.
pub fn story_details(results: Vec<GraphQlResponse<PostResponse>>) -> (r: Result<
    InsertSubmission,
    LeaderboardError,
>)
    ensures
        results@.len() == 1 ==> r == Ok::<InsertSubmission, LeaderboardError>(
            draft_of(results@[0].data.post_result),
        ),
        results@.len() != 1 ==> r == Err::<InsertSubmission, LeaderboardError>(
            LeaderboardError::Protocol,
        ),
{
    match single_result(results) {
        Ok(post) => Ok(post.into_draft()),
        Err(e) => Err(e),
    }
}

/// The clap count carried by a decoded clap count response.
pub fn clap_count(results: Vec<GraphQlResponse<ClapCountResponse>>) -> (r: Result<
    i32,
    LeaderboardError,
>)
    ensures
        results@.len() == 1 ==> r == Ok::<i32, LeaderboardError>(
            results@[0].data.post_result.clap_count,
        ),
        results@.len() != 1 ==> r == Err::<i32, LeaderboardError>(LeaderboardError::Protocol),
{
    match single_result(results) {
        Ok(payload) => Ok(payload.clap_count),
        Err(e) => Err(e),
    }
}

} // verus!
