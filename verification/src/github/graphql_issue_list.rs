//! The recent issues of a repository, as the GraphQL endpoint lists them.

use vstd::prelude::*;
use vstd::string::StringExecFns;

verus! {

/// The reply to the query for the recent issues.
#[derive(Debug)]
pub struct GraphQLReply {
    pub data: RepositoryNode,
}

#[derive(Debug)]
pub struct RepositoryNode {
    pub repository: Repository,
}

#[derive(Debug)]
pub struct Repository {
    pub issues: Issues,
}

#[derive(Debug)]
pub struct Issues {
    pub nodes: Vec<Issue>,
}

/// An issue with its comments. Times are in seconds since the epoch.
#[derive(Debug)]
pub struct Issue {
    pub number: u32,
    pub url: String,
    pub title: String,
    pub body: String,
    pub last_edited_at: Option<i64>,
    pub created_at: i64,
    pub updated_at: i64,
    pub comments: Comments,
}

#[derive(Debug)]
pub struct Comments {
    pub nodes: Vec<Comment>,
}

/// A comment. Times are in seconds since the epoch.
#[derive(Debug)]
pub struct Comment {
    pub url: String,
    pub body: String,
    pub last_edited_at: Option<i64>,
    pub created_at: i64,
    pub updated_at: i64,
}

/// A text with where it stands and when it last changed, in seconds since the
/// epoch.
#[derive(Debug)]
pub struct Body {
    pub body: String,
    pub last_update: i64,
    pub url: String,
}

/// What a `Body` holds, with its texts as sequences of characters.
pub struct BodyView {
    pub body: Seq<char>,
    pub last_update: i64,
    pub url: Seq<char>,
}

impl DeepView for Body {
    type V = BodyView;

    open spec fn deep_view(&self) -> BodyView {
        BodyView { body: self.body@, last_update: self.last_update, url: self.url@ }
    }
}

impl Clone for Body {
    fn clone(&self) -> (copy: Self)
        ensures
            copy == *self,
    {
        Body { body: self.body.clone(), last_update: self.last_update, url: self.url.clone() }
    }
}

/// A POST request: where it goes, the headers it carries and its body.
#[derive(Debug)]
pub struct Post {
    pub url: String,
    pub headers: Vec<(String, String)>,
    pub body: String,
}

/// The query for the open issues of a repository, the hundred that changed
/// last, each with its last hundred comments.
pub open spec fn query_for(owner: Seq<char>, repo: Seq<char>) -> Seq<char> {
    "{\n    \"query\":\"{repository(owner: \\\""@ + owner + "\\\", name: \\\""@ + repo
        + "\\\") {issues(first: 100, states: OPEN, orderBy: {field: UPDATED_AT, direction: DESC}) {nodes {number url title url body lastEditedAt createdAt updatedAt comments(last: 100) {nodes {url body lastEditedAt createdAt updatedAt}}}}}}\"\n}"@
}

/// The request for the recent issues of a repository.
pub fn graphql(owner: &str, repo: &str, token: &str) -> (request: Post)
    ensures
        request.url@ == "https://api.github.com/graphql"@,
        request.headers.deep_view() == seq![
            ("User-Agent"@, "actix"@),
            ("Authorization"@, "bearer "@ + token@),
        ],
        request.body@ == query_for(owner@, repo@),
{
    let mut headers: Vec<(String, String)> = Vec::new();
    headers.push(("User-Agent".to_owned(), "actix".to_owned()));
    let mut value = String::from_str("bearer ");
    value.append(token);
    headers.push(("Authorization".to_owned(), value));
    assert(headers.deep_view() =~= seq![
        ("User-Agent"@, "actix"@),
        ("Authorization"@, "bearer "@ + token@),
    ]);
    let mut body = String::from_str("{\n    \"query\":\"{repository(owner: \\\"");
    body.append(owner);
    body.append("\\\", name: \\\"");
    body.append(repo);
    body.append(
        "\\\") {issues(first: 100, states: OPEN, orderBy: {field: UPDATED_AT, direction: DESC}) {nodes {number url title url body lastEditedAt createdAt updatedAt comments(last: 100) {nodes {url body lastEditedAt createdAt updatedAt}}}}}}\"\n}",
    );
    Post { url: "https://api.github.com/graphql".to_owned(), headers, body }
}

/// When a text last changed: when it was edited, else when it was updated,
/// else when it was made.
pub open spec fn latest(created: i64, updated: Option<i64>, edited: Option<i64>) -> i64 {
    match edited {
        Some(e) => e,
        None => match updated {
            Some(u) => u,
            None => created,
        },
    }
}

/// When a text last changed.
pub fn latest_date(created: i64, updated: Option<i64>, edited: Option<i64>) -> (date: i64)
    ensures
        date == latest(created, updated, edited),
{
    match edited {
        Some(e) => e,
        None => match updated {
            Some(u) => u,
            None => created,
        },
    }
}

/// The text of an issue. Its last change is its last edit, or its making where
/// it was never edited.
pub open spec fn issue_body(issue: Issue) -> BodyView {
    BodyView {
        body: issue.body@,
        last_update: latest(issue.created_at, None, issue.last_edited_at),
        url: issue.url@,
    }
}

/// The text of a comment.
pub open spec fn comment_body(comment: Comment) -> BodyView {
    BodyView {
        body: comment.body@,
        last_update: latest(comment.created_at, Some(comment.updated_at), comment.last_edited_at),
        url: comment.url@,
    }
}

/// The texts of an issue: its own, then those of its comments in their order.
pub open spec fn issue_bodies(issue: Issue) -> Seq<BodyView> {
    seq![issue_body(issue)] + Seq::new(
        issue.comments.nodes@.len(),
        |j: int| comment_body(issue.comments.nodes@[j]),
    )
}

/// The texts of the first `n` issues, in order.
pub open spec fn bodies_upto(issues: Seq<Issue>, n: int) -> Seq<BodyView>
    decreases n,
{
    if n <= 0 {
        Seq::empty()
    } else {
        bodies_upto(issues, n - 1) + issue_bodies(issues[n - 1])
    }
}

impl GraphQLReply {
    /// The texts of the reply: each issue, followed by its comments, in the
    /// order of the reply.
    pub fn list(self) -> (bodies: Vec<Body>)
        ensures
            bodies.deep_view() == bodies_upto(
                self.data.repository.issues.nodes@,
                self.data.repository.issues.nodes@.len() as int,
            ),
    {
        let issues = &self.data.repository.issues.nodes;
        let mut bodies: Vec<Body> = Vec::new();
        let mut i: usize = 0;
        while i < issues.len()
            invariant
                i <= issues.len(),
                bodies.deep_view() == bodies_upto(issues@, i as int),
            decreases issues.len() - i,
        {
            let issue = &issues[i];
            let ghost before = bodies.deep_view();
            bodies.push(
                Body {
                    body: issue.body.clone(),
                    last_update: latest_date(issue.created_at, None, issue.last_edited_at),
                    url: issue.url.clone(),
                },
            );
            let comments = &issue.comments.nodes;
            let mut j: usize = 0;
            while j < comments.len()
                invariant
                    j <= comments.len(),
                    comments == &issue.comments.nodes,
                    bodies.deep_view() == before + issue_bodies(*issue).take(j + 1),
                decreases comments.len() - j,
            {
                let comment = &comments[j];
                let ghost mid = bodies.deep_view();
                bodies.push(
                    Body {
                        body: comment.body.clone(),
                        last_update: latest_date(
                            comment.created_at,
                            Some(comment.updated_at),
                            comment.last_edited_at,
                        ),
                        url: comment.url.clone(),
                    },
                );
                assert(bodies.deep_view() =~= before + issue_bodies(*issue).take(j + 2)) by {
                    assert(bodies.deep_view() =~= mid.push(comment_body(*comment)));
                    assert(issue_bodies(*issue).take(j + 2) =~= issue_bodies(*issue).take(
                        j + 1,
                    ).push(comment_body(*comment)));
                }
                j += 1;
            }
            i += 1;
        }
        bodies
    }
}

} // verus!
