//! Issues and their comments.

use vstd::prelude::*;
use vstd::string::StringExecFns;
use crate::github::{get_object, Cache, Exchange, Request};
use crate::text::{
    chars_of, contains, decimal, find, occurs, position, push_decimal, slice, string_of, views,
};

verus! {

/// Whether an issue is open.
#[derive(Debug, PartialEq, Eq, Clone, Copy, Structural)]
pub enum State {
    Open,
    Closed,
}

/// What marks an issue as a pull request.
#[derive(Debug)]
pub struct PullRequest {
    pub url: String,
}

impl Clone for PullRequest {
    fn clone(&self) -> (copy: Self)
        ensures
            copy == *self,
    {
        PullRequest { url: self.url.clone() }
    }
}

/// An issue. Times are in seconds since the epoch.
#[derive(Debug)]
pub struct Issue {
    pub url: String,
    pub id: u32,
    pub node_id: String,
    pub number: u32,
    pub html_url: String,
    pub comments_url: String,
    pub comments: u32,
    pub created_at: i64,
    pub updated_at: i64,
    pub state: State,
    pub title: String,
    pub body: String,
    pub pull_request: Option<PullRequest>,
}

impl Clone for Issue {
    fn clone(&self) -> (copy: Self)
        ensures
            copy == *self,
    {
        Issue {
            url: self.url.clone(),
            id: self.id,
            node_id: self.node_id.clone(),
            number: self.number,
            html_url: self.html_url.clone(),
            comments_url: self.comments_url.clone(),
            comments: self.comments,
            created_at: self.created_at,
            updated_at: self.updated_at,
            state: self.state,
            title: self.title.clone(),
            body: self.body.clone(),
            pull_request: match &self.pull_request {
                Some(pull) => Some(pull.clone()),
                None => None,
            },
        }
    }
}

impl Issue {
    /// Whether the issue is a pull request.
    pub fn is_pull_request(&self) -> (yes: bool)
        ensures
            yes == (self.pull_request is Some),
    {
        self.pull_request.is_some()
    }
}

/// A comment on an issue. Times are in seconds since the epoch.
#[derive(Debug)]
pub struct Comment {
    pub url: String,
    pub id: u32,
    pub node_id: String,
    pub html_url: String,
    pub issue_url: String,
    pub created_at: i64,
    pub updated_at: i64,
    pub body: String,
}

impl Clone for Comment {
    fn clone(&self) -> (copy: Self)
        ensures
            copy == *self,
    {
        Comment {
            url: self.url.clone(),
            id: self.id,
            node_id: self.node_id.clone(),
            html_url: self.html_url.clone(),
            issue_url: self.issue_url.clone(),
            created_at: self.created_at,
            updated_at: self.updated_at,
            body: self.body.clone(),
        }
    }
}

/// Where the issues of a repository are listed.
pub open spec fn issues_url(owner: Seq<char>, repo: Seq<char>) -> Seq<char> {
    "https://api.github.com/repos/"@ + owner + "/"@ + repo + "/issues"@
}

/// Where one issue is found.
pub open spec fn issue_url(owner: Seq<char>, repo: Seq<char>, number: u32) -> Seq<char> {
    issues_url(owner, repo) + "/"@ + decimal(number as nat)
}

/// Where the comments of one issue are found.
pub open spec fn comments_url(owner: Seq<char>, repo: Seq<char>, number: u32) -> Seq<char> {
    issue_url(owner, repo, number) + "/comments"@
}

/// The URL at which the issues of a repository are listed.
pub fn issues_address(owner: &str, repo: &str) -> (url: String)
    ensures
        url@ == issues_url(owner@, repo@),
{
    let mut url = String::from_str("https://api.github.com/repos/");
    url.append(owner);
    url.append("/");
    url.append(repo);
    url.append("/issues");
    url
}

/// The URL of one issue.
pub fn issue_address(owner: &str, repo: &str, issue_number: u32) -> (url: String)
    ensures
        url@ == issue_url(owner@, repo@, issue_number),
{
    let mut url = issues_address(owner, repo);
    url.append("/");
    let mut digits: Vec<char> = Vec::new();
    push_decimal(issue_number, &mut digits);
    let number = string_of(&digits);
    url.append(number.as_str());
    url
}

/// Begins the fetch of the comments of an issue. The comments come as one
/// page.
pub fn get_comments(
    owner: &str,
    repo: &str,
    issue_number: u32,
    token: Option<String>,
    cache: &Cache<Vec<Comment>>,
) -> (exchange: Exchange)
    ensures
        exchange.url@ == comments_url(owner@, repo@, issue_number),
        exchange.token == token,
        exchange.prev.deep_view() == cache@.tag_of(comments_url(owner@, repo@, issue_number)),
{
    let mut url = issue_address(owner, repo, issue_number);
    url.append("/comments");
    get_object(url.as_str(), token, cache)
}

/// Begins the fetch of an issue.
pub fn get_issue(
    owner: &str,
    repo: &str,
    issue_number: u32,
    token: Option<String>,
    cache: &Cache<Issue>,
) -> (exchange: Exchange)
    ensures
        exchange.url@ == issue_url(owner@, repo@, issue_number),
        exchange.token == token,
        exchange.prev.deep_view() == cache@.tag_of(issue_url(owner@, repo@, issue_number)),
{
    let url = issue_address(owner, repo, issue_number);
    get_object(url.as_str(), token, cache)
}

/// A link that came with a page of issues, and whether it leads to the next
/// page.
#[derive(Debug)]
pub struct PageLink {
    pub target: String,
    pub next: bool,
}

/// What a `PageLink` holds, with its texts as sequences of characters.
pub struct PageLinkView {
    pub target: Seq<char>,
    pub next: bool,
}

impl DeepView for PageLink {
    type V = PageLinkView;

    open spec fn deep_view(&self) -> PageLinkView {
        PageLinkView { target: self.target@, next: self.next }
    }
}

/// The text that marks a link as leading to the next page.
pub open spec fn next_marker() -> Seq<char> {
    "rel=\"next\""@
}

/// What one entry of a link header says. The target stands between the first
/// `<` and the `>` that follows it, and the entry leads to the next page where
/// the marker, with its quotes, stands after the target. An entry without a
/// target says nothing.
pub open spec fn link_of(entry: Seq<char>) -> Option<PageLinkView> {
    let open = position(entry, '<');
    let rest = entry.skip(open + 1);
    let close = position(rest, '>');
    if open < entry.len() && close < rest.len() {
        Some(
            PageLinkView {
                target: rest.take(close),
                next: occurs(next_marker(), rest.skip(close + 1)),
            },
        )
    } else {
        None
    }
}

/// What the first `n` entries say, in order.
pub open spec fn links_upto(entries: Seq<Seq<char>>, n: int) -> Seq<PageLinkView>
    decreases n,
{
    if n <= 0 {
        Seq::empty()
    } else {
        match link_of(entries[n - 1]) {
            Some(link) => links_upto(entries, n - 1).push(link),
            None => links_upto(entries, n - 1),
        }
    }
}

/// Whether `s` ends inside a target: a `<` stands in it with no `>` after it.
pub open spec fn in_target(s: Seq<char>) -> bool
    decreases s.len(),
{
    if s.len() == 0 {
        false
    } else if s.last() == '<' {
        true
    } else if s.last() == '>' {
        false
    } else {
        in_target(s.drop_last())
    }
}

/// The entries of a link header: the stretches between its commas, where a
/// comma inside a target does not count. A header without such a comma is one
/// entry.
pub open spec fn link_entries(header: Seq<char>) -> Seq<Seq<char>>
    decreases header.len(),
{
    if header.len() == 0 {
        seq![Seq::empty()]
    } else {
        let before = link_entries(header.drop_last());
        if header.last() == ',' && !in_target(header.drop_last()) {
            before.push(Seq::empty())
        } else {
            before.drop_last().push(before.last().push(header.last()))
        }
    }
}

/// The links of a link header: what its entries say. This reads the headers
/// that GitHub sends, of the form `<target>; rel="next", <target>; rel="last"`.
/// An entry whose `rel` holds several values, or holds `next` without the
/// quotes, is not taken to lead to the next page.
pub open spec fn links_of(header: Seq<char>) -> Seq<PageLinkView> {
    links_upto(link_entries(header), link_entries(header).len() as int)
}

/// The entries of a link header.
pub fn split_entries(header: &Vec<char>) -> (out: Vec<Vec<char>>)
    ensures
        views(out@) == link_entries(header@),
{
    let mut out: Vec<Vec<char>> = Vec::new();
    let mut entry: Vec<char> = Vec::new();
    let mut inside = false;
    let mut i: usize = 0;
    assert(header@.take(0) =~= Seq::empty());
    assert(views(out@).push(entry@) =~= link_entries(header@.take(0)));
    while i < header.len()
        invariant
            i <= header.len(),
            inside == in_target(header@.take(i as int)),
            views(out@).push(entry@) == link_entries(header@.take(i as int)),
        decreases header.len() - i,
    {
        let c = header[i];
        let ghost done = views(out@);
        let ghost current = entry@;
        assert(header@.take(i + 1).drop_last() =~= header@.take(i as int));
        assert(done.push(current).drop_last() =~= done);
        if c == ',' && !inside {
            out.push(entry);
            entry = Vec::new();
            assert(views(out@) =~= done.push(current));
        } else {
            entry.push(c);
        }
        if c == '<' {
            inside = true;
        } else if c == '>' {
            inside = false;
        }
        i += 1;
    }
    assert(header@.take(header.len() as int) =~= header@);
    let ghost done = views(out@);
    out.push(entry);
    assert(views(out@) =~= done.push(entry@));
    out
}

/// What one entry of a link header says.
pub fn link_in(entry: &Vec<char>) -> (link: Option<PageLink>)
    ensures
        link.deep_view() == link_of(entry@),
{
    assert(entry@.skip(0) =~= entry@);
    let open = find(entry, 0, '<');
    if open == entry.len() {
        return None;
    }
    let close = find(entry, open + 1, '>');
    if close == entry.len() {
        return None;
    }
    let ghost rest = entry@.skip(open + 1);
    let target = slice(entry, open + 1, close);
    let tail = slice(entry, close + 1, entry.len());
    let marker = chars_of("rel=\"next\"");
    proof {
        assert(target@ =~= rest.take(close - (open + 1)));
        assert(tail@ =~= rest.skip(close - (open + 1) + 1));
    }
    Some(PageLink { target: string_of(&target), next: contains(&tail, &marker) })
}

/// The links of a link header.
pub fn page_links(header: &str) -> (links: Vec<PageLink>)
    ensures
        links.deep_view() == links_of(header@),
{
    let chars = chars_of(header);
    let entries = split_entries(&chars);
    let ghost all = link_entries(header@);
    let mut links: Vec<PageLink> = Vec::new();
    let mut i: usize = 0;
    while i < entries.len()
        invariant
            i <= entries.len(),
            all == views(entries@),
            links.deep_view() == links_upto(all, i as int),
        decreases entries.len() - i,
    {
        match link_in(&entries[i]) {
            Some(link) => {
                links.push(link);
            },
            None => {},
        }
        i += 1;
    }
    links
}

/// The target of the first link that leads to the next page.
pub open spec fn next_target(links: Seq<PageLink>) -> Option<String>
    decreases links.len(),
{
    if links.len() == 0 {
        None
    } else if links[0].next {
        Some(links[0].target)
    } else {
        next_target(links.drop_first())
    }
}

/// The target of the first link that leads to the next page.
pub fn find_next(links: &Vec<PageLink>) -> (target: Option<String>)
    ensures
        target == next_target(links@),
{
    let mut i: usize = 0;
    assert(links@.skip(0) =~= links@);
    while i < links.len()
        invariant
            i <= links.len(),
            next_target(links@) == next_target(links@.skip(i as int)),
        decreases links.len() - i,
    {
        if links[i].next {
            return Some(links[i].target.clone());
        }
        assert(links@.skip(i as int).drop_first() =~= links@.skip(i + 1));
        i += 1;
    }
    None
}

/// The issues of a repository, page by page. The list hands out the issues of
/// the page it holds, then asks for the next page.
pub struct IssueList {
    current_page: Vec<Issue>,
    current: usize,
    next_page: Option<String>,
    token: Option<String>,
}

/// What a list of issues does next.
#[derive(Debug)]
pub enum Step {
    /// The next issue.
    Item(Issue),
    /// A page is to be fetched and handed to `IssueList::page`.
    Fetch(Request),
    /// The list has ended.
    Done,
}

/// The headers of a request for a page of issues.
pub open spec fn page_headers(token: Option<String>) -> Seq<(Seq<char>, Seq<char>)> {
    match token {
        Some(t) => seq![("Authorization"@, "Bearer "@ + t@)],
        None => Seq::empty(),
    }
}

impl IssueList {
    #[verifier::type_invariant]
    spec fn wf(&self) -> bool {
        self.current <= self.current_page.len()
    }

    /// The page that the list holds.
    pub closed spec fn issues(&self) -> Seq<Issue> {
        self.current_page@
    }

    /// How many issues of the page have been handed out.
    pub closed spec fn handed(&self) -> nat {
        self.current as nat
    }

    /// Where the next page is found, if there is one.
    pub closed spec fn next_page(&self) -> Option<String> {
        self.next_page
    }

    /// The token that the requests carry.
    pub closed spec fn token(&self) -> Option<String> {
        self.token
    }

    /// Hands out the next issue of the page. Once the page is used up, asks
    /// for the next page where there is one, and ends the list where there is
    /// none.
    pub fn next(&mut self) -> (step: Step)
        ensures
            old(self).handed() <= old(self).issues().len(),
            final(self).issues() == old(self).issues(),
            final(self).next_page() == old(self).next_page(),
            final(self).token() == old(self).token(),
            match step {
                Step::Item(issue) => {
                    &&& old(self).handed() < old(self).issues().len()
                    &&& issue == old(self).issues()[old(self).handed() as int]
                    &&& final(self).handed() == old(self).handed() + 1
                },
                Step::Fetch(request) => {
                    &&& old(self).handed() == old(self).issues().len()
                    &&& old(self).next_page() matches Some(url)
                    &&& request.url == url
                    &&& request.headers.deep_view() == page_headers(old(self).token())
                    &&& final(self).handed() == old(self).handed()
                },
                Step::Done => {
                    &&& old(self).handed() == old(self).issues().len()
                    &&& old(self).next_page() is None
                    &&& final(self).handed() == old(self).handed()
                },
            },
    {
        proof {
            use_type_invariant(&*self);
        }
        if self.current < self.current_page.len() {
            let issue = self.current_page[self.current].clone();
            self.current = self.current + 1;
            return Step::Item(issue);
        }
        match &self.next_page {
            Some(url) => {
                let mut headers: Vec<(String, String)> = Vec::new();
                match &self.token {
                    Some(token) => {
                        let mut value = String::from_str("Bearer ");
                        value.append(token.as_str());
                        headers.push(("Authorization".to_owned(), value));
                    },
                    None => {},
                }
                Step::Fetch(Request { url: url.clone(), headers })
            },
            None => Step::Done,
        }
    }

    /// Takes in a fetched page. Where the reply came with links, the next page
    /// is the target of the first link that leads to it, and there is none
    /// where no link does; without links the next page stays what it was.
    pub fn page(&mut self, issues: Vec<Issue>, links: Option<Vec<PageLink>>)
        ensures
            final(self).issues() == issues@,
            final(self).handed() == 0,
            final(self).token() == old(self).token(),
            final(self).next_page() == match links {
                Some(l) => next_target(l@),
                None => old(self).next_page(),
            },
    {
        self.current = 0;
        self.current_page = issues;
        match links {
            Some(l) => {
                self.next_page = find_next(&l);
            },
            None => {},
        }
    }

    /// Hands out the next issue that is no pull request.
    pub fn next_listed(&mut self) -> (step: Step)
        ensures
            final(self).issues() == old(self).issues(),
            final(self).next_page() == old(self).next_page(),
            final(self).token() == old(self).token(),
            old(self).handed() <= final(self).handed() <= old(self).issues().len(),
            match step {
                Step::Item(issue) => {
                    &&& old(self).handed() < final(self).handed()
                    &&& all_pulls(old(self).issues(), old(self).handed() as int, final(self).handed() - 1)
                    &&& issue == old(self).issues()[final(self).handed() - 1]
                    &&& issue.pull_request is None
                },
                Step::Fetch(request) => {
                    &&& final(self).handed() == old(self).issues().len()
                    &&& all_pulls(old(self).issues(), old(self).handed() as int, final(self).handed() as int)
                    &&& old(self).next_page() matches Some(url)
                    &&& request.url == url
                    &&& request.headers.deep_view() == page_headers(old(self).token())
                },
                Step::Done => {
                    &&& final(self).handed() == old(self).issues().len()
                    &&& all_pulls(old(self).issues(), old(self).handed() as int, final(self).handed() as int)
                    &&& old(self).next_page() is None
                },
            },
    {
        proof {
            use_type_invariant(&*self);
        }
        loop
            invariant
                self.issues() == old(self).issues(),
                self.next_page() == old(self).next_page(),
                self.token() == old(self).token(),
                old(self).handed() <= self.handed() <= old(self).issues().len(),
                all_pulls(old(self).issues(), old(self).handed() as int, self.handed() as int),
            decreases self.issues().len() - self.handed(),
        {
            let step = self.next();
            match step {
                Step::Item(issue) => {
                    if !issue.is_pull_request() {
                        return Step::Item(issue);
                    }
                },
                other => {
                    return other;
                },
            }
        }
    }
}

/// Every issue from `from` up to `to` is a pull request.
pub open spec fn all_pulls(issues: Seq<Issue>, from: int, to: int) -> bool {
    forall|i: int| from <= i < to ==> (#[trigger] issues[i]).pull_request is Some
}

/// The issues of a repository, from the first page on.
pub fn get_issues(owner: &str, repo: &str, token: Option<String>) -> (list: IssueList)
    ensures
        list.issues() == Seq::<Issue>::empty(),
        list.handed() == 0,
        list.next_page() matches Some(url) && url@ == issues_url(owner@, repo@),
        list.token() == token,
{
    IssueList {
        current_page: Vec::new(),
        current: 0,
        next_page: Some(issues_address(owner, repo)),
        token,
    }
}

} // verus!
