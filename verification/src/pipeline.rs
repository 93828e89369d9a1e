//! From an issue to linted code: the steps between the requests.
//!
//! A request for one issue goes through `issue_sources`, then, for each text,
//! through the markdown module, then through `attribute`,
//! `clippy_if_maybe_rust` and `clippied`. A request for the recent issues
//! begins with `recent_request`, `GraphQLReply::list` and `recent`, goes on
//! with the markdown module, `attribute` and `clippy_if_rust`, and ends with
//! `repo_issues`. A request that comes to nothing is answered with
//! `failure_reply`.

use vstd::prelude::*;
use crate::github::graphql_issue_list::{graphql, query_for, Body, BodyView, Post};
use crate::github::issue::{Comment, Issue};
use crate::github::UpstreamError;
use crate::markdown::{Code, CodeView};
use crate::playground::{
    ask_playground,
    ask_playground_simpl,
    clippy_sentinel,
    endpoint,
    normalized,
    wrapped,
    Action,
    Channel,
    CrateType,
    Mode,
    PlaygroundRequest,
    Response,
    ResponseView,
};
use crate::text::{
    ascii_lowercase,
    chars_of,
    occurs,
    occurs_at,
    starts_with,
    string_of,
    to_ascii_lowercase,
};

verus! {

/// The token that an authorization header carries: what follows `bearer` and a
/// space, in any case of the letters.
pub open spec fn token_of(header: Seq<char>) -> Option<Seq<char>> {
    if occurs_at("bearer "@, ascii_lowercase(header), 0) {
        Some(header.skip(7))
    } else {
        None
    }
}

/// The token of a request, given its authorization header.
pub fn extract_token(header: Option<&str>) -> (token: Option<String>)
    ensures
        token.deep_view() == match header {
            Some(value) => token_of(value@),
            None => None,
        },
{
    match header {
        Some(value) => {
            let chars = chars_of(value);
            let lower = to_ascii_lowercase(&chars);
            let prefix = chars_of("bearer ");
            proof {
                reveal_strlit("bearer ");
            }
            if starts_with(&lower, &prefix) {
                let mut rest: Vec<char> = Vec::new();
                let mut i: usize = 7;
                while i < chars.len()
                    invariant
                        7 <= i <= chars.len(),
                        rest@ == chars@.subrange(7, i as int),
                    decreases chars.len() - i,
                {
                    rest.push(chars[i]);
                    i += 1;
                }
                Some(string_of(&rest))
            } else {
                None
            }
        },
        None => None,
    }
}

/// The number of seconds in a day.
pub const DAY: i64 = 86400;

/// How far back a request for the recent issues looks.
#[derive(Debug, PartialEq, Eq, Clone, Copy, Structural)]
pub struct FromDays {
    pub days: Option<i64>,
}

impl FromDays {
    /// The number of days: two where none is given.
    pub open spec fn span(self) -> int {
        match self.days {
            Some(d) => d as int,
            None => 2,
        }
    }

    /// The time before which nothing counts as recent: `now` less the days.
    /// Times are in seconds since the epoch.
    pub fn timestamp(&self, now: i64) -> (floor: i64)
        requires
            i64::MIN <= now - self.span() * DAY <= i64::MAX,
        ensures
            floor == now - self.span() * DAY,
    {
        let days: i64 = match self.days {
            Some(d) => d,
            None => 2,
        };
        let wide: i128 = (now as i128) - (days as i128) * (DAY as i128);
        wide as i64
    }

    /// The time before which nothing counts as recent, where it can be told:
    /// `now` less the days, unless that lies outside the times that can be
    /// held.
    pub fn checked_timestamp(&self, now: i64) -> (floor: Option<i64>)
        ensures
            match floor {
                Some(time) => time == now - self.span() * DAY,
                None => !(i64::MIN <= now - self.span() * DAY <= i64::MAX),
            },
    {
        let days: i64 = match self.days {
            Some(d) => d,
            None => 2,
        };
        assert(days * DAY == days * 86400) by (nonlinear_arith)
            requires
                DAY == 86400,
        ;
        let wide: i128 = (now as i128) - (days as i128) * (DAY as i128);
        if -0x8000_0000_0000_0000i128 <= wide && wide <= 0x7fff_ffff_ffff_ffffi128 {
            Some(wide as i64)
        } else {
            None
        }
    }
}

/// The cutoff lies two days before `now` where no number of days is given, and
/// as many days before `now` as are given otherwise, a day being 86400 seconds.
pub proof fn lemma_cutoff(from: FromDays, now: i64)
    ensures
        now - from.span() * DAY == match from.days {
            Some(days) => now - 86400 * days,
            None => now - 172800,
        },
{
}

/// One entry of the reply: a piece of code, the text it came from, what clippy
/// said of it, and when the text last changed.
#[derive(Debug)]
pub struct CodeAndClippy {
    pub from: String,
    pub code: String,
    pub clippy: Option<String>,
    pub ts: Option<i64>,
}

/// What a `CodeAndClippy` holds, with its texts as sequences of characters.
pub struct CodeAndClippyView {
    pub from: Seq<char>,
    pub code: Seq<char>,
    pub clippy: Option<Seq<char>>,
    pub ts: Option<i64>,
}

impl DeepView for CodeAndClippy {
    type V = CodeAndClippyView;

    open spec fn deep_view(&self) -> CodeAndClippyView {
        CodeAndClippyView {
            from: self.from@,
            code: self.code@,
            clippy: self.clippy.deep_view(),
            ts: self.ts,
        }
    }
}

/// A piece of code with the text it came from.
#[derive(Debug)]
pub struct Sample {
    pub from: String,
    pub ts: i64,
    pub code: Code,
}

/// What a `Sample` holds, with its texts as sequences of characters.
pub struct SampleView {
    pub from: Seq<char>,
    pub ts: i64,
    pub code: CodeView,
}

impl DeepView for Sample {
    type V = SampleView;

    open spec fn deep_view(&self) -> SampleView {
        SampleView { from: self.from@, ts: self.ts, code: self.code.deep_view() }
    }
}

/// What became of the lint of a piece of code.
#[derive(Debug)]
pub enum Lint {
    /// The playground was not asked.
    NotAsked,
    /// The playground replied.
    Reply(Response),
    /// The request failed, with this text.
    Failed(String),
}

/// What a `Lint` holds, with its texts as sequences of characters.
pub enum LintView {
    NotAsked,
    Reply(ResponseView),
    Failed(Seq<char>),
}

impl DeepView for Lint {
    type V = LintView;

    open spec fn deep_view(&self) -> LintView {
        match self {
            Lint::NotAsked => LintView::NotAsked,
            Lint::Reply(response) => LintView::Reply(response.deep_view()),
            Lint::Failed(text) => LintView::Failed(text@),
        }
    }
}

/// Code is taken for rust where its language is `rust`, in any case of the
/// letters.
pub open spec fn speaks_rust(code: CodeView) -> bool {
    code.language matches Some(language) && ascii_lowercase(language) == "rust"@
}

/// Whether the code is taken for rust.
pub fn is_rust(code: &Code) -> (rust: bool)
    ensures
        rust == speaks_rust(code.deep_view()),
{
    match &code.language {
        Some(language) => {
            let lower = string_of(&to_ascii_lowercase(&chars_of(language.as_str())));
            let rust = "rust".to_owned();
            lower == rust
        },
        None => false,
    }
}

/// The request that has clippy look at the code, where the code is taken for
/// rust.
pub fn clippy_if_rust(code: &Code) -> (request: Option<PlaygroundRequest>)
    ensures
        request is Some == speaks_rust(code.deep_view()),
        request matches Some(r) ==> {
            &&& r.url@ == endpoint(Action::Clippy)
            &&& r.timeout_secs == 30
            &&& r.query.code@ == wrapped(code.code@)
            &&& r.query.channel == Channel::Stable
            &&& r.query.mode == Mode::Debug
            &&& r.query.crate_type == CrateType::Bin
            &&& !r.query.test
        },
{
    if is_rust(code) {
        Some(ask_playground(code.code.as_str(), Action::Clippy))
    } else {
        None
    }
}

/// Whether clippy is asked about a piece of code. It is asked about code that
/// is taken for rust. For one issue it is also asked about code that names no
/// language, and its answer then tells whether the code is rust.
pub open spec fn asks_clippy(code: CodeView, recent: bool) -> bool {
    speaks_rust(code) || (!recent && code.language is None)
}

/// The request that has clippy look at a piece of code from one issue: code
/// that names no language is sent as well.
pub fn clippy_if_maybe_rust(code: &Code) -> (request: Option<PlaygroundRequest>)
    ensures
        request is Some == asks_clippy(code.deep_view(), false),
        request matches Some(r) ==> {
            &&& r.url@ == endpoint(Action::Clippy)
            &&& r.timeout_secs == 30
            &&& r.query.code@ == wrapped(code.code@)
            &&& r.query.channel == Channel::Stable
            &&& r.query.mode == Mode::Debug
            &&& r.query.crate_type == CrateType::Bin
            &&& !r.query.test
        },
{
    if code.language.is_none() || is_rust(code) {
        Some(ask_playground(code.code.as_str(), Action::Clippy))
    } else {
        None
    }
}

/// The texts of an issue: its own, then those of its comments in their order,
/// each under the address of its page.
pub open spec fn sources_of(issue: Issue, comments: Seq<Comment>) -> Seq<BodyView> {
    seq![
        BodyView { body: issue.body@, last_update: issue.updated_at, url: issue.html_url@ },
    ] + Seq::new(
        comments.len(),
        |j: int|
            BodyView {
                body: comments[j].body@,
                last_update: comments[j].updated_at,
                url: comments[j].html_url@,
            },
    )
}

/// The texts of an issue and its comments.
pub fn issue_sources(issue: &Issue, comments: &Vec<Comment>) -> (sources: Vec<Body>)
    ensures
        sources.deep_view() == sources_of(*issue, comments@),
{
    let mut sources: Vec<Body> = Vec::new();
    sources.push(
        Body {
            body: issue.body.clone(),
            last_update: issue.updated_at,
            url: issue.html_url.clone(),
        },
    );
    let mut j: usize = 0;
    while j < comments.len()
        invariant
            j <= comments.len(),
            sources.deep_view() == sources_of(*issue, comments@).take(j + 1),
        decreases comments.len() - j,
    {
        let comment = &comments[j];
        let ghost before = sources.deep_view();
        sources.push(
            Body {
                body: comment.body.clone(),
                last_update: comment.updated_at,
                url: comment.html_url.clone(),
            },
        );
        assert(sources.deep_view() =~= sources_of(*issue, comments@).take(j + 2)) by {
            assert(sources_of(*issue, comments@).take(j + 2) =~= sources_of(
                *issue,
                comments@,
            ).take(j + 1).push(sources_of(*issue, comments@)[j + 1]));
        }
        j += 1;
    }
    sources
}

/// A text counts as recent where it changed after `floor`.
pub open spec fn after(floor: i64) -> spec_fn(BodyView) -> bool {
    |body: BodyView| body.last_update > floor
}

/// The texts that changed after `floor`, in their order.
pub fn recent(sources: &Vec<Body>, floor: i64) -> (kept: Vec<Body>)
    ensures
        kept.deep_view() == sources.deep_view().filter(after(floor)),
{
    let ghost all = sources.deep_view();
    let mut kept: Vec<Body> = Vec::new();
    let mut i: usize = 0;
    proof {
        reveal(Seq::filter);
    }
    while i < sources.len()
        invariant
            i <= sources.len(),
            all == sources.deep_view(),
            kept.deep_view() == all.take(i as int).filter(after(floor)),
        decreases sources.len() - i,
    {
        let ghost before = kept.deep_view();
        proof {
            assert(all.take(i + 1) =~= all.take(i as int).push(all[i as int]));
            all.take(i as int).lemma_filter_push(all[i as int], after(floor));
        }
        if sources[i].last_update > floor {
            kept.push(sources[i].clone());
        }
        i += 1;
    }
    assert(all.take(sources.len() as int) =~= all);
    kept
}

/// The code of one text, each piece under the address and the time of the
/// text.
pub open spec fn tagged(source: BodyView, codes: Seq<CodeView>) -> Seq<SampleView> {
    Seq::new(
        codes.len(),
        |j: int| SampleView { from: source.url, ts: source.last_update, code: codes[j] },
    )
}

/// The code of the first `n` texts: text by text, and within a text in the
/// order in which the code was found.
pub open spec fn samples_upto(extracted: Seq<(BodyView, Seq<CodeView>)>, n: int) -> Seq<
    SampleView,
>
    decreases n,
{
    if n <= 0 {
        Seq::empty()
    } else {
        samples_upto(extracted, n - 1) + tagged(extracted[n - 1].0, extracted[n - 1].1)
    }
}

/// The code of all texts.
pub open spec fn samples_of(extracted: Seq<(BodyView, Seq<CodeView>)>) -> Seq<SampleView> {
    samples_upto(extracted, extracted.len() as int)
}

/// Lines up the code that was found in the texts, each piece with the text it
/// came from.
pub fn attribute(extracted: &Vec<(Body, Vec<Code>)>) -> (samples: Vec<Sample>)
    ensures
        samples.deep_view() == samples_of(extracted.deep_view()),
{
    let ghost all = extracted.deep_view();
    let mut samples: Vec<Sample> = Vec::new();
    let mut i: usize = 0;
    while i < extracted.len()
        invariant
            i <= extracted.len(),
            all == extracted.deep_view(),
            samples.deep_view() == samples_upto(all, i as int),
        decreases extracted.len() - i,
    {
        let source = &extracted[i].0;
        let codes = &extracted[i].1;
        let ghost before = samples.deep_view();
        let ghost row = tagged(all[i as int].0, all[i as int].1);
        let mut j: usize = 0;
        while j < codes.len()
            invariant
                j <= codes.len(),
                row == tagged(source.deep_view(), codes.deep_view()),
                samples.deep_view() == before + row.take(j as int),
            decreases codes.len() - j,
        {
            let ghost mid = samples.deep_view();
            let sample = Sample {
                from: source.url.clone(),
                ts: source.last_update,
                code: codes[j].clone(),
            };
            samples.push(sample);
            assert(samples.deep_view() =~= before + row.take(j + 1)) by {
                assert(samples.deep_view() =~= mid.push(row[j as int]));
            }
            j += 1;
        }
        i += 1;
    }
    samples
}

/// What a lint shows: the text that the playground's reply comes down to, or
/// the text of the failure.
pub open spec fn shown(lint: LintView) -> Option<Seq<char>> {
    match lint {
        LintView::NotAsked => None,
        LintView::Reply(response) => Some(normalized(Action::Clippy, response)),
        LintView::Failed(text) => Some(text),
    }
}

/// What the reply says clippy made of a piece of code. For code that is taken
/// for rust it is what the lint shows. Code that names another language has
/// nothing. Code that names no language has nothing among the recent issues;
/// for one issue it has what the lint shows, unless what clippy wrote to
/// stderr holds the sentinel, which marks the code as not rust.
pub open spec fn clippy_field(code: CodeView, lint: LintView, recent: bool) -> Option<Seq<char>> {
    if speaks_rust(code) {
        shown(lint)
    } else if !recent && code.language is None {
        match lint {
            LintView::Reply(response) if occurs(clippy_sentinel(), response.stderr) => None,
            _ => shown(lint),
        }
    } else {
        None
    }
}

/// The entry of the reply for one piece of code. Among the recent issues the
/// entry tells when the text last changed.
pub open spec fn entry_of(sample: SampleView, lint: LintView, recent: bool) -> CodeAndClippyView {
    CodeAndClippyView {
        from: sample.from,
        code: sample.code.code,
        clippy: clippy_field(sample.code, lint, recent),
        ts: if recent {
            Some(sample.ts)
        } else {
            None
        },
    }
}

/// The reply for pieces of code with their lints.
pub open spec fn entries_of(linted: Seq<(SampleView, LintView)>, recent: bool) -> Seq<
    CodeAndClippyView,
> {
    Seq::new(linted.len(), |k: int| entry_of(linted[k].0, linted[k].1, recent))
}

/// What a lint shows.
fn show(lint: &Lint) -> (text: Option<String>)
    ensures
        text.deep_view() == shown(lint.deep_view()),
{
    match lint {
        Lint::NotAsked => None,
        Lint::Reply(response) => Some(ask_playground_simpl(Action::Clippy, response.clone())),
        Lint::Failed(text) => Some(text.clone()),
    }
}

/// The entry of the reply for one piece of code.
fn entry(sample: &Sample, lint: &Lint, recent: bool) -> (out: CodeAndClippy)
    ensures
        out.deep_view() == entry_of(sample.deep_view(), lint.deep_view(), recent),
{
    let clippy = if is_rust(&sample.code) {
        show(lint)
    } else if !recent && sample.code.language.is_none() {
        let foreign = match lint {
            Lint::Reply(response) => !crate::playground::is_rust(response.stderr.as_str()),
            _ => false,
        };
        if foreign {
            None
        } else {
            show(lint)
        }
    } else {
        None
    };
    CodeAndClippy {
        from: sample.from.clone(),
        code: sample.code.code.clone(),
        clippy,
        ts: if recent {
            Some(sample.ts)
        } else {
            None
        },
    }
}

/// The reply for pieces of code with their lints, entry by entry.
fn assemble(linted: &Vec<(Sample, Lint)>, recent: bool) -> (out: Vec<CodeAndClippy>)
    ensures
        out.deep_view() == entries_of(linted.deep_view(), recent),
{
    let ghost all = linted.deep_view();
    let mut out: Vec<CodeAndClippy> = Vec::new();
    let mut k: usize = 0;
    while k < linted.len()
        invariant
            k <= linted.len(),
            all == linted.deep_view(),
            out.deep_view() == entries_of(all, recent).take(k as int),
        decreases linted.len() - k,
    {
        let ghost before = out.deep_view();
        let made = entry(&linted[k].0, &linted[k].1, recent);
        out.push(made);
        assert(out.deep_view() =~= entries_of(all, recent).take(k + 1)) by {
            assert(out.deep_view() =~= before.push(made.deep_view()));
        }
        k += 1;
    }
    out
}

/// The reply to a request for one issue: an entry for each piece of code, in
/// order, none of which tells a time.
pub fn clippied(linted: &Vec<(Sample, Lint)>) -> (out: Vec<CodeAndClippy>)
    ensures
        out.deep_view() == entries_of(linted.deep_view(), false),
{
    assemble(linted, false)
}

/// The reply to a request for the recent issues: an entry for each piece of
/// code, in order, each with the time at which its text last changed.
pub fn repo_issues(linted: &Vec<(Sample, Lint)>) -> (out: Vec<CodeAndClippy>)
    ensures
        out.deep_view() == entries_of(linted.deep_view(), true),
{
    assemble(linted, true)
}

/// Why a request came to nothing.
#[derive(Debug)]
pub enum Failure {
    /// GitHub answered with a status of the 4xx or 5xx class.
    Upstream(UpstreamError),
    /// The request did not get through; the text says why.
    Transport(String),
    /// The reply did not have the expected shape; the text says why.
    Decode(String),
    /// The recent issues were asked for without a token.
    AuthMissing,
}

/// The status of the reply to a request that came to nothing. A missing token
/// is the caller's fault. Every other failure is shown with a status of
/// success, which is what callers of the service expect.
pub open spec fn failure_status(failure: Failure) -> u16 {
    if failure is AuthMissing {
        401
    } else {
        200
    }
}

/// The message of the reply to a request that came to nothing.
pub open spec fn failure_message(failure: Failure) -> Seq<char> {
    if failure is AuthMissing {
        "a token is needed"@
    } else {
        "no issue matching request"@
    }
}

/// The reply to a request that came to nothing: its status and the message
/// that its body carries.
pub fn failure_reply(failure: Failure) -> (reply: (u16, String))
    ensures
        reply.0 == failure_status(failure),
        reply.1@ == failure_message(failure),
        failure is AuthMissing ==> 400 <= reply.0 <= 499,
        !(failure is AuthMissing) ==> 200 <= reply.0 <= 299,
{
    match failure {
        Failure::AuthMissing => (401, "a token is needed".to_owned()),
        _ => (200, "no issue matching request".to_owned()),
    }
}

/// The request for the recent issues of a repository, which needs a token.
pub fn recent_request(owner: &str, repo: &str, token: &Option<String>) -> (request: Result<
    Post,
    Failure,
>)
    ensures
        request is Ok == token is Some,
        request matches Ok(post) ==> {
            &&& post.url@ == "https://api.github.com/graphql"@
            &&& post.headers.deep_view() == seq![
                ("User-Agent"@, "actix"@),
                ("Authorization"@, "bearer "@ + token->0@),
            ]
            &&& post.body@ == query_for(owner@, repo@)
        },
        request matches Err(failure) ==> failure is AuthMissing,
{
    match token {
        Some(t) => Ok(graphql(owner, repo, t.as_str())),
        None => Err(Failure::AuthMissing),
    }
}

/// Piece `j` of text `i` is what stands at place `k` of the line-up.
pub open spec fn supplied(
    extracted: Seq<(BodyView, Seq<CodeView>)>,
    i: int,
    j: int,
    sample: SampleView,
) -> bool {
    &&& 0 <= i < extracted.len()
    &&& 0 <= j < extracted[i].1.len()
    &&& sample == SampleView {
        from: extracted[i].0.url,
        ts: extracted[i].0.last_update,
        code: extracted[i].1[j],
    }
}

proof fn lemma_supplied_upto(extracted: Seq<(BodyView, Seq<CodeView>)>, n: int, k: int)
    requires
        0 <= n <= extracted.len(),
        0 <= k < samples_upto(extracted, n).len(),
    ensures
        exists|i: int, j: int|
            i < n && #[trigger] supplied(extracted, i, j, samples_upto(extracted, n)[k]),
    decreases n,
{
    let before = samples_upto(extracted, n - 1);
    if k < before.len() {
        lemma_supplied_upto(extracted, n - 1, k);
        let (i, j) = choose|i: int, j: int|
            i < n - 1 && #[trigger] supplied(extracted, i, j, samples_upto(extracted, n - 1)[k]);
    } else {
        assert(supplied(extracted, n - 1, k - before.len(), samples_upto(extracted, n)[k]));
    }
}

/// Every piece of code in the line-up stands under the address, and the time,
/// of the text that it was found in.
pub proof fn lemma_sample_origin(extracted: Seq<(BodyView, Seq<CodeView>)>, k: int)
    requires
        0 <= k < samples_of(extracted).len(),
    ensures
        exists|i: int, j: int| #[trigger] supplied(extracted, i, j, samples_of(extracted)[k]),
{
    lemma_supplied_upto(extracted, extracted.len() as int, k);
}

/// An entry of the reply has the address and the code of the piece that it
/// was made for.
pub proof fn lemma_entry_keeps_origin(linted: Seq<(SampleView, LintView)>, recent: bool, k: int)
    requires
        0 <= k < linted.len(),
    ensures
        entries_of(linted, recent).len() == linted.len(),
        entries_of(linted, recent)[k].from == linted[k].0.from,
        entries_of(linted, recent)[k].code == linted[k].0.code.code,
{
}

/// The addresses of the first `n` texts, each as often as the text holds code.
pub open spec fn addresses_upto(extracted: Seq<(BodyView, Seq<CodeView>)>, n: int) -> Seq<
    Seq<char>,
>
    decreases n,
{
    if n <= 0 {
        Seq::empty()
    } else {
        addresses_upto(extracted, n - 1) + Seq::new(
            extracted[n - 1].1.len(),
            |j: int| extracted[n - 1].0.url,
        )
    }
}

/// The addresses under which the entries of a reply stand, in order.
pub open spec fn addresses(reply: Seq<CodeAndClippyView>) -> Seq<Seq<char>> {
    Seq::new(reply.len(), |k: int| reply[k].from)
}

/// The texts of an issue, each with the code found in it.
pub open spec fn issue_extracted(issue: Issue, comments: Seq<Comment>, codes: Seq<Seq<CodeView>>) -> Seq<
    (BodyView, Seq<CodeView>),
> {
    Seq::new(sources_of(issue, comments).len(), |i: int| (sources_of(issue, comments)[i], codes[i]))
}

/// The pieces of code with the lints that came for them.
pub open spec fn with_lints(samples: Seq<SampleView>, lints: Seq<LintView>) -> Seq<
    (SampleView, LintView),
> {
    Seq::new(samples.len(), |k: int| (samples[k], lints[k]))
}

proof fn lemma_addresses_upto(extracted: Seq<(BodyView, Seq<CodeView>)>, n: int)
    requires
        0 <= n <= extracted.len(),
    ensures
        Seq::new(
            samples_upto(extracted, n).len(),
            |k: int| samples_upto(extracted, n)[k].from,
        ) == addresses_upto(extracted, n),
    decreases n,
{
    if n > 0 {
        lemma_addresses_upto(extracted, n - 1);
        let before = samples_upto(extracted, n - 1);
        let shorter = Seq::new(before.len(), |k: int| before[k].from);
        let all = samples_upto(extracted, n);
        assert(Seq::new(all.len(), |k: int| all[k].from) =~= addresses_upto(extracted, n)) by {
            assert forall|k: int| 0 <= k < all.len() implies all[k].from == #[trigger] addresses_upto(
                extracted,
                n,
            )[k] by {
                if k < before.len() {
                    assert(shorter[k] == before[k].from);
                }
            }
        }
    } else {
        assert(Seq::new(
            samples_upto(extracted, n).len(),
            |k: int| samples_upto(extracted, n)[k].from,
        ) =~= addresses_upto(extracted, n));
    }
}

/// In the reply for one issue the addresses read: that of the issue, once for
/// each piece of code in the issue, then that of each comment in the order of
/// the comments, once for each piece of code in the comment. `codes` holds the
/// code found in the issue, then that found in each comment, and `lints` what
/// came for each piece.
pub proof fn lemma_reply_order(
    issue: Issue,
    comments: Seq<Comment>,
    codes: Seq<Seq<CodeView>>,
    lints: Seq<LintView>,
)
    requires
        codes.len() == comments.len() + 1,
    ensures
        ({
            let extracted = issue_extracted(issue, comments, codes);
            let reply = entries_of(with_lints(samples_of(extracted), lints), false);
            &&& extracted.len() == comments.len() + 1
            &&& extracted[0].0.url == issue.html_url@
            &&& forall|i: int|
                0 <= i < comments.len() ==> (#[trigger] extracted[i + 1]).0.url
                    == comments[i].html_url@
            &&& addresses(reply) == addresses_upto(extracted, extracted.len() as int)
        }),
{
    let extracted = issue_extracted(issue, comments, codes);
    lemma_addresses_upto(extracted, extracted.len() as int);
}

/// The token of a request goes out as it came in: a header `Bearer` with the
/// token yields the token again.
pub proof fn lemma_token_kept(token: Seq<char>)
    ensures
        token_of("Bearer "@ + token) == Some(token),
        token_of("bearer "@ + token) == Some(token),
{
    reveal_strlit("Bearer ");
    reveal_strlit("bearer ");
    let upper = "Bearer "@ + token;
    let lower = "bearer "@ + token;
    assert(ascii_lowercase(upper).subrange(0, 7) =~= "bearer "@);
    assert(ascii_lowercase(lower).subrange(0, 7) =~= "bearer "@);
}

} // verus!
