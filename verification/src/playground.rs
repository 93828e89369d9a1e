//! The playground: what is posted to it, and how its reply is read.

use vstd::prelude::*;
use vstd::string::StringExecFns;
use crate::text::{chars_of, contains, copy_of, lines, occurs, split_lines, string_of, views};

verus! {

/// What the playground is asked to do with the code.
#[derive(Debug, PartialEq, Eq, Clone, Copy, Structural)]
pub enum Action {
    Run,
    Test,
    Format,
    Clippy,
}

#[derive(Debug, PartialEq, Eq, Clone, Copy, Structural)]
pub enum Channel {
    Stable,
    Beta,
    Nightly,
}

#[derive(Debug, PartialEq, Eq, Clone, Copy, Structural)]
pub enum Mode {
    Debug,
    Release,
}

#[derive(Debug, PartialEq, Eq, Clone, Copy, Structural)]
pub enum CrateType {
    Bin,
}

/// The body of a request to the playground.
#[derive(Debug)]
pub struct Query {
    pub code: String,
    pub channel: Channel,
    pub mode: Mode,
    pub crate_type: CrateType,
    pub test: bool,
}

impl Query {
    /// The query for `code`: a binary crate, built in debug mode on the stable
    /// channel, run as a test exactly where the action is `Test`.
    pub fn from(action: Action, code: String) -> (query: Query)
        ensures
            query.code == code,
            query.channel == Channel::Stable,
            query.mode == Mode::Debug,
            query.crate_type == CrateType::Bin,
            query.test == (action == Action::Test),
    {
        Query {
            code,
            channel: Channel::Stable,
            mode: Mode::Debug,
            test: action == Action::Test,
            crate_type: CrateType::Bin,
        }
    }
}

/// The reply of the playground.
#[derive(Debug)]
pub struct Response {
    pub success: bool,
    pub stdout: String,
    pub stderr: String,
    pub code: Option<String>,
}

/// What a `Response` holds, with its texts as sequences of characters.
pub struct ResponseView {
    pub success: bool,
    pub stdout: Seq<char>,
    pub stderr: Seq<char>,
    pub code: Option<Seq<char>>,
}

impl DeepView for Response {
    type V = ResponseView;

    open spec fn deep_view(&self) -> ResponseView {
        ResponseView {
            success: self.success,
            stdout: self.stdout@,
            stderr: self.stderr@,
            code: self.code.deep_view(),
        }
    }
}

impl Clone for Response {
    fn clone(&self) -> (copy: Self)
        ensures
            copy == *self,
    {
        Response {
            success: self.success,
            stdout: self.stdout.clone(),
            stderr: self.stderr.clone(),
            code: copy_of(&self.code),
        }
    }
}

/// A request to the playground: the query is posted to `url`, and the reply is
/// awaited for `timeout_secs` seconds.
#[derive(Debug)]
pub struct PlaygroundRequest {
    pub url: String,
    pub timeout_secs: u64,
    pub query: Query,
}

/// Where an action is posted to.
pub open spec fn endpoint(action: Action) -> Seq<char> {
    match action {
        Action::Run => "https://play.rust-lang.org/execute"@,
        Action::Test => "https://play.rust-lang.org/execute"@,
        Action::Clippy => "https://play.rust-lang.org/clippy"@,
        Action::Format => "https://play.rust-lang.org/format"@,
    }
}

/// The text whose presence shows that code has a main function.
pub open spec fn main_marker() -> Seq<char> {
    "fn main()"@
}

/// Code as it is submitted: as it is where it holds the marker, else wrapped
/// in a main function.
pub open spec fn wrapped(code: Seq<char>) -> Seq<char> {
    if occurs(main_marker(), code) {
        code
    } else {
        "fn main() {"@ + code + "}"@
    }
}

/// Wraps `code` in a main function unless it holds the text `fn main()`.
pub fn wrap_in_main_if_not_present(code: &str) -> (submitted: String)
    ensures
        submitted@ == wrapped(code@),
{
    let chars = chars_of(code);
    let marker = chars_of("fn main()");
    if contains(&chars, &marker) {
        code.to_owned()
    } else {
        let mut submitted = String::from_str("fn main() {");
        submitted.append(code);
        submitted.append("}");
        submitted
    }
}

/// The request that asks the playground to do `action` with `code`.
pub fn ask_playground(code: &str, action: Action) -> (request: PlaygroundRequest)
    ensures
        request.url@ == endpoint(action),
        request.timeout_secs == 30,
        request.query.code@ == wrapped(code@),
        request.query.channel == Channel::Stable,
        request.query.mode == Mode::Debug,
        request.query.crate_type == CrateType::Bin,
        request.query.test == (action == Action::Test),
{
    let url = match action {
        Action::Run => "https://play.rust-lang.org/execute",
        Action::Test => "https://play.rust-lang.org/execute",
        Action::Clippy => "https://play.rust-lang.org/clippy",
        Action::Format => "https://play.rust-lang.org/format",
    };
    PlaygroundRequest {
        url: url.to_owned(),
        timeout_secs: 30,
        query: Query::from(action, wrap_in_main_if_not_present(code)),
    }
}

/// The text of the line that reports the end of a build.
pub open spec fn banner() -> Seq<char> {
    "Finished dev"@
}

/// The lines from `from` on, each with a newline after it, up to the first
/// line that holds the banner.
pub open spec fn report_from(lines: Seq<Seq<char>>, from: int) -> Seq<char>
    decreases lines.len() - from,
{
    if from < 0 || from >= lines.len() || occurs(banner(), lines[from]) {
        Seq::empty()
    } else {
        lines[from] + seq!['\n'] + report_from(lines, from + 1)
    }
}

/// What clippy says in `stderr`: the lines after the first, which repeats the
/// command, and before the first that holds the banner.
pub open spec fn clippy_report(stderr: Seq<char>) -> Seq<char> {
    report_from(lines(stderr), 1)
}

/// The text that a reply comes down to. A failure gives what went to stderr.
/// A successful clippy run gives clippy's report, a successful format gives
/// the formatted code where the reply holds it, and anything else gives what
/// went to stdout.
pub open spec fn normalized(action: Action, response: ResponseView) -> Seq<char> {
    if !response.success {
        response.stderr
    } else if action == Action::Clippy {
        clippy_report(response.stderr)
    } else if action == Action::Format && response.code is Some {
        response.code->0
    } else {
        response.stdout
    }
}

/// What clippy says in `stderr`.
pub fn report_of(stderr: &str) -> (report: String)
    ensures
        report@ == clippy_report(stderr@),
{
    let chars = chars_of(stderr);
    let rows = split_lines(&chars);
    let mark = chars_of("Finished dev");
    let mut out: Vec<char> = Vec::new();
    let mut i: usize = 1;
    let ghost all = lines(stderr@);
    while i < rows.len()
        invariant
            1 <= i,
            all == lines(stderr@),
            all == views(rows@),
            mark@ == banner(),
            out@ + report_from(all, i as int) == report_from(all, 1),
        decreases rows.len() - i,
    {
        let row = &rows[i];
        if contains(row, &mark) {
            return string_of(&out);
        }
        let ghost before = out@;
        let mut k: usize = 0;
        while k < row.len()
            invariant
                k <= row.len(),
                out@ == before + row@.take(k as int),
            decreases row.len() - k,
        {
            out.push(row[k]);
            k += 1;
        }
        out.push('\n');
        assert(out@ + report_from(all, i + 1) =~= before + report_from(all, i as int));
        i += 1;
    }
    string_of(&out)
}

/// The text that the reply to `action` comes down to.
pub fn ask_playground_simpl(action: Action, playground: Response) -> (text: String)
    ensures
        text@ == normalized(action, playground.deep_view()),
{
    if !playground.success {
        return playground.stderr;
    }
    match action {
        Action::Clippy => report_of(playground.stderr.as_str()),
        Action::Format => match playground.code {
            Some(code) => code,
            None => playground.stdout,
        },
        _ => playground.stdout,
    }
}

/// The text that clippy prints where it could make nothing of the code.
pub open spec fn clippy_sentinel() -> Seq<char> {
    "for further information visit https://rust-lang-nursery.github.io/rust-clippy"@
}

/// Whether clippy's output speaks of rust code: it does unless it holds the
/// sentinel. This is the older test, for code that carries no language.
pub fn is_rust(output: &str) -> (rust: bool)
    ensures
        rust == !occurs(clippy_sentinel(), output@),
{
    let chars = chars_of(output);
    let sentinel = chars_of(
        "for further information visit https://rust-lang-nursery.github.io/rust-clippy",
    );
    !contains(&chars, &sentinel)
}

} // verus!
