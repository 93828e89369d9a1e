//! Code found in a markdown text: the blocks it holds, and the gists that its
//! playground links point to.
//!
//! A text is read in two steps. `get_code_samples` parses it and walks the
//! document, which yields fragments: code that stands in the text, and ids of
//! gists that still have to be fetched. The walk stops at a code block, at a
//! text and at a link that names a gist; it goes below every other node.
//! `code_samples` then turns the fragments, each with what the fetch brought,
//! into code.

use vstd::prelude::*;
use crate::github::gist::{Gist, GistView};
use crate::text::copy_of;

verus! {

/// A piece of code taken from a text.
#[derive(Debug)]
pub struct Code {
    pub code: String,
    /// The gist the code came from, where a playground link led to it.
    pub gist_id: Option<String>,
    /// The info string of the fence, where the block had one.
    pub language: Option<String>,
}

/// What a `Code` holds, with its texts as sequences of characters.
pub struct CodeView {
    pub code: Seq<char>,
    pub gist_id: Option<Seq<char>>,
    pub language: Option<Seq<char>>,
}

impl DeepView for Code {
    type V = CodeView;

    open spec fn deep_view(&self) -> CodeView {
        CodeView {
            code: self.code@,
            gist_id: self.gist_id.deep_view(),
            language: self.language.deep_view(),
        }
    }
}

impl Clone for Code {
    fn clone(&self) -> (copy: Self)
        ensures
            copy == *self,
    {
        Code {
            code: self.code.clone(),
            gist_id: copy_of(&self.gist_id),
            language: copy_of(&self.language),
        }
    }
}

/// What the walk reads of one node of a parsed document.
#[derive(Debug)]
pub enum Markup {
    /// A code block, fenced or indented.
    CodeBlock { info: String, literal: String },
    /// A link with its destination.
    Link { url: String },
    /// A run of text.
    Text { text: String },
    /// Any other node.
    Other,
}

/// What a `Markup` holds, with its texts as sequences of characters.
pub enum MarkupView {
    CodeBlock { info: Seq<char>, literal: Seq<char> },
    Link { url: Seq<char> },
    Text { text: Seq<char> },
    Other,
}

impl DeepView for Markup {
    type V = MarkupView;

    open spec fn deep_view(&self) -> MarkupView {
        match self {
            Markup::CodeBlock { info, literal } => MarkupView::CodeBlock {
                info: info@,
                literal: literal@,
            },
            Markup::Link { url } => MarkupView::Link { url: url@ },
            Markup::Text { text } => MarkupView::Text { text: text@ },
            Markup::Other => MarkupView::Other,
        }
    }
}

/// One node of a parsed document. A document is held as the list of its nodes
/// in tree order, parents before their children, each with its depth.
#[derive(Debug)]
pub struct Item {
    pub depth: usize,
    pub markup: Markup,
}

/// What a `Item` holds, with its texts as sequences of characters.
pub struct ItemView {
    pub depth: nat,
    pub markup: MarkupView,
}

impl DeepView for Item {
    type V = ItemView;

    open spec fn deep_view(&self) -> ItemView {
        ItemView { depth: self.depth as nat, markup: self.markup.deep_view() }
    }
}

/// The host and the query of a parsed URI.
#[derive(Debug)]
pub struct UriParts {
    pub host: Option<String>,
    pub query: Option<String>,
}

/// What a `UriParts` holds, with its texts as sequences of characters.
pub struct UriView {
    pub host: Option<Seq<char>>,
    pub query: Option<Seq<char>>,
}

impl DeepView for UriParts {
    type V = UriView;

    open spec fn deep_view(&self) -> UriView {
        UriView { host: self.host.deep_view(), query: self.query.deep_view() }
    }
}

/// What the walk yields: code that stands in the text, or the id of a gist that
/// a playground link names.
#[derive(Debug)]
pub enum Fragment {
    Literal(Code),
    Playground { gist: String },
}

/// What a `Fragment` holds, with its texts as sequences of characters.
pub enum FragmentView {
    Literal(CodeView),
    Playground { gist: Seq<char> },
}

impl DeepView for Fragment {
    type V = FragmentView;

    open spec fn deep_view(&self) -> FragmentView {
        match self {
            Fragment::Literal(code) => FragmentView::Literal(code.deep_view()),
            Fragment::Playground { gist } => FragmentView::Playground { gist: gist@ },
        }
    }
}

/// The nodes of the document that `comrak::parse_document` makes of `doc` with
/// default options, in tree order, each with the number of nodes from it up to
/// the root.
pub uninterp spec fn markdown_outline(doc: Seq<char>) -> Seq<ItemView>;

/// The host and the query that `http::Uri` reads from `link`; `None` where it
/// does not take `link` for a URI.
pub uninterp spec fn parsed_uri(link: Seq<char>) -> Option<UriView>;

/// The key-value pairs that `serde_urlencoded::from_str` reads from `query`;
/// `None` where it fails.
pub uninterp spec fn urlencoded_pairs(query: Seq<char>) -> Option<Seq<(Seq<char>, Seq<char>)>>;

/// The links that a default `linkify::LinkFinder` finds in `text`, in order.
pub uninterp spec fn links_in(text: Seq<char>) -> Seq<Seq<char>>;

/// Parses `doc` with `comrak::parse_document` under default options and lists
/// the nodes as `Node::descendants` hands them out. Each node comes with the
/// length of `Node::ancestors`, and with its literal and info string, its
/// destination or its text where it is a code block, a link or a text. The
/// contract only names the result.
#[verifier::external_body]
fn parse_outline(doc: &str) -> (items: Vec<Item>)
    ensures
        items.deep_view() == markdown_outline(doc@),
{
    let arena = comrak::Arena::new();
    let root = comrak::parse_document(&arena, doc, &comrak::Options::default());
    root.descendants().map(|node| Item {
        depth: node.ancestors().count(),
        markup: match &node.data().value {
            comrak::nodes::NodeValue::CodeBlock(b) => Markup::CodeBlock { info: b.info.clone(), literal: b.literal.clone() },
            comrak::nodes::NodeValue::Link(l) => Markup::Link { url: l.url.clone() },
            comrak::nodes::NodeValue::Text(t) => Markup::Text { text: t.to_string() },
            _ => Markup::Other,
        },
    }).collect()
}

/// Parses `link` as an `http::Uri` and copies what `Uri::host` and `Uri::query`
/// return. The contract only names the result.
#[verifier::external_body]
fn parse_uri(link: &str) -> (uri: Option<UriParts>)
    ensures
        uri.deep_view() == parsed_uri(link@),
{
    link.parse::<http::Uri>().ok().map(|uri| UriParts {
        host: uri.host().map(|h| h.to_string()),
        query: uri.query().map(|q| q.to_string()),
    })
}

/// Reads `query` as a list of pairs with `serde_urlencoded::from_str`. The
/// contract only names the result.
#[verifier::external_body]
fn query_pairs(query: &str) -> (pairs: Option<Vec<(String, String)>>)
    ensures
        pairs.deep_view() == urlencoded_pairs(query@),
{
    serde_urlencoded::from_str::<Vec<(String, String)>>(query).ok()
}

/// Lists what `linkify::LinkFinder::links` finds in `text`, each link as
/// `Link::as_str` gives it. The contract only names the result.
#[verifier::external_body]
fn find_links(text: &str) -> (links: Vec<String>)
    ensures
        links.deep_view() == links_in(text@),
{
    linkify::LinkFinder::new().links(text).map(|link| link.as_str().to_string()).collect()
}

/// The host of the playground.
pub open spec fn playground_host() -> Seq<char> {
    "play.rust-lang.org"@
}

/// The query parameter that names a gist.
pub open spec fn gist_key() -> Seq<char> {
    "gist"@
}

/// The positions in `pairs` at which `key` stands.
pub open spec fn is_hit(pairs: Seq<(Seq<char>, Seq<char>)>, key: Seq<char>, i: int) -> bool {
    0 <= i < pairs.len() && pairs[i].0 == key
}

/// The value given to `key`, where `pairs` gives it exactly one.
pub open spec fn single_value(pairs: Seq<(Seq<char>, Seq<char>)>, key: Seq<char>) -> Option<
    Seq<char>,
> {
    if exists|i: int|
        is_hit(pairs, key, i) && forall|j: int| is_hit(pairs, key, j) ==> j == i {
        Some(pairs[choose|i: int| is_hit(pairs, key, i)].1)
    } else {
        None
    }
}

/// The gist that a URI names: it has the playground's host and its query gives
/// `gist` exactly one value.
pub open spec fn gist_of_uri(uri: UriView) -> Option<Seq<char>> {
    if uri.host == Some(playground_host()) {
        let query = match uri.query {
            Some(q) => q,
            None => Seq::empty(),
        };
        match urlencoded_pairs(query) {
            Some(pairs) => single_value(pairs, gist_key()),
            None => None,
        }
    } else {
        None
    }
}

/// The gist that a link names, if it is a playground link.
pub open spec fn gist_of_link(link: Seq<char>) -> Option<Seq<char>> {
    match parsed_uri(link) {
        Some(uri) => gist_of_uri(uri),
        None => None,
    }
}

/// The value that `pairs` gives to `key`, where it gives exactly one.
pub fn only_value(pairs: &Vec<(String, String)>, key: &str) -> (value: Option<String>)
    ensures
        value.deep_view() == single_value(pairs.deep_view(), key@),
{
    let wanted = key.to_owned();
    let mut found: Option<usize> = None;
    let mut i: usize = 0;
    let ghost view = pairs.deep_view();
    while i < pairs.len()
        invariant
            i <= pairs.len(),
            view == pairs.deep_view(),
            wanted@ == key@,
            match found {
                Some(at) => at < i && is_hit(view, key@, at as int) && forall|j: int|
                    0 <= j < i && is_hit(view, key@, j) ==> j == at,
                None => forall|j: int| 0 <= j < i ==> !is_hit(view, key@, j),
            },
        decreases pairs.len() - i,
    {
        if pairs[i].0 == wanted {
            assert(is_hit(view, key@, i as int));
            if found.is_some() {
                return None;
            }
            found = Some(i);
        }
        i += 1;
    }
    match found {
        Some(at) => {
            Some(pairs[at].1.clone())
        },
        None => None,
    }
}

/// Whether the URI has the playground's host.
pub fn is_playground(uri: &UriParts) -> (yes: bool)
    ensures
        yes == (uri.deep_view().host == Some(playground_host())),
{
    match &uri.host {
        Some(host) => {
            let wanted = "play.rust-lang.org".to_owned();
            *host == wanted
        },
        None => false,
    }
}

/// The gist that a parsed URI names, if it is a playground link.
pub fn gist_in_uri(uri: &UriParts) -> (gist: Option<String>)
    ensures
        gist.deep_view() == gist_of_uri(uri.deep_view()),
{
    if !is_playground(uri) {
        return None;
    }
    let pairs = match &uri.query {
        Some(query) => query_pairs(query.as_str()),
        None => query_pairs(""),
    };
    proof {
        reveal_strlit("");
        assert(""@ =~= Seq::<char>::empty());
    }
    match pairs {
        Some(pairs) => only_value(&pairs, "gist"),
        None => None,
    }
}

/// The gist that a link names, if it is a playground link.
pub fn playground_gist(link: &str) -> (gist: Option<String>)
    ensures
        gist.deep_view() == gist_of_link(link@),
{
    match parse_uri(link) {
        Some(uri) => gist_in_uri(&uri),
        None => None,
    }
}

/// What a link yields: the gist it names, where it is a playground link.
pub open spec fn link_fragments(link: Seq<char>) -> Seq<FragmentView> {
    match gist_of_link(link) {
        Some(gist) => seq![FragmentView::Playground { gist }],
        None => Seq::empty(),
    }
}

/// What the first `n` of `links` yield, in order.
pub open spec fn links_fragments(links: Seq<Seq<char>>, n: int) -> Seq<FragmentView>
    decreases n,
{
    if n <= 0 {
        Seq::empty()
    } else {
        links_fragments(links, n - 1) + link_fragments(links[n - 1])
    }
}

/// The language of a code block: its info string, unless that is empty.
pub open spec fn language_of(info: Seq<char>) -> Option<Seq<char>> {
    if info.len() == 0 {
        None
    } else {
        Some(info)
    }
}

/// What one node yields. A code block yields its literal. A link yields the
/// gist it names. A text yields the gists that the links found in it name.
pub open spec fn item_fragments(markup: MarkupView) -> Seq<FragmentView> {
    match markup {
        MarkupView::CodeBlock { info, literal } => seq![
            FragmentView::Literal(
                CodeView { code: literal, gist_id: None, language: language_of(info) },
            ),
        ],
        MarkupView::Link { url } => link_fragments(url),
        MarkupView::Text { text } => links_fragments(links_in(text), links_in(text).len() as int),
        MarkupView::Other => Seq::empty(),
    }
}

/// The walk does not go below a code block, a text, or a link that names a
/// gist. A link that names none is a node like any other: the walk goes on to
/// what stands below it.
pub open spec fn is_leaf(markup: MarkupView) -> bool {
    match markup {
        MarkupView::CodeBlock { .. } => true,
        MarkupView::Link { url } => gist_of_link(url) is Some,
        MarkupView::Text { .. } => true,
        MarkupView::Other => false,
    }
}

/// Every item after `j` and before `i` lies deeper than item `j`.
pub open spec fn within(items: Seq<ItemView>, j: int, i: int) -> bool {
    &&& 0 <= j < i <= items.len()
    &&& forall|k: int| j < k < i ==> (#[trigger] items[k]).depth > items[j].depth
}

/// Item `i` lies below an item at which the walk stops, so the walk never
/// comes to it.
pub open spec fn hidden(items: Seq<ItemView>, i: int) -> bool {
    exists|j: int| 0 <= j < i && is_leaf(items[j].markup) && #[trigger] within(items, j, i + 1)
}

/// What the first `n` items yield: the fragments of each item that the walk
/// comes to, in the order of the items.
pub open spec fn fragments_upto(items: Seq<ItemView>, n: int) -> Seq<FragmentView>
    decreases n,
{
    if n <= 0 {
        Seq::empty()
    } else if hidden(items, n - 1) {
        fragments_upto(items, n - 1)
    } else {
        fragments_upto(items, n - 1) + item_fragments(items[n - 1].markup)
    }
}

/// What a document yields.
pub open spec fn fragments(items: Seq<ItemView>) -> Seq<FragmentView> {
    fragments_upto(items, items.len() as int)
}

/// Appends to `out` the gist that `link` names, where it is a playground link,
/// and tells whether it is one.
fn push_link(link: &str, out: &mut Vec<Fragment>) -> (named: bool)
    ensures
        final(out).deep_view() == old(out).deep_view() + link_fragments(link@),
        named == (gist_of_link(link@) is Some),
{
    match playground_gist(link) {
        Some(gist) => {
            out.push(Fragment::Playground { gist });
            true
        },
        None => false,
    }
}

/// Appends to `out` what one node yields, and tells whether the walk stops at
/// the node.
fn push_fragments(markup: &Markup, out: &mut Vec<Fragment>) -> (leaf: bool)
    ensures
        final(out).deep_view() == old(out).deep_view() + item_fragments(markup.deep_view()),
        leaf == is_leaf(markup.deep_view()),
{
    match markup {
        Markup::CodeBlock { info, literal } => {
            let language = if info.as_str().is_empty() {
                None
            } else {
                Some(info.clone())
            };
            let code = Code { code: literal.clone(), gist_id: None, language };
            out.push(Fragment::Literal(code));
            true
        },
        Markup::Link { url } => push_link(url.as_str(), out),
        Markup::Text { text } => {
            let links = find_links(text.as_str());
            let ghost found = links.deep_view();
            let mut k: usize = 0;
            while k < links.len()
                invariant
                    k <= links.len(),
                    found == links.deep_view(),
                    out.deep_view() == old(out).deep_view() + links_fragments(found, k as int),
                decreases links.len() - k,
            {
                push_link(links[k].as_str(), out);
                assert(out.deep_view() =~= old(out).deep_view() + links_fragments(found, k + 1));
                k += 1;
            }
            true
        },
        Markup::Other => false,
    }
}

/// Whether the walk stops at a node: at a code block, at a text, and at a link
/// that names a gist.
pub fn stops_walk(markup: &Markup) -> (leaf: bool)
    ensures
        leaf == is_leaf(markup.deep_view()),
{
    match markup {
        Markup::CodeBlock { .. } => true,
        Markup::Link { url } => playground_gist(url.as_str()).is_some(),
        Markup::Text { .. } => true,
        Markup::Other => false,
    }
}

/// Walks a document and collects what it yields.
pub fn collect_fragments(items: &Vec<Item>) -> (out: Vec<Fragment>)
    ensures
        out.deep_view() == fragments(items.deep_view()),
{
    let ghost view = items.deep_view();
    let mut out: Vec<Fragment> = Vec::new();
    // The depth of the leaf that the walk is below, and where that leaf stands.
    let mut cover: Option<usize> = None;
    let ghost mut leaf: int = 0;
    let mut i: usize = 0;
    while i < items.len()
        invariant
            i <= items.len(),
            view == items.deep_view(),
            out.deep_view() == fragments_upto(view, i as int),
            match cover {
                Some(depth) => {
                    &&& is_leaf(view[leaf].markup)
                    &&& !hidden(view, leaf)
                    &&& view[leaf].depth == depth
                    &&& within(view, leaf, i as int)
                },
                None => forall|j: int|
                    0 <= j < i && is_leaf(view[j].markup) ==> !#[trigger] within(view, j, i as int),
            },
        decreases items.len() - i,
    {
        let item = &items[i];
        let below = match cover {
            Some(depth) => item.depth > depth,
            None => false,
        };
        if below {
            assert(within(view, leaf, i + 1));
        } else {
            assert(!hidden(view, i as int)) by {
                assert forall|j: int| 0 <= j < i && is_leaf(view[j].markup) implies !within(
                    view,
                    j,
                    i + 1,
                ) by {
                    if within(view, j, i + 1) {
                        match cover {
                            Some(depth) => {
                                if j < leaf {
                                    assert(within(view, j, leaf + 1));
                                }
                            },
                            None => {
                                assert(within(view, j, i as int));
                            },
                        }
                    }
                }
            }
            let stops = push_fragments(&item.markup, &mut out);
            if stops {
                cover = Some(item.depth);
                proof {
                    leaf = i as int;
                }
            } else {
                cover = None;
                assert forall|j: int| 0 <= j < i + 1 && is_leaf(view[j].markup) implies !within(
                    view,
                    j,
                    i + 1,
                ) by {
                    assert(j < i);
                }
            }
        }
        i += 1;
    }
    out
}

/// Parses a text and collects what it yields: the code blocks in it, and the
/// gists that its playground links name, in the order of the document.
pub fn get_code_samples(doc: &str) -> (out: Vec<Fragment>)
    ensures
        out.deep_view() == fragments(markdown_outline(doc@)),
{
    let items = parse_outline(doc);
    collect_fragments(&items)
}

/// The code that a fragment stands for, given what the fetch of its gist
/// brought. Code that stood in the text is kept. A playground link becomes the
/// content of the gist's first file; it is dropped where the fetch brought
/// nothing or the gist has no file.
pub open spec fn resolved(fragment: FragmentView, gist: Option<GistView>) -> Option<CodeView> {
    match fragment {
        FragmentView::Literal(code) => Some(code),
        FragmentView::Playground { gist: id } => match gist {
            Some(g) => match g.first_content() {
                Some(content) => Some(CodeView { code: content, gist_id: Some(id), language: None }),
                None => None,
            },
            None => None,
        },
    }
}

/// The code that the first `n` fragments stand for, in order.
pub open spec fn samples_upto(
    fetched: Seq<(FragmentView, Option<GistView>)>,
    n: int,
) -> Seq<CodeView>
    decreases n,
{
    if n <= 0 {
        Seq::empty()
    } else {
        match resolved(fetched[n - 1].0, fetched[n - 1].1) {
            Some(code) => samples_upto(fetched, n - 1).push(code),
            None => samples_upto(fetched, n - 1),
        }
    }
}

/// The code that a fragment stands for, given what the fetch of its gist
/// brought.
pub fn resolve(fragment: &Fragment, gist: &Option<Gist>) -> (code: Option<Code>)
    ensures
        code.deep_view() == resolved(fragment.deep_view(), gist.deep_view()),
{
    match fragment {
        Fragment::Literal(code) => Some(code.clone()),
        Fragment::Playground { gist: id } => match gist {
            Some(g) => match g.first_content() {
                Some(content) => Some(
                    Code { code: content, gist_id: Some(id.clone()), language: None },
                ),
                None => None,
            },
            None => None,
        },
    }
}

/// The code of a text: each fragment, paired with what the fetch of its gist
/// brought, becomes code or is dropped, and the order is kept.
pub fn code_samples(fetched: &Vec<(Fragment, Option<Gist>)>) -> (codes: Vec<Code>)
    ensures
        codes.deep_view() == samples_upto(fetched.deep_view(), fetched.len() as int),
{
    let ghost view = fetched.deep_view();
    let mut codes: Vec<Code> = Vec::new();
    let mut i: usize = 0;
    while i < fetched.len()
        invariant
            i <= fetched.len(),
            view == fetched.deep_view(),
            codes.deep_view() == samples_upto(view, i as int),
        decreases fetched.len() - i,
    {
        match resolve(&fetched[i].0, &fetched[i].1) {
            Some(code) => {
                codes.push(code);
            },
            None => {},
        }
        i += 1;
    }
    codes
}

/// Up to an item that the walk comes to, a document in which no earlier item
/// yields anything yields nothing; from there on it yields what that item
/// yields, as long as no later item adds to it.
proof fn lemma_only_item(items: Seq<ItemView>, at: int, n: int)
    requires
        0 <= at < items.len(),
        0 <= n <= items.len(),
        !hidden(items, at),
        forall|j: int|
            0 <= j < items.len() && j != at ==> hidden(items, j) || item_fragments(
                #[trigger] items[j].markup,
            ).len() == 0,
    ensures
        fragments_upto(items, n) == if n <= at {
            Seq::empty()
        } else {
            item_fragments(items[at].markup)
        },
    decreases n,
{
    if n > 0 {
        lemma_only_item(items, at, n - 1);
        if n - 1 != at && !hidden(items, n - 1) {
            assert(item_fragments(items[n - 1].markup) =~= Seq::empty());
        }
        assert(fragments_upto(items, n) =~= if n <= at {
            Seq::empty()
        } else {
            item_fragments(items[at].markup)
        });
    }
}

/// A document with one code block that the walk comes to, and nothing else
/// that yields anything, yields exactly that block's literal, with no gist id.
pub proof fn lemma_single_block(items: Seq<ItemView>, at: int)
    requires
        0 <= at < items.len(),
        items[at].markup is CodeBlock,
        !hidden(items, at),
        forall|j: int|
            0 <= j < items.len() && j != at ==> hidden(items, j) || item_fragments(
                #[trigger] items[j].markup,
            ).len() == 0,
    ensures
        fragments(items) == seq![
            FragmentView::Literal(
                CodeView {
                    code: items[at].markup->literal,
                    gist_id: None,
                    language: language_of(items[at].markup->info),
                },
            ),
        ],
{
    lemma_only_item(items, at, items.len() as int);
}

/// The text of a link that names no gist is read: a link with a text below
/// it yields what the text yields, whatever the depths are. Where the link
/// does name a gist and the text lies deeper, the link alone is read.
pub proof fn lemma_link_text(url: Seq<char>, text: Seq<char>, above: nat, below: nat)
    ensures
        ({
            let items = seq![
                ItemView { depth: above, markup: MarkupView::Link { url } },
                ItemView { depth: below, markup: MarkupView::Text { text } },
            ];
            &&& gist_of_link(url) is None ==> fragments(items) == item_fragments(
                MarkupView::Text { text },
            )
            &&& gist_of_link(url) is Some && below > above ==> fragments(items) == link_fragments(
                url,
            )
        }),
{
    let items = seq![
        ItemView { depth: above, markup: MarkupView::Link { url } },
        ItemView { depth: below, markup: MarkupView::Text { text } },
    ];
    assert(!hidden(items, 0));
    assert(fragments_upto(items, 1) =~= link_fragments(url)) by {
        assert(fragments_upto(items, 0) =~= Seq::empty());
    }
    if gist_of_link(url) is None {
        assert(!hidden(items, 1));
        assert(fragments(items) =~= item_fragments(MarkupView::Text { text }));
    } else if below > above {
        let at: int = 1;
        assert(is_leaf(items[0].markup));
        assert(within(items, 0, at + 1));
        assert(hidden(items, at));
    }
}

} // verus!
