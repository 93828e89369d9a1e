use beast_glatisant::github::gist::{File, Gist};
use beast_glatisant::markdown::{
    code_samples, collect_fragments, get_code_samples, gist_in_uri, is_playground, only_value,
    playground_gist, resolve, stops_walk, Code, Fragment, Item, Markup, UriParts,
};

fn literal(fragment: &Fragment) -> &Code {
    match fragment {
        Fragment::Literal(code) => code,
        other => panic!("expected code, found {:?}", other),
    }
}

fn gist_id(fragment: &Fragment) -> &str {
    match fragment {
        Fragment::Playground { gist } => gist,
        other => panic!("expected a gist, found {:?}", other),
    }
}

fn gist_with(files: Vec<(&str, &str)>) -> Gist {
    Gist {
        url: "https://api.github.com/gists/G".to_string(),
        id: "G".to_string(),
        node_id: "n".to_string(),
        html_url: "https://gist.github.com/G".to_string(),
        files: files
            .into_iter()
            .map(|(name, content)| {
                (
                    name.to_string(),
                    File { filename: name.to_string(), content: content.to_string() },
                )
            })
            .collect(),
    }
}

fn pairs(list: Vec<(&str, &str)>) -> Vec<(String, String)> {
    list.into_iter().map(|(k, v)| (k.to_string(), v.to_string())).collect()
}

fn item(depth: usize, markup: Markup) -> Item {
    Item { depth, markup }
}

fn block(literal: &str) -> Markup {
    Markup::CodeBlock { info: String::new(), literal: literal.to_string() }
}

#[test]
fn fenced_block_yields_its_literal() {
    let out = get_code_samples("```rust\nfn x(){}\n```\n");
    assert_eq!(out.len(), 1);
    let code = literal(&out[0]);
    assert_eq!(code.code, "fn x(){}\n");
    assert_eq!(code.gist_id, None);
    assert_eq!(code.language, Some("rust".to_string()));
}

#[test]
fn four_backtick_fence_without_info_has_no_language() {
    let out = get_code_samples("````\nfn x(){}\n````");
    assert_eq!(out.len(), 1);
    let code = literal(&out[0]);
    assert_eq!(code.code, "fn x(){}\n");
    assert_eq!(code.gist_id, None);
    assert_eq!(code.language, None);
}

#[test]
fn indented_block_yields_its_literal() {
    let out = get_code_samples("text\n\n    let a = 1;\n    let b = 2;\n\nmore text\n");
    assert_eq!(out.len(), 1);
    let code = literal(&out[0]);
    assert_eq!(code.code, "let a = 1;\nlet b = 2;\n");
    assert_eq!(code.language, None);
}

#[test]
fn fence_keeps_the_whole_info_string() {
    let out = get_code_samples("```Python extra\nprint(1)\n```\n");
    assert_eq!(literal(&out[0]).language, Some("Python extra".to_string()));
}

#[test]
fn prose_without_code_yields_nothing() {
    assert!(get_code_samples("just *some* text with `inline code`\n\n- a list\n").is_empty());
    assert!(get_code_samples("").is_empty());
}

#[test]
fn bare_playground_url_yields_its_gist() {
    let out = get_code_samples("see https://play.rust-lang.org/?gist=G1");
    assert_eq!(out.len(), 1);
    assert_eq!(gist_id(&out[0]), "G1");
}

#[test]
fn explicit_playground_link_yields_its_gist_once() {
    let out = get_code_samples(
        "[https://play.rust-lang.org/?gist=abc](https://play.rust-lang.org/?gist=abc&version=stable)",
    );
    assert_eq!(out.len(), 1);
    assert_eq!(gist_id(&out[0]), "abc");
}

#[test]
fn angle_bracket_link_yields_its_gist_once() {
    let out = get_code_samples("here: <https://play.rust-lang.org/?gist=abc>\n");
    assert_eq!(out.len(), 1);
    assert_eq!(gist_id(&out[0]), "abc");
}

#[test]
fn links_to_other_hosts_yield_nothing() {
    assert!(get_code_samples("see https://example.org/?gist=G1 and [x](https://github.com/?gist=1)").is_empty());
}

#[test]
fn several_links_in_one_text_come_in_order() {
    let out = get_code_samples(
        "first https://play.rust-lang.org/?gist=one then https://example.org/ then https://play.rust-lang.org/?version=stable&gist=two end",
    );
    assert_eq!(out.len(), 2);
    assert_eq!(gist_id(&out[0]), "one");
    assert_eq!(gist_id(&out[1]), "two");
}

#[test]
fn fragments_follow_the_order_of_the_document() {
    let doc = "```rust\nfn a(){}\n```\n\nsee https://play.rust-lang.org/?gist=mid here\n\n> ```\n> fn b(){}\n> ```\n";
    let out = get_code_samples(doc);
    assert_eq!(out.len(), 3);
    assert_eq!(literal(&out[0]).code, "fn a(){}\n");
    assert_eq!(gist_id(&out[1]), "mid");
    assert_eq!(literal(&out[2]).code, "fn b(){}\n");
}

#[test]
fn playground_gist_reads_host_and_query() {
    assert_eq!(playground_gist("https://play.rust-lang.org/?gist=G"), Some("G".to_string()));
    assert_eq!(
        playground_gist("http://play.rust-lang.org/?version=stable&gist=a%2Fb&mode=debug"),
        Some("a/b".to_string())
    );
    assert_eq!(playground_gist("https://play.rust-lang.org:443/x?gist="), Some(String::new()));
}

#[test]
fn playground_gist_rejects_other_links() {
    assert_eq!(playground_gist("https://play.rust-lang.org/"), None);
    assert_eq!(playground_gist("https://play.rust-lang.org/?version=stable"), None);
    assert_eq!(playground_gist("https://play.rust-lang.org/?gist=a&gist=b"), None);
    assert_eq!(playground_gist("https://PLAY.rust-lang.org/?gist=a"), None);
    assert_eq!(playground_gist("https://example.org/?gist=a"), None);
    assert_eq!(playground_gist("/?gist=a"), None);
    assert_eq!(playground_gist("not a uri at all"), None);
    assert_eq!(playground_gist(""), None);
}

#[test]
fn playground_host_is_matched_exactly() {
    let uri = |host: Option<&str>| UriParts { host: host.map(|h| h.to_string()), query: None };
    assert!(is_playground(&uri(Some("play.rust-lang.org"))));
    assert!(!is_playground(&uri(Some("play.rust-lang.org."))));
    assert!(!is_playground(&uri(Some("rust-lang.org"))));
    assert!(!is_playground(&uri(None)));
}

#[test]
fn gist_in_uri_needs_host_and_one_gist() {
    let uri = |host: &str, query: Option<&str>| UriParts {
        host: Some(host.to_string()),
        query: query.map(|q| q.to_string()),
    };
    assert_eq!(gist_in_uri(&uri("play.rust-lang.org", Some("gist=x"))), Some("x".to_string()));
    assert_eq!(gist_in_uri(&uri("play.rust-lang.org", Some("a=b"))), None);
    assert_eq!(gist_in_uri(&uri("play.rust-lang.org", None)), None);
    assert_eq!(gist_in_uri(&uri("example.org", Some("gist=x"))), None);
}

#[test]
fn only_value_wants_exactly_one() {
    assert_eq!(only_value(&pairs(vec![("a", "1"), ("gist", "g"), ("b", "2")]), "gist"), Some("g".to_string()));
    assert_eq!(only_value(&pairs(vec![("gist", "g")]), "gist"), Some("g".to_string()));
    assert_eq!(only_value(&pairs(vec![("gist", "g"), ("gist", "h")]), "gist"), None);
    assert_eq!(only_value(&pairs(vec![("gist", "g"), ("x", "y"), ("gist", "g")]), "gist"), None);
    assert_eq!(only_value(&pairs(vec![("a", "1")]), "gist"), None);
    assert_eq!(only_value(&pairs(vec![]), "gist"), None);
    assert_eq!(only_value(&pairs(vec![("Gist", "g")]), "gist"), None);
}

#[test]
fn walk_stops_at_blocks_texts_and_playground_links() {
    assert!(stops_walk(&block("x")));
    assert!(stops_walk(&Markup::Text { text: String::new() }));
    assert!(stops_walk(&Markup::Link { url: "https://play.rust-lang.org/?gist=G".to_string() }));
    assert!(!stops_walk(&Markup::Link { url: "https://play.rust-lang.org/".to_string() }));
    assert!(!stops_walk(&Markup::Link { url: "https://example.com/?gist=G".to_string() }));
    assert!(!stops_walk(&Markup::Link { url: String::new() }));
    assert!(!stops_walk(&Markup::Other));
}

#[test]
fn walk_skips_what_lies_below_a_playground_link() {
    let items = vec![
        item(1, Markup::Other),
        item(2, Markup::Other),
        item(3, Markup::Link { url: "https://play.rust-lang.org/?gist=G".to_string() }),
        item(4, block("hidden")),
        item(5, block("hidden too")),
        item(4, Markup::Text { text: "https://play.rust-lang.org/?gist=H".to_string() }),
        item(3, block("shown")),
        item(2, block("also shown")),
    ];
    let out = collect_fragments(&items);
    assert_eq!(out.len(), 3);
    assert_eq!(gist_id(&out[0]), "G");
    assert_eq!(literal(&out[1]).code, "shown");
    assert_eq!(literal(&out[2]).code, "also shown");
}

#[test]
fn walk_goes_below_a_link_that_names_no_gist() {
    let items = vec![
        item(1, Markup::Other),
        item(2, Markup::Link { url: "https://example.com/".to_string() }),
        item(3, Markup::Text { text: "https://play.rust-lang.org/?gist=G".to_string() }),
        item(3, Markup::Other),
        item(4, block("deep")),
        item(2, Markup::Link { url: "https://play.rust-lang.org/?version=stable".to_string() }),
        item(3, block("below a playground link without gist")),
    ];
    let out = collect_fragments(&items);
    assert_eq!(out.len(), 3);
    assert_eq!(gist_id(&out[0]), "G");
    assert_eq!(literal(&out[1]).code, "deep");
    assert_eq!(literal(&out[2]).code, "below a playground link without gist");
}

#[test]
fn playground_url_as_the_text_of_another_link_is_found() {
    let fragments = get_code_samples("[https://play.rust-lang.org/?gist=G](https://example.com/)");
    assert_eq!(fragments.len(), 1);
    assert_eq!(gist_id(&fragments[0]), "G");
    let fetched: Vec<(Fragment, Option<Gist>)> = fragments
        .into_iter()
        .map(|fragment| (fragment, Some(gist_with(vec![("only", "Y")]))))
        .collect();
    let codes = code_samples(&fetched);
    assert_eq!(codes.len(), 1);
    assert_eq!(codes[0].code, "Y");
    assert_eq!(codes[0].gist_id, Some("G".to_string()));
}

#[test]
fn text_of_a_link_to_another_host_is_read() {
    let out = get_code_samples("see [the playground https://play.rust-lang.org/?gist=a here](https://example.com/x) and [docs](https://example.com/y)");
    assert_eq!(out.len(), 1);
    assert_eq!(gist_id(&out[0]), "a");
}

#[test]
fn text_of_a_playground_link_is_not_read_again() {
    let out = get_code_samples("[https://play.rust-lang.org/?gist=inner](https://play.rust-lang.org/?gist=outer)");
    assert_eq!(out.len(), 1);
    assert_eq!(gist_id(&out[0]), "outer");
}

#[test]
fn walk_goes_below_other_nodes() {
    let items = vec![
        item(1, Markup::Other),
        item(2, Markup::Other),
        item(3, block("a")),
        item(3, Markup::Other),
        item(4, block("b")),
        item(1, block("c")),
    ];
    let out = collect_fragments(&items);
    assert_eq!(out.len(), 3);
    assert_eq!(literal(&out[0]).code, "a");
    assert_eq!(literal(&out[1]).code, "b");
    assert_eq!(literal(&out[2]).code, "c");
}

#[test]
fn walk_treats_nested_leaves_as_hidden() {
    let items = vec![
        item(1, block("outer")),
        item(2, block("inner")),
        item(3, block("innermost")),
        item(2, block("inner again")),
        item(1, block("next")),
        item(0, block("above")),
        item(1, block("below above")),
    ];
    let out = collect_fragments(&items);
    assert_eq!(out.len(), 3);
    assert_eq!(literal(&out[0]).code, "outer");
    assert_eq!(literal(&out[1]).code, "next");
    assert_eq!(literal(&out[2]).code, "above");
}

#[test]
fn walk_of_an_empty_document_yields_nothing() {
    assert!(collect_fragments(&Vec::new()).is_empty());
}

#[test]
fn walk_reads_links_and_texts() {
    let items = vec![
        item(1, Markup::Link { url: "https://play.rust-lang.org/?gist=L".to_string() }),
        item(1, Markup::Text { text: "a https://play.rust-lang.org/?gist=T1 b https://play.rust-lang.org/?gist=T2".to_string() }),
        item(1, Markup::CodeBlock { info: "rust".to_string(), literal: "x".to_string() }),
    ];
    let out = collect_fragments(&items);
    assert_eq!(out.len(), 4);
    assert_eq!(gist_id(&out[0]), "L");
    assert_eq!(gist_id(&out[1]), "T1");
    assert_eq!(gist_id(&out[2]), "T2");
    assert_eq!(literal(&out[3]).language, Some("rust".to_string()));
}

#[test]
fn literal_code_is_kept_whatever_was_fetched() {
    let fragment = Fragment::Literal(Code {
        code: "X".to_string(),
        gist_id: None,
        language: Some("rust".to_string()),
    });
    for fetched in [None, Some(gist_with(vec![("a", "Y")]))] {
        let code = resolve(&fragment, &fetched).unwrap();
        assert_eq!(code.code, "X");
        assert_eq!(code.gist_id, None);
        assert_eq!(code.language, Some("rust".to_string()));
    }
}

#[test]
fn playground_link_becomes_the_first_file() {
    let fragment = Fragment::Playground { gist: "G".to_string() };
    let code = resolve(&fragment, &Some(gist_with(vec![("a", "Y"), ("b", "Z")]))).unwrap();
    assert_eq!(code.code, "Y");
    assert_eq!(code.gist_id, Some("G".to_string()));
    assert_eq!(code.language, None);
}

#[test]
fn playground_link_that_does_not_resolve_is_dropped() {
    let fragment = Fragment::Playground { gist: "G".to_string() };
    assert!(resolve(&fragment, &None).is_none());
    assert!(resolve(&fragment, &Some(gist_with(vec![]))).is_none());
}

#[test]
fn code_samples_keep_order_and_drop_failures() {
    let fetched = vec![
        (Fragment::Playground { gist: "lost".to_string() }, None),
        (
            Fragment::Literal(Code { code: "one".to_string(), gist_id: None, language: None }),
            None,
        ),
        (Fragment::Playground { gist: "G".to_string() }, Some(gist_with(vec![("a.rs", "two")]))),
        (Fragment::Playground { gist: "empty".to_string() }, Some(gist_with(vec![]))),
        (
            Fragment::Literal(Code { code: "three".to_string(), gist_id: None, language: None }),
            None,
        ),
    ];
    let codes = code_samples(&fetched);
    let texts: Vec<&str> = codes.iter().map(|c| c.code.as_str()).collect();
    assert_eq!(texts, vec!["one", "two", "three"]);
    assert_eq!(codes[1].gist_id, Some("G".to_string()));
    assert!(code_samples(&Vec::new()).is_empty());
}

#[test]
fn bare_url_with_stub_gist_yields_its_code() {
    let fragments = get_code_samples("try https://play.rust-lang.org/?gist=G");
    let fetched: Vec<(Fragment, Option<Gist>)> = fragments
        .into_iter()
        .map(|fragment| (fragment, Some(gist_with(vec![("a", "Y")]))))
        .collect();
    let codes = code_samples(&fetched);
    assert_eq!(codes.len(), 1);
    assert_eq!(codes[0].code, "Y");
    assert_eq!(codes[0].gist_id, Some("G".to_string()));
}

#[test]
fn gist_first_content_and_keys() {
    let gist = gist_with(vec![("a", "Y"), ("b", "Z")]);
    assert_eq!(gist.first_content(), Some("Y".to_string()));
    assert!(gist.is_wf());
    assert_eq!(gist_with(vec![]).first_content(), None);
    assert!(gist_with(vec![]).is_wf());
    assert!(!gist_with(vec![("a", "Y"), ("b", "Z"), ("a", "W")]).is_wf());
}
