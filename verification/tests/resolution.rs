use content_source::issues::{IssueSeverity, IssueSink, RawIssue};
use content_source::source::{
    ContentSource, ContentSourceContent, ContentSourceData, ContentSourceDataVary,
    ContentSourceResult, GetMemo, IssueContextContentSource, StaticProducer, StaticSource,
};

fn data() -> ContentSourceData {
    ContentSourceData { method: "GET".to_owned(), query: String::new() }
}

fn producer(get_issue: Option<RawIssue>) -> StaticProducer {
    StaticProducer {
        vary: ContentSourceDataVary { method: true, query: false },
        vary_issue: None,
        get_issue,
        content: "ok".to_owned(),
    }
}

fn static_source(route: &str, specificity: u64) -> StaticSource {
    StaticSource {
        route: route.to_owned(),
        specificity,
        resolve_issue: None,
        producer: producer(None),
        introspection: None,
    }
}

#[test]
fn nested_provenance_innermost_first() {
    let raising = StaticSource {
        route: "/r".to_owned(),
        specificity: 1,
        resolve_issue: Some(RawIssue {
            severity: IssueSeverity::Error,
            message: "boom".to_owned(),
        }),
        producer: producer(None),
        introspection: None,
    };
    let inner = IssueContextContentSource::new_context(
        "a.ts".to_owned(),
        "Y".to_owned(),
        ContentSource::Static(raising),
    );
    let outer = IssueContextContentSource::new_context(
        "b.ts".to_owned(),
        "X".to_owned(),
        ContentSource::IssueContext(inner),
    );
    let tree = ContentSource::IssueContext(outer);
    let mut sink = IssueSink::new();
    let r = tree.get(&"/r".to_owned(), &data(), &mut sink);
    assert!(matches!(r, ContentSourceResult::Result { .. }));
    assert_eq!(sink.recorded.len(), 1);
    let issue = &sink.recorded[0];
    assert!(matches!(issue.severity, IssueSeverity::Error));
    assert_eq!(issue.message, "boom");
    assert_eq!(issue.provenance.len(), 2);
    assert_eq!(issue.provenance[0].context.as_deref(), Some("a.ts"));
    assert_eq!(issue.provenance[0].description, "Y");
    assert_eq!(issue.provenance[1].context.as_deref(), Some("b.ts"));
    assert_eq!(issue.provenance[1].description, "X");
}

#[test]
fn not_found_passes_through_unchanged() {
    let d = IssueContextContentSource::new_description(
        "D".to_owned(),
        ContentSource::Static(static_source("/a", 1)),
    );
    let tree = ContentSource::IssueContext(d);
    let mut sink = IssueSink::new();
    let r = tree.get(&"/b".to_owned(), &data(), &mut sink);
    assert!(matches!(r, ContentSourceResult::NotFound));
    assert_eq!(sink.recorded.len(), 0);
    assert_eq!(sink.scopes.len(), 0);
}

#[test]
fn decorator_children_is_exactly_the_wrapped_provider() {
    let d = IssueContextContentSource::new_description(
        "D".to_owned(),
        ContentSource::Static(static_source("/a", 7)),
    );
    let children = d.get_children();
    assert_eq!(children.len(), 1);
    match children[0] {
        ContentSource::Static(s) => {
            assert_eq!(s.route, "/a");
            assert_eq!(s.specificity, 7);
        }
        _ => panic!("expected the wrapped static provider"),
    }
}

#[test]
fn lazy_recontext_on_vary_and_get() {
    let raising = StaticSource {
        route: "/a".to_owned(),
        specificity: 1,
        resolve_issue: None,
        producer: StaticProducer {
            vary: ContentSourceDataVary { method: false, query: true },
            vary_issue: Some(RawIssue {
                severity: IssueSeverity::Warning,
                message: "vary warning".to_owned(),
            }),
            get_issue: Some(RawIssue {
                severity: IssueSeverity::Error,
                message: "get failure".to_owned(),
            }),
            content: "body".to_owned(),
        },
        introspection: None,
    };
    let d = IssueContextContentSource::new_context(
        "lib.ts".to_owned(),
        "Transform".to_owned(),
        ContentSource::Static(raising),
    );
    let tree = ContentSource::IssueContext(d);
    let mut sink = IssueSink::new();
    let r = tree.get(&"/a".to_owned(), &data(), &mut sink);
    assert_eq!(sink.recorded.len(), 0);
    let producer = match r {
        ContentSourceResult::Result { get_content, specificity } => {
            assert_eq!(specificity, 1);
            get_content
        }
        ContentSourceResult::NotFound => panic!("expected a match"),
    };
    // The resolution scope is long gone; vary and get must still re-enter it.
    let vary = producer.vary(&mut sink);
    assert_eq!(vary, ContentSourceDataVary { method: false, query: true });
    assert_eq!(sink.recorded.len(), 1);
    assert_eq!(sink.recorded[0].message, "vary warning");
    assert_eq!(sink.recorded[0].provenance.len(), 1);
    assert_eq!(sink.recorded[0].provenance[0].context.as_deref(), Some("lib.ts"));
    assert_eq!(sink.recorded[0].provenance[0].description, "Transform");
    let content = producer.get(&data(), &mut sink);
    match content {
        ContentSourceContent::Static(body) => assert_eq!(body, "body"),
        ContentSourceContent::NotFound => panic!("expected content"),
    }
    assert_eq!(sink.recorded.len(), 2);
    assert_eq!(sink.recorded[1].message, "get failure");
    assert_eq!(sink.recorded[1].provenance.len(), 1);
    assert_eq!(sink.recorded[1].provenance[0].context.as_deref(), Some("lib.ts"));
    assert_eq!(sink.recorded[1].provenance[0].description, "Transform");
}

#[test]
fn router_selects_highest_specificity() {
    let tree = ContentSource::Router(vec![
        ContentSource::Static(static_source("/a", 2)),
        ContentSource::Static(static_source("/a", 9)),
        ContentSource::Static(static_source("/a", 5)),
    ]);
    let mut sink = IssueSink::new();
    let r = tree.get(&"/a".to_owned(), &data(), &mut sink);
    match r {
        ContentSourceResult::Result { specificity, .. } => assert_eq!(specificity, 9),
        ContentSourceResult::NotFound => panic!("expected a match"),
    }
}

#[test]
fn router_tie_first_registered_wins() {
    let mut first = static_source("/a", 4);
    first.producer.content = "first".to_owned();
    let mut second = static_source("/a", 4);
    second.producer.content = "second".to_owned();
    let tree = ContentSource::Router(vec![
        ContentSource::Static(first),
        ContentSource::Static(second),
    ]);
    let mut sink = IssueSink::new();
    let r = tree.get(&"/a".to_owned(), &data(), &mut sink);
    match r {
        ContentSourceResult::Result { get_content, specificity } => {
            assert_eq!(specificity, 4);
            match get_content.get(&data(), &mut sink) {
                ContentSourceContent::Static(body) => assert_eq!(body, "first"),
                ContentSourceContent::NotFound => panic!("expected content"),
            }
        }
        ContentSourceResult::NotFound => panic!("expected a match"),
    }
}

#[test]
fn router_queries_siblings_despite_issues() {
    let mut raising = static_source("/b", 1);
    raising.resolve_issue = Some(RawIssue {
        severity: IssueSeverity::Error,
        message: "branch failed".to_owned(),
    });
    let tree = ContentSource::Router(vec![
        ContentSource::Static(raising),
        ContentSource::Static(static_source("/a", 1)),
    ]);
    let mut sink = IssueSink::new();
    let r = tree.get(&"/a".to_owned(), &data(), &mut sink);
    assert!(matches!(r, ContentSourceResult::Result { .. }));
    assert_eq!(sink.recorded.len(), 1);
    assert_eq!(sink.recorded[0].message, "branch failed");
}

#[test]
fn memoized_replay_raises_nothing_twice() {
    let mut raising = static_source("/a", 3);
    raising.resolve_issue = Some(RawIssue {
        severity: IssueSeverity::Warning,
        message: "slow path".to_owned(),
    });
    let tree = ContentSource::Static(raising);
    let mut memo = GetMemo::new();
    let mut sink = IssueSink::new();
    let first = tree.get_memoized(&"/a".to_owned(), &data(), &mut memo, &mut sink);
    assert_eq!(sink.recorded.len(), 1);
    let second = tree.get_memoized(&"/a".to_owned(), &data(), &mut memo, &mut sink);
    assert_eq!(sink.recorded.len(), 1);
    match (first, second) {
        (
            ContentSourceResult::Result { specificity: a, .. },
            ContentSourceResult::Result { specificity: b, .. },
        ) => assert_eq!(a, b),
        _ => panic!("expected two equal matches"),
    }
}

#[test]
fn empty_router_finds_nothing() {
    let tree = ContentSource::Router(Vec::new());
    let mut sink = IssueSink::new();
    let r = tree.get(&"/a".to_owned(), &data(), &mut sink);
    assert!(matches!(r, ContentSourceResult::NotFound));
    assert_eq!(sink.recorded.len(), 0);
}

#[test]
fn nested_routers_resolve_through_decorators() {
    let inner_router = ContentSource::Router(vec![
        ContentSource::Static(static_source("/x", 1)),
        ContentSource::Static(static_source("/y", 2)),
    ]);
    let decorated = IssueContextContentSource::new_description("zone".to_owned(), inner_router);
    let tree = ContentSource::Router(vec![
        ContentSource::Static(static_source("/z", 8)),
        ContentSource::IssueContext(decorated),
    ]);
    let mut sink = IssueSink::new();
    let r = tree.get(&"/y".to_owned(), &data(), &mut sink);
    match r {
        ContentSourceResult::Result { specificity, .. } => assert_eq!(specificity, 2),
        ContentSourceResult::NotFound => panic!("expected a match"),
    }
    assert_eq!(sink.recorded.len(), 0);
}

#[test]
fn router_children_enumerate_without_resolution() {
    let tree = ContentSource::Router(vec![
        ContentSource::Static(static_source("/a", 1)),
        ContentSource::Static(static_source("/b", 2)),
    ]);
    let children = tree.get_children();
    assert_eq!(children.len(), 2);
    let leaf = ContentSource::Static(static_source("/a", 1));
    assert_eq!(leaf.get_children().len(), 0);
}

#[test]
fn end_to_end_app_transform() {
    let provider = StaticSource {
        route: "/app.js".to_owned(),
        specificity: 1,
        resolve_issue: None,
        producer: StaticProducer {
            vary: ContentSourceDataVary { method: true, query: true },
            vary_issue: None,
            get_issue: Some(RawIssue {
                severity: IssueSeverity::Error,
                message: "syntax error".to_owned(),
            }),
            content: String::new(),
        },
        introspection: None,
    };
    let d = IssueContextContentSource::new_context(
        "src/app.ts".to_owned(),
        "App transform".to_owned(),
        ContentSource::Static(provider),
    );
    let tree = ContentSource::IssueContext(d);
    let mut sink = IssueSink::new();
    let r = tree.get(&"/app.js".to_owned(), &data(), &mut sink);
    let producer = match r {
        ContentSourceResult::Result { get_content, .. } => get_content,
        ContentSourceResult::NotFound => panic!("expected a match"),
    };
    let _ = producer.get(&data(), &mut sink);
    assert_eq!(sink.recorded.len(), 1);
    assert!(matches!(sink.recorded[0].severity, IssueSeverity::Error));
    assert_eq!(sink.recorded[0].message, "syntax error");
    assert_eq!(sink.recorded[0].provenance.len(), 1);
    assert_eq!(sink.recorded[0].provenance[0].context.as_deref(), Some("src/app.ts"));
    assert_eq!(sink.recorded[0].provenance[0].description, "App transform");

    let mut sink2 = IssueSink::new();
    let miss = tree.get(&"/missing.js".to_owned(), &data(), &mut sink2);
    assert!(matches!(miss, ContentSourceResult::NotFound));
    assert_eq!(sink2.recorded.len(), 0);
}
