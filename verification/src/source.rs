use vstd::prelude::*;

use crate::issues::{
    annotate, innermost_first, lemma_annotate_add, lemma_annotate_annotate, lemma_annotate_empty,
    lemma_innermost_first_push, IssueProvenance, IssueSeverity, IssueSink, IssueView, ProvView,
    RawIssue,
};

verus! {

/// Request-dependent data handed to resolution and to content producers: an
/// opaque bag whose shape the transport defines. Modeled here by the request
/// method and the query string.
pub struct ContentSourceData {
    pub method: String,
    pub query: String,
}

impl View for ContentSourceData {
    type V = (Seq<char>, Seq<char>);

    open spec fn view(&self) -> (Seq<char>, Seq<char>) {
        (self.method@, self.query@)
    }
}

impl ContentSourceData {
    /// An equal copy of this request data.
    pub fn duplicate(&self) -> (r: ContentSourceData)
        ensures
            r == *self,
    {
        ContentSourceData { method: self.method.clone(), query: self.query.clone() }
    }
}

impl PartialEq for ContentSourceData {
    fn eq(&self, other: &ContentSourceData) -> (r: bool) {
        self.method == other.method && self.query == other.query
    }
}

impl vstd::std_specs::cmp::PartialEqSpecImpl for ContentSourceData {
    open spec fn obeys_eq_spec() -> bool {
        true
    }

    open spec fn eq_spec(&self, other: &ContentSourceData) -> bool {
        self@ == other@
    }
}

/// Declares which parts of the request data affect a producer's output; the
/// transport uses it to decide what to gather and as a cache-key shape.
#[derive(Clone, Copy, PartialEq, Eq, Structural, Debug)]
pub struct ContentSourceDataVary {
    pub method: bool,
    pub query: bool,
}

/// Content a producer materializes for a request.
pub enum ContentSourceContent {
    NotFound,
    Static(String),
}

/// The innermost, undecorated content producer: what it answers to `vary`,
/// which issues it raises from `vary` and from `get`, and the content it
/// produces.
pub struct StaticProducer {
    pub vary: ContentSourceDataVary,
    pub vary_issue: Option<RawIssue>,
    pub get_issue: Option<RawIssue>,
    pub content: String,
}

impl StaticProducer {
    /// An equal copy of this producer.
    pub fn duplicate(&self) -> (r: StaticProducer)
        ensures
            r == *self,
    {
        StaticProducer {
            vary: self.vary,
            vary_issue: match &self.vary_issue {
                Some(ri) => Some(ri.duplicate()),
                None => None,
            },
            get_issue: match &self.get_issue {
                Some(ri) => Some(ri.duplicate()),
                None => None,
            },
            content: self.content.clone(),
        }
    }
}

/// A second-stage content producer, obtained only from a `Found` resolution
/// result: either an undecorated producer or one re-wrapped by a diagnostic
/// context decorator.
pub enum GetContentSourceContent {
    Static(StaticProducer),
    IssueContext(IssueContextGetContentSourceContent),
}

/// A content producer re-wrapped by a diagnostic context decorator: `vary`
/// and `get` re-enter the owning decorator's scope before delegating.
pub struct IssueContextGetContentSourceContent {
    pub get_content: Box<GetContentSourceContent>,
    pub context: Option<String>,
    pub description: String,
}

/// The two-stage resolution result: not found, or a deferred content
/// producer together with the specificity of the match.
pub enum ContentSourceResult {
    NotFound,
    Result { get_content: GetContentSourceContent, specificity: u64 },
}

/// Introspection data a provider exposes to debugging facilities.
pub struct IntrospectionInfo {
    pub ty: String,
    pub title: String,
    pub details: String,
}

/// A provider that answers a single route with a fixed producer, optionally
/// raising a diagnostic whenever it is resolved against, and optionally
/// supporting introspection.
pub struct StaticSource {
    pub route: String,
    pub specificity: u64,
    pub resolve_issue: Option<RawIssue>,
    pub producer: StaticProducer,
    pub introspection: Option<IntrospectionInfo>,
}

/// A content provider: the polymorphic unit resolved against a path.
pub enum ContentSource {
    /// A leaf provider answering one route.
    Static(StaticSource),
    /// A combinator that queries every child and selects the best match.
    Router(Vec<ContentSource>),
    /// The diagnostic context decorator.
    IssueContext(IssueContextContentSource),
}

/// The diagnostic context decorator: a provider that delegates to exactly
/// one wrapped provider inside a diagnostic scope given by an optional
/// owning path and a description.
pub struct IssueContextContentSource {
    pub context: Option<String>,
    pub description: String,
    pub source: Box<ContentSource>,
}

/// The provenance entry that a scope with this owning path and description
/// contributes to an issue's chain.
pub open spec fn prov_entry(context: Option<String>, description: String) -> ProvView {
    (
        match context {
            Some(c) => Some(c@),
            None => None,
        },
        description@,
    )
}

/// The issues a raw issue template contributes when raised: one issue with
/// an empty provenance chain, or none.
pub open spec fn template_issues(t: Option<RawIssue>) -> Seq<IssueView> {
    match t {
        Some(ri) => seq![(ri.severity, ri.message@, Seq::<ProvView>::empty())],
        None => Seq::empty(),
    }
}

/// What resolving `src` against `path` finds: the underlying producer, the
/// diagnostic scopes wrapped around it (innermost first), and the
/// specificity of the match — or nothing.
pub open spec fn resolve(src: ContentSource, path: Seq<char>) -> Option<
    (StaticProducer, Seq<ProvView>, u64),
>
    decreases src,
{
    match src {
        ContentSource::Static(s) => if s.route@ == path {
            Some((s.producer, Seq::empty(), s.specificity))
        } else {
            None
        },
        ContentSource::Router(children) => router_select(children@, path),
        ContentSource::IssueContext(d) => match resolve(*d.source, path) {
            Some(found) => Some(
                (found.0, found.1.push(prov_entry(d.context, d.description)), found.2),
            ),
            None => None,
        },
    }
}

/// The combinator's selection: the highest-specificity match among the
/// children's results; on equal specificity the earliest child wins.
pub open spec fn router_select(children: Seq<ContentSource>, path: Seq<char>) -> Option<
    (StaticProducer, Seq<ProvView>, u64),
>
    decreases children,
{
    if children.len() == 0 {
        None
    } else {
        let rest = router_select(children.drop_last(), path);
        let last = resolve(children.last(), path);
        match (rest, last) {
            (None, l) => l,
            (Some(r), None) => Some(r),
            (Some(r), Some(l)) => if l.2 > r.2 {
                Some(l)
            } else {
                Some(r)
            },
        }
    }
}

/// The issues that resolving `src` against `path` raises, with the
/// provenance entries contributed inside `src` only, innermost first.
pub open spec fn resolve_issues(src: ContentSource, path: Seq<char>) -> Seq<IssueView>
    decreases src,
{
    match src {
        ContentSource::Static(s) => template_issues(s.resolve_issue),
        ContentSource::Router(children) => router_issues(children@, path),
        ContentSource::IssueContext(d) => annotate(
            resolve_issues(*d.source, path),
            seq![prov_entry(d.context, d.description)],
        ),
    }
}

/// The issues a combinator's children raise during resolution, in child
/// order: raising never prevents a sibling from being queried.
pub open spec fn router_issues(children: Seq<ContentSource>, path: Seq<char>) -> Seq<IssueView>
    decreases children,
{
    if children.len() == 0 {
        Seq::empty()
    } else {
        router_issues(children.drop_last(), path) + resolve_issues(children.last(), path)
    }
}

/// The undecorated producer underneath a possibly re-wrapped one.
pub open spec fn producer_base(p: GetContentSourceContent) -> StaticProducer
    decreases p,
{
    match p {
        GetContentSourceContent::Static(sp) => sp,
        GetContentSourceContent::IssueContext(w) => producer_base(*w.get_content),
    }
}

/// The diagnostic scopes re-wrapped around a producer, innermost first.
pub open spec fn producer_scopes(p: GetContentSourceContent) -> Seq<ProvView>
    decreases p,
{
    match p {
        GetContentSourceContent::Static(_) => Seq::empty(),
        GetContentSourceContent::IssueContext(w) => producer_scopes(*w.get_content).push(
            prov_entry(w.context, w.description),
        ),
    }
}

/// What a producer answers to `vary`.
pub open spec fn producer_vary(p: GetContentSourceContent) -> ContentSourceDataVary {
    producer_base(p).vary
}

/// The content a producer materializes.
pub open spec fn producer_content(p: GetContentSourceContent) -> Seq<char> {
    producer_base(p).content@
}

/// The issues `vary` raises on this producer, with the provenance entries
/// contributed by its own re-wrapping scopes, innermost first.
pub open spec fn vary_issues(p: GetContentSourceContent) -> Seq<IssueView> {
    annotate(template_issues(producer_base(p).vary_issue), producer_scopes(p))
}

/// The issues `get` raises on this producer, with the provenance entries
/// contributed by its own re-wrapping scopes, innermost first.
pub open spec fn get_issues(p: GetContentSourceContent) -> Seq<IssueView> {
    annotate(template_issues(producer_base(p).get_issue), producer_scopes(p))
}

impl IssueContextGetContentSourceContent {
    /// The provenance entry this wrapper's scope contributes.
    pub open spec fn scope(&self) -> ProvView {
        prov_entry(self.context, self.description)
    }

    /// An exec copy of this wrapper's scope entry.
    fn scope_entry(&self) -> (r: IssueProvenance)
        ensures
            r@ == self.scope(),
    {
        IssueProvenance {
            context: match &self.context {
                Some(c) => Some(c.clone()),
                None => None,
            },
            description: self.description.clone(),
        }
    }
}

impl GetContentSourceContent {
    /// An equal copy of this producer.
    pub fn duplicate(&self) -> (r: GetContentSourceContent)
        ensures
            r == *self,
        decreases *self,
    {
        match self {
            GetContentSourceContent::Static(sp) => GetContentSourceContent::Static(sp.duplicate()),
            GetContentSourceContent::IssueContext(w) => GetContentSourceContent::IssueContext(
                IssueContextGetContentSourceContent {
                    get_content: Box::new(w.get_content.duplicate()),
                    context: match &w.context {
                        Some(c) => Some(c.clone()),
                        None => None,
                    },
                    description: w.description.clone(),
                },
            ),
        }
    }

    /// Declares which parts of the request data affect this producer's
    /// output. A re-wrapped producer re-enters its decorator's diagnostic
    /// scope before delegating, so anything raised carries that scope.
    pub fn vary(&self, sink: &mut IssueSink) -> (r: ContentSourceDataVary)
        ensures
            r == producer_vary(*self),
            final(sink).stack() == old(sink).stack(),
            final(sink).log() == old(sink).log() + annotate(
                vary_issues(*self),
                innermost_first(old(sink).stack()),
            ),
        decreases *self,
    {
        match self {
            GetContentSourceContent::Static(sp) => {
                if let Some(ri) = &sp.vary_issue {
                    sink.raise(ri.severity, ri.message.clone());
                }
                proof {
                    lemma_annotate_empty(template_issues(sp.vary_issue));
                    assert(sink.log() =~= old(sink).log() + annotate(
                        vary_issues(*self),
                        innermost_first(old(sink).stack()),
                    ));
                }
                sp.vary
            }
            GetContentSourceContent::IssueContext(w) => {
                sink.push_scope(w.scope_entry());
                let r = w.get_content.vary(sink);
                sink.pop_scope();
                proof {
                    lemma_recontext(
                        vary_issues(*w.get_content),
                        producer_base(*w.get_content).vary_issue,
                        producer_scopes(*w.get_content),
                        w.scope(),
                        old(sink).stack(),
                    );
                    assert(sink.stack() =~= old(sink).stack());
                }
                r
            }
        }
    }

    /// Materializes the content for the given request data. A re-wrapped
    /// producer re-enters its decorator's diagnostic scope before
    /// delegating, so anything raised carries that scope.
    pub fn get(&self, data: &ContentSourceData, sink: &mut IssueSink) -> (r: ContentSourceContent)
        ensures
            r matches ContentSourceContent::Static(body) && body@ == producer_content(*self),
            final(sink).stack() == old(sink).stack(),
            final(sink).log() == old(sink).log() + annotate(
                get_issues(*self),
                innermost_first(old(sink).stack()),
            ),
        decreases *self,
    {
        match self {
            GetContentSourceContent::Static(sp) => {
                if let Some(ri) = &sp.get_issue {
                    sink.raise(ri.severity, ri.message.clone());
                }
                proof {
                    lemma_annotate_empty(template_issues(sp.get_issue));
                    assert(sink.log() =~= old(sink).log() + annotate(
                        get_issues(*self),
                        innermost_first(old(sink).stack()),
                    ));
                }
                ContentSourceContent::Static(sp.content.clone())
            }
            GetContentSourceContent::IssueContext(w) => {
                sink.push_scope(w.scope_entry());
                let r = w.get_content.get(data, sink);
                sink.pop_scope();
                proof {
                    lemma_recontext(
                        get_issues(*w.get_content),
                        producer_base(*w.get_content).get_issue,
                        producer_scopes(*w.get_content),
                        w.scope(),
                        old(sink).stack(),
                    );
                    assert(sink.stack() =~= old(sink).stack());
                }
                r
            }
        }
    }
}

/// Annotating issues under one more scope, entered on top of `stack`, is
/// the same as annotating the re-wrapped issues under `stack` alone: the
/// scope moves from the ambient stack into the producer's own chain.
proof fn lemma_recontext(
    inner: Seq<IssueView>,
    template: Option<RawIssue>,
    scopes: Seq<ProvView>,
    scope: ProvView,
    stack: Seq<ProvView>,
)
    requires
        inner == annotate(template_issues(template), scopes),
    ensures
        annotate(inner, innermost_first(stack.push(scope))) == annotate(
            annotate(template_issues(template), scopes.push(scope)),
            innermost_first(stack),
        ),
{
    let t = template_issues(template);
    lemma_innermost_first_push(stack, scope);
    lemma_annotate_annotate(t, scopes, seq![scope] + innermost_first(stack));
    lemma_annotate_annotate(t, scopes.push(scope), innermost_first(stack));
    assert(scopes + (seq![scope] + innermost_first(stack)) =~= scopes.push(scope) + innermost_first(
        stack,
    ));
}

/// A resolution result agrees with what the resolution spec finds for
/// `src` and `path`: found exactly when the spec finds something, and then
/// the producer's base, re-wrapping scopes and specificity all match.
pub open spec fn result_matches(
    r: ContentSourceResult,
    src: ContentSource,
    path: Seq<char>,
) -> bool {
    &&& (r is Result <==> resolve(src, path) is Some)
    &&& match r {
        ContentSourceResult::Result { get_content, specificity } => {
            &&& producer_base(get_content) == (resolve(src, path)->0).0
            &&& producer_scopes(get_content) == (resolve(src, path)->0).1
            &&& specificity == (resolve(src, path)->0).2
        },
        ContentSourceResult::NotFound => true,
    }
}

impl ContentSourceResult {
    /// An equal copy of this result.
    pub fn duplicate(&self) -> (r: ContentSourceResult)
        ensures
            r == *self,
    {
        match self {
            ContentSourceResult::NotFound => ContentSourceResult::NotFound,
            ContentSourceResult::Result { get_content, specificity } => {
                ContentSourceResult::Result {
                    get_content: get_content.duplicate(),
                    specificity: *specificity,
                }
            }
        }
    }
}

impl IssueContextContentSource {
    /// Builds a decorator whose diagnostic scope carries an owning path
    /// alongside its description.
    pub fn new_context(context: String, description: String, source: ContentSource) -> (r:
        IssueContextContentSource)
        ensures
            r.context == Some(context),
            r.description == description,
            *r.source == source,
    {
        IssueContextContentSource { context: Some(context), description, source: Box::new(source) }
    }

    /// Builds a decorator whose diagnostic scope carries a description only.
    pub fn new_description(description: String, source: ContentSource) -> (r:
        IssueContextContentSource)
        ensures
            r.context is None,
            r.description == description,
            *r.source == source,
    {
        IssueContextContentSource { context: None, description, source: Box::new(source) }
    }

    /// The provenance entry this decorator's scope contributes.
    pub open spec fn scope(&self) -> ProvView {
        prov_entry(self.context, self.description)
    }

    /// An exec copy of this decorator's scope entry.
    fn scope_entry(&self) -> (r: IssueProvenance)
        ensures
            r@ == self.scope(),
    {
        IssueProvenance {
            context: match &self.context {
                Some(c) => Some(c.clone()),
                None => None,
            },
            description: self.description.clone(),
        }
    }

    /// Resolves the wrapped provider inside this decorator's diagnostic
    /// scope. A found producer is re-wrapped so that its later `vary` and
    /// `get` calls re-enter the same scope; `NotFound` passes through
    /// unchanged, and no issue is synthesized.
    pub fn get(&self, path: &String, data: &ContentSourceData, sink: &mut IssueSink) -> (r:
        ContentSourceResult)
        ensures
            result_matches(r, ContentSource::IssueContext(*self), path@),
            final(sink).stack() == old(sink).stack(),
            final(sink).log() == old(sink).log() + annotate(
                resolve_issues(ContentSource::IssueContext(*self), path@),
                innermost_first(old(sink).stack()),
            ),
        decreases *self,
    {
        sink.push_scope(self.scope_entry());
        let inner = self.source.get(path, data, sink);
        sink.pop_scope();
        proof {
            lemma_innermost_first_push(old(sink).stack(), self.scope());
            lemma_annotate_annotate(
                resolve_issues(*self.source, path@),
                seq![self.scope()],
                innermost_first(old(sink).stack()),
            );
            assert(seq![self.scope()] + innermost_first(old(sink).stack()) =~= innermost_first(
                old(sink).stack().push(self.scope()),
            ));
            assert(sink.stack() =~= old(sink).stack());
        }
        match inner {
            ContentSourceResult::Result { get_content, specificity } => {
                ContentSourceResult::Result {
                    get_content: GetContentSourceContent::IssueContext(
                        IssueContextGetContentSourceContent {
                            get_content: Box::new(get_content),
                            context: match &self.context {
                                Some(c) => Some(c.clone()),
                                None => None,
                            },
                            description: self.description.clone(),
                        },
                    ),
                    specificity,
                }
            }
            ContentSourceResult::NotFound => ContentSourceResult::NotFound,
        }
    }

    /// The decorator's immediate children: exactly one, the wrapped
    /// provider. Structural enumeration only; no resolution work.
    pub fn get_children(&self) -> (r: Vec<&ContentSource>)
        ensures
            r@.len() == 1,
            *r@[0] == *self.source,
    {
        let mut v: Vec<&ContentSource> = Vec::new();
        v.push(&*self.source);
        v
    }
}

impl ContentSource {
    /// Resolves this provider against a request path: deterministic for a
    /// given path and tree, raising the subtree's issues into `sink`
    /// annotated with the active diagnostic scopes, innermost first.
    #[verifier::loop_isolation(false)]
    pub fn get(&self, path: &String, data: &ContentSourceData, sink: &mut IssueSink) -> (r:
        ContentSourceResult)
        ensures
            result_matches(r, *self, path@),
            final(sink).stack() == old(sink).stack(),
            final(sink).log() == old(sink).log() + annotate(
                resolve_issues(*self, path@),
                innermost_first(old(sink).stack()),
            ),
        decreases *self,
    {
        match self {
            ContentSource::Static(s) => {
                if let Some(ri) = &s.resolve_issue {
                    sink.raise(ri.severity, ri.message.clone());
                }
                proof {
                    assert(sink.log() =~= old(sink).log() + annotate(
                        resolve_issues(*self, path@),
                        innermost_first(old(sink).stack()),
                    ));
                }
                if *path == s.route {
                    ContentSourceResult::Result {
                        get_content: GetContentSourceContent::Static(s.producer.duplicate()),
                        specificity: s.specificity,
                    }
                } else {
                    ContentSourceResult::NotFound
                }
            }
            ContentSource::Router(children) => {
                let mut best = ContentSourceResult::NotFound;
                let mut i: usize = 0;
                while i < children.len()
                    invariant
                        i <= children.len(),
                        sink.stack() == old(sink).stack(),
                        sink.log() == old(sink).log() + annotate(
                            router_issues(children@.subrange(0, i as int), path@),
                            innermost_first(old(sink).stack()),
                        ),
                        best is Result <==> router_select(
                            children@.subrange(0, i as int),
                            path@,
                        ) is Some,
                        best matches ContentSourceResult::Result { get_content, specificity } ==> {
                            let sel = router_select(children@.subrange(0, i as int), path@)->0;
                            &&& producer_base(get_content) == sel.0
                            &&& producer_scopes(get_content) == sel.1
                            &&& specificity == sel.2
                        },
                    decreases children.len() - i,
                {
                    proof {
                        assert(decreases_to!(*self => *children));
                        assert(decreases_to!(*children => children@[i as int]));
                    }
                    let r = children[i].get(path, data, sink);
                    let replace = match (&best, &r) {
                        (_, ContentSourceResult::NotFound) => false,
                        (ContentSourceResult::NotFound, ContentSourceResult::Result { .. }) => true,
                        (
                            ContentSourceResult::Result { specificity: have, .. },
                            ContentSourceResult::Result { specificity: new, .. },
                        ) => *new > *have,
                    };
                    if replace {
                        best = r;
                    }
                    proof {
                        let pre = children@.subrange(0, i as int);
                        let post = children@.subrange(0, i + 1 as int);
                        assert(post.drop_last() =~= pre);
                        assert(post.last() == children@[i as int]);
                        lemma_annotate_add(
                            router_issues(pre, path@),
                            resolve_issues(children@[i as int], path@),
                            innermost_first(old(sink).stack()),
                        );
                        assert(old(sink).log() + annotate(
                            router_issues(pre, path@),
                            innermost_first(old(sink).stack()),
                        ) + annotate(
                            resolve_issues(children@[i as int], path@),
                            innermost_first(old(sink).stack()),
                        ) =~= old(sink).log() + annotate(
                            router_issues(post, path@),
                            innermost_first(old(sink).stack()),
                        ));
                    }
                    i += 1;
                }
                proof {
                    assert(children@.subrange(0, children@.len() as int) =~= children@);
                }
                best
            }
            ContentSource::IssueContext(d) => d.get(path, data, sink),
        }
    }

    /// Immediate sub-providers, for introspection and for dependency-graph
    /// construction: structural enumeration only, no resolution work.
    #[verifier::loop_isolation(false)]
    pub fn get_children(&self) -> (r: Vec<&ContentSource>)
        ensures
            r@.map_values(|c: &ContentSource| *c) == source_children(*self),
    {
        match self {
            ContentSource::Static(_) => {
                let v: Vec<&ContentSource> = Vec::new();
                proof {
                    assert(v@.map_values(|c: &ContentSource| *c) =~= source_children(*self));
                }
                v
            }
            ContentSource::Router(children) => {
                let mut v: Vec<&ContentSource> = Vec::new();
                let mut i: usize = 0;
                while i < children.len()
                    invariant
                        i <= children.len(),
                        v@.map_values(|c: &ContentSource| *c) == children@.subrange(0, i as int),
                    decreases children.len() - i,
                {
                    v.push(&children[i]);
                    proof {
                        assert(v@.map_values(|c: &ContentSource| *c) =~= children@.subrange(
                            0,
                            i + 1 as int,
                        ));
                    }
                    i += 1;
                }
                proof {
                    assert(children@.subrange(0, children@.len() as int) =~= children@);
                }
                v
            }
            ContentSource::IssueContext(d) => {
                let v = d.get_children();
                proof {
                    assert(v@.map_values(|c: &ContentSource| *c) =~= source_children(*self));
                }
                v
            }
        }
    }
}

/// The immediate sub-providers of a provider: none for a leaf, the child
/// list for a combinator, and exactly the wrapped provider for a decorator.
pub open spec fn source_children(src: ContentSource) -> Seq<ContentSource> {
    match src {
        ContentSource::Static(_) => Seq::empty(),
        ContentSource::Router(children) => children@,
        ContentSource::IssueContext(d) => seq![*d.source],
    }
}

/// Whether a provider answers the introspection capability. This models
/// the dynamic capability query: providers are polymorphic over an open
/// set, and support is decided per value at run time, never statically.
pub open spec fn is_introspectable(src: ContentSource) -> bool {
    match src {
        ContentSource::Static(s) => s.introspection is Some,
        ContentSource::Router(_) => true,
        ContentSource::IssueContext(_) => true,
    }
}

/// The introspection type name of a provider. The decorator forwards its
/// wrapped provider's type name when that provider is introspectable and
/// falls back to its own type name otherwise.
pub open spec fn spec_ty(src: ContentSource) -> Seq<char>
    decreases src,
{
    match src {
        ContentSource::Static(s) => match s.introspection {
            Some(info) => info.ty@,
            None => Seq::empty(),
        },
        ContentSource::Router(_) => "Router"@,
        ContentSource::IssueContext(d) => if is_introspectable(*d.source) {
            spec_ty(*d.source)
        } else {
            "IssueContextContentSource"@
        },
    }
}

/// The introspection title of a provider. The decorator prefixes its
/// description to an introspectable wrapped provider's title and shows the
/// bare description otherwise.
pub open spec fn spec_title(src: ContentSource) -> Seq<char>
    decreases src,
{
    match src {
        ContentSource::Static(s) => match s.introspection {
            Some(info) => info.title@,
            None => Seq::empty(),
        },
        ContentSource::Router(_) => "Router"@,
        ContentSource::IssueContext(d) => if is_introspectable(*d.source) {
            d.description@ + ": "@ + spec_title(*d.source)
        } else {
            d.description@
        },
    }
}

/// The introspection details of a provider: forwarded by the decorator,
/// empty where unsupported.
pub open spec fn spec_details(src: ContentSource) -> Seq<char>
    decreases src,
{
    match src {
        ContentSource::Static(s) => match s.introspection {
            Some(info) => info.details@,
            None => Seq::empty(),
        },
        ContentSource::Router(_) => Seq::empty(),
        ContentSource::IssueContext(d) => if is_introspectable(*d.source) {
            spec_details(*d.source)
        } else {
            Seq::empty()
        },
    }
}

/// The introspection children of a provider: forwarded by the decorator
/// (which is invisible as a tree node of its own), empty where unsupported.
pub open spec fn spec_intro_children(src: ContentSource) -> Seq<ContentSource>
    decreases src,
{
    match src {
        ContentSource::Static(_) => Seq::empty(),
        ContentSource::Router(children) => children@,
        ContentSource::IssueContext(d) => if is_introspectable(*d.source) {
            spec_intro_children(*d.source)
        } else {
            Seq::empty()
        },
    }
}

impl ContentSource {
    /// The dynamic capability query: does this provider also answer the
    /// introspection capability? Never an error; unsupported simply
    /// answers no.
    pub fn supports_introspection(&self) -> (r: bool)
        ensures
            r == is_introspectable(*self),
    {
        match self {
            ContentSource::Static(s) => s.introspection.is_some(),
            ContentSource::Router(_) => true,
            ContentSource::IssueContext(_) => true,
        }
    }

    /// The introspection type name.
    pub fn ty(&self) -> (r: String)
        ensures
            r@ == spec_ty(*self),
        decreases *self,
    {
        match self {
            ContentSource::Static(s) => match &s.introspection {
                Some(info) => info.ty.clone(),
                None => String::new(),
            },
            ContentSource::Router(_) => "Router".to_owned(),
            ContentSource::IssueContext(d) => d.ty(),
        }
    }

    /// The introspection title.
    pub fn title(&self) -> (r: String)
        ensures
            r@ == spec_title(*self),
        decreases *self,
    {
        match self {
            ContentSource::Static(s) => match &s.introspection {
                Some(info) => info.title.clone(),
                None => String::new(),
            },
            ContentSource::Router(_) => "Router".to_owned(),
            ContentSource::IssueContext(d) => d.title(),
        }
    }

    /// The introspection details.
    pub fn details(&self) -> (r: String)
        ensures
            r@ == spec_details(*self),
        decreases *self,
    {
        match self {
            ContentSource::Static(s) => match &s.introspection {
                Some(info) => info.details.clone(),
                None => String::new(),
            },
            ContentSource::Router(_) => String::new(),
            ContentSource::IssueContext(d) => d.details(),
        }
    }

    /// The introspection children.
    #[verifier::loop_isolation(false)]
    pub fn children(&self) -> (r: Vec<&ContentSource>)
        ensures
            r@.map_values(|c: &ContentSource| *c) == spec_intro_children(*self),
        decreases *self,
    {
        match self {
            ContentSource::Static(_) => {
                let v: Vec<&ContentSource> = Vec::new();
                proof {
                    assert(v@.map_values(|c: &ContentSource| *c) =~= spec_intro_children(*self));
                }
                v
            }
            ContentSource::Router(children) => {
                let mut v: Vec<&ContentSource> = Vec::new();
                let mut i: usize = 0;
                while i < children.len()
                    invariant
                        i <= children.len(),
                        v@.map_values(|c: &ContentSource| *c) == children@.subrange(0, i as int),
                    decreases children.len() - i,
                {
                    v.push(&children[i]);
                    proof {
                        assert(v@.map_values(|c: &ContentSource| *c) =~= children@.subrange(
                            0,
                            i + 1 as int,
                        ));
                    }
                    i += 1;
                }
                proof {
                    assert(children@.subrange(0, children@.len() as int) =~= children@);
                }
                v
            }
            ContentSource::IssueContext(d) => d.children(),
        }
    }
}

impl IssueContextContentSource {
    /// Introspection type name: forwarded from the wrapped provider when it
    /// is introspectable, else this decorator's own type name as a
    /// fallback label.
    pub fn ty(&self) -> (r: String)
        ensures
            r@ == spec_ty(ContentSource::IssueContext(*self)),
        decreases *self,
    {
        if self.source.supports_introspection() {
            self.source.ty()
        } else {
            "IssueContextContentSource".to_owned()
        }
    }

    /// Introspection title: the description prefixed to an introspectable
    /// wrapped provider's title, else the bare description.
    pub fn title(&self) -> (r: String)
        ensures
            r@ == spec_title(ContentSource::IssueContext(*self)),
        decreases *self,
    {
        if self.source.supports_introspection() {
            let inner = self.source.title();
            let prefix = crate::text::append_str(&self.description, ": ");
            crate::text::append_str(&prefix, &inner)
        } else {
            self.description.clone()
        }
    }

    /// Introspection details: forwarded when supported, else empty.
    pub fn details(&self) -> (r: String)
        ensures
            r@ == spec_details(ContentSource::IssueContext(*self)),
        decreases *self,
    {
        if self.source.supports_introspection() {
            self.source.details()
        } else {
            String::new()
        }
    }

    /// Introspection children: forwarded when supported, else empty — the
    /// decorator introduces no visible tree node of its own.
    pub fn children(&self) -> (r: Vec<&ContentSource>)
        ensures
            r@.map_values(|c: &ContentSource| *c) == spec_intro_children(
                ContentSource::IssueContext(*self),
            ),
        decreases *self,
    {
        if self.source.supports_introspection() {
            self.source.children()
        } else {
            let v: Vec<&ContentSource> = Vec::new();
            proof {
                assert(v@.map_values(|c: &ContentSource| *c) =~= Seq::<ContentSource>::empty());
            }
            v
        }
    }
}

/// One memoized resolution cell of the incremental-computation substrate,
/// scoped to the content-source protocol: the key a result was computed for
/// and that result.
pub struct GetMemo {
    pub entry: Option<(String, ContentSourceData, ContentSourceResult)>,
}

/// A memo cell is consistent with `src`: whatever it caches is exactly what
/// resolving `src` against the cached key finds.
pub open spec fn memo_wf(m: GetMemo, src: ContentSource) -> bool {
    match m.entry {
        Some(e) => result_matches(e.2, src, e.0@),
        None => true,
    }
}

/// Whether the cell holds a result for this key.
pub open spec fn memo_hit(m: GetMemo, path: Seq<char>, data: (Seq<char>, Seq<char>)) -> bool {
    match m.entry {
        Some(e) => e.0@ == path && e.1@ == data,
        None => false,
    }
}

impl GetMemo {
    /// An empty cell, consistent with every provider.
    pub fn new() -> (r: GetMemo)
        ensures
            r.entry is None,
    {
        GetMemo { entry: None }
    }
}

impl ContentSource {
    /// Memoized resolution. A first call for a key computes, records the
    /// subtree's issues, and caches; a later call with the same key and
    /// unchanged tree replays the cached result without recomputation and
    /// without raising any issue again.
    pub fn get_memoized(
        &self,
        path: &String,
        data: &ContentSourceData,
        memo: &mut GetMemo,
        sink: &mut IssueSink,
    ) -> (r: ContentSourceResult)
        requires
            memo_wf(*old(memo), *self),
        ensures
            memo_wf(*final(memo), *self),
            memo_hit(*final(memo), path@, data@),
            result_matches(r, *self, path@),
            memo_hit(*old(memo), path@, data@) ==> {
                &&& *final(sink) == *old(sink)
                &&& *final(memo) == *old(memo)
                &&& r == (old(memo).entry->0).2
            },
            !memo_hit(*old(memo), path@, data@) ==> {
                &&& final(sink).stack() == old(sink).stack()
                &&& final(sink).log() == old(sink).log() + annotate(
                    resolve_issues(*self, path@),
                    innermost_first(old(sink).stack()),
                )
            },
    {
        match &memo.entry {
            Some(e) => {
                if *path == e.0 && *data == e.1 {
                    return e.2.duplicate();
                }
            }
            None => {}
        }
        let r = self.get(path, data, sink);
        memo.entry = Some((path.clone(), data.duplicate(), r.duplicate()));
        r
    }
}

} // verus!
