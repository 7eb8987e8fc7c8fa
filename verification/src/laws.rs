use vstd::prelude::*;

use crate::issues::{annotate, innermost_first, lemma_annotate_annotate, lemma_innermost_first_push,
    IssueView, ProvView};
use crate::source::{get_issues, is_introspectable, prov_entry, resolve, resolve_issues, spec_title,
    vary_issues, ContentSource, GetContentSourceContent, IssueContextContentSource,
    IssueContextGetContentSourceContent};

verus! {

/// Law: provenance composes across nested diagnostic scopes. When an outer
/// decorator wraps an inner decorator which wraps any provider, every issue
/// the provider raises during resolution keeps its own chain, then records
/// the inner scope, then the outer scope — innermost first — with both
/// owning paths wherever both are set; severity and message are untouched.
pub proof fn lemma_provenance_composition(
    outer: IssueContextContentSource,
    inner: IssueContextContentSource,
    path: Seq<char>,
    j: int,
)
    requires
        *outer.source == ContentSource::IssueContext(inner),
        0 <= j < resolve_issues(*inner.source, path).len(),
    ensures
        resolve_issues(ContentSource::IssueContext(outer), path).len() == resolve_issues(
            *inner.source,
            path,
        ).len(),
        resolve_issues(ContentSource::IssueContext(outer), path)[j].0 == resolve_issues(
            *inner.source,
            path,
        )[j].0,
        resolve_issues(ContentSource::IssueContext(outer), path)[j].1 == resolve_issues(
            *inner.source,
            path,
        )[j].1,
        resolve_issues(ContentSource::IssueContext(outer), path)[j].2 == resolve_issues(
            *inner.source,
            path,
        )[j].2 + seq![
            prov_entry(inner.context, inner.description),
            prov_entry(outer.context, outer.description),
        ],
{
    let base = resolve_issues(*inner.source, path);
    let inner_scope = prov_entry(inner.context, inner.description);
    let outer_scope = prov_entry(outer.context, outer.description);
    lemma_annotate_annotate(base, seq![inner_scope], seq![outer_scope]);
    assert(seq![inner_scope] + seq![outer_scope] =~= seq![inner_scope, outer_scope]);
    assert(resolve_issues(ContentSource::IssueContext(inner), path) == annotate(
        base,
        seq![inner_scope],
    ));
    assert(resolve_issues(ContentSource::IssueContext(outer), path) == annotate(
        annotate(base, seq![inner_scope]),
        seq![outer_scope],
    ));
    assert(resolve_issues(ContentSource::IssueContext(outer), path) == annotate(
        base,
        seq![inner_scope, outer_scope],
    ));
}

/// Law: the decorator is transparent to introspection. Wrapping an
/// introspectable provider titled `T` under description `D` yields the
/// title `"D: T"`; wrapping a non-introspectable provider yields the bare
/// description `D`.
pub proof fn lemma_introspection_transparency(d: IssueContextContentSource)
    ensures
        is_introspectable(*d.source) ==> spec_title(ContentSource::IssueContext(d))
            == d.description@ + ": "@ + spec_title(*d.source),
        !is_introspectable(*d.source) ==> spec_title(ContentSource::IssueContext(d))
            == d.description@,
{
}

/// Law: when the wrapped provider finds nothing, the decorator returns
/// `NotFound` unchanged — no producer is wrapped and no issue is
/// synthesized beyond what the subtree itself raised.
pub proof fn lemma_not_found_passthrough(d: IssueContextContentSource, path: Seq<char>)
    requires
        resolve(*d.source, path) is None,
    ensures
        resolve(ContentSource::IssueContext(d), path) is None,
        resolve_issues(ContentSource::IssueContext(d), path).len() == resolve_issues(
            *d.source,
            path,
        ).len(),
{
}

/// Law: resolution is idempotent. Any two resolutions of the same tree
/// against the same path — a recomputation and a memoized replay alike —
/// agree on being found, on the underlying producer, on its re-wrapping
/// scopes, and on the specificity.
pub proof fn lemma_idempotent_resolution(
    a: crate::source::ContentSourceResult,
    b: crate::source::ContentSourceResult,
    src: ContentSource,
    path: Seq<char>,
)
    requires
        crate::source::result_matches(a, src, path),
        crate::source::result_matches(b, src, path),
    ensures
        a is Result <==> b is Result,
        a is Result ==> {
            &&& crate::source::producer_base(a->Result_get_content) == crate::source::producer_base(
                b->Result_get_content,
            )
            &&& crate::source::producer_scopes(a->Result_get_content)
                == crate::source::producer_scopes(b->Result_get_content)
            &&& a->Result_specificity == b->Result_specificity
        },
{
}

/// Law: re-contextualization is observed lazily. Invoking `vary` or `get`
/// on the producer a decorator handed back, under any ambient scope stack,
/// raises exactly what the wrapped producer itself would have raised had it
/// been invoked directly inside the decorator's still-open scope.
pub proof fn lemma_lazy_recontext(w: IssueContextGetContentSourceContent, stack: Seq<ProvView>)
    ensures
        annotate(
            vary_issues(GetContentSourceContent::IssueContext(w)),
            innermost_first(stack),
        ) == annotate(
            vary_issues(*w.get_content),
            innermost_first(stack.push(prov_entry(w.context, w.description))),
        ),
        annotate(
            get_issues(GetContentSourceContent::IssueContext(w)),
            innermost_first(stack),
        ) == annotate(
            get_issues(*w.get_content),
            innermost_first(stack.push(prov_entry(w.context, w.description))),
        ),
{
    let scope = prov_entry(w.context, w.description);
    let base = crate::source::producer_base(*w.get_content);
    let scopes = crate::source::producer_scopes(*w.get_content);
    lemma_innermost_first_push(stack, scope);
    lemma_annotate_annotate(
        crate::source::template_issues(base.vary_issue),
        scopes,
        seq![scope] + innermost_first(stack),
    );
    lemma_annotate_annotate(
        crate::source::template_issues(base.vary_issue),
        scopes.push(scope),
        innermost_first(stack),
    );
    lemma_annotate_annotate(
        crate::source::template_issues(base.get_issue),
        scopes,
        seq![scope] + innermost_first(stack),
    );
    lemma_annotate_annotate(
        crate::source::template_issues(base.get_issue),
        scopes.push(scope),
        innermost_first(stack),
    );
    assert(scopes + (seq![scope] + innermost_first(stack)) =~= scopes.push(scope)
        + innermost_first(stack));
}

} // verus!
