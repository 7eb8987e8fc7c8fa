use vstd::prelude::*;

verus! {

/// Severity of a diagnostic raised during content resolution.
#[derive(Clone, Copy, PartialEq, Eq, Structural, Debug)]
pub enum IssueSeverity {
    Error,
    Warning,
}

/// Spec-level model of one provenance entry: the owning path of the
/// diagnostic scope that annotated the issue, if any, and that scope's
/// human-readable description.
pub type ProvView = (Option<Seq<char>>, Seq<char>);

/// Spec-level model of a recorded issue: severity, message, and the
/// provenance chain, innermost scope first.
pub type IssueView = (IssueSeverity, Seq<char>, Seq<ProvView>);

/// One provenance entry attached to a recorded issue.
pub struct IssueProvenance {
    /// The owning filesystem path of the scope, if it has one.
    pub context: Option<String>,
    /// The scope's human-readable description.
    pub description: String,
}

impl View for IssueProvenance {
    type V = ProvView;

    open spec fn view(&self) -> ProvView {
        (
            match self.context {
                Some(c) => Some(c@),
                None => None,
            },
            self.description@,
        )
    }
}

impl IssueProvenance {
    /// An equal copy of this entry.
    pub fn duplicate(&self) -> (r: IssueProvenance)
        ensures
            r == *self,
    {
        IssueProvenance {
            context: match &self.context {
                Some(c) => Some(c.clone()),
                None => None,
            },
            description: self.description.clone(),
        }
    }
}

/// A diagnostic as a provider raises it, before any scope has annotated it.
pub struct RawIssue {
    pub severity: IssueSeverity,
    pub message: String,
}

impl View for RawIssue {
    type V = (IssueSeverity, Seq<char>);

    open spec fn view(&self) -> (IssueSeverity, Seq<char>) {
        (self.severity, self.message@)
    }
}

impl RawIssue {
    /// An equal copy of this template.
    pub fn duplicate(&self) -> (r: RawIssue)
        ensures
            r == *self,
    {
        RawIssue { severity: self.severity, message: self.message.clone() }
    }
}

/// A recorded diagnostic together with its provenance chain, innermost
/// scope first.
pub struct Issue {
    pub severity: IssueSeverity,
    pub message: String,
    pub provenance: Vec<IssueProvenance>,
}

impl View for Issue {
    type V = IssueView;

    open spec fn view(&self) -> IssueView {
        (self.severity, self.message@, self.provenance@.map_values(|p: IssueProvenance| p@))
    }
}

/// The provenance chain that an issue raised under `stack` captures: the
/// active scopes, innermost first.
pub open spec fn innermost_first(stack: Seq<ProvView>) -> Seq<ProvView>
    decreases stack.len(),
{
    if stack.len() == 0 {
        Seq::empty()
    } else {
        seq![stack.last()] + innermost_first(stack.drop_last())
    }
}

/// Appends `tail` to the provenance chain of every issue in `issues`,
/// leaving severity and message unchanged.
pub open spec fn annotate(issues: Seq<IssueView>, tail: Seq<ProvView>) -> Seq<IssueView> {
    issues.map_values(|i: IssueView| (i.0, i.1, i.2 + tail))
}

/// Annotating with nothing changes nothing.
pub proof fn lemma_annotate_empty(issues: Seq<IssueView>)
    ensures
        annotate(issues, Seq::empty()) == issues,
{
    assert forall|j: int| 0 <= j < issues.len() implies annotate(
        issues,
        Seq::<ProvView>::empty(),
    )[j] == issues[j] by {
        assert(issues[j].2 + Seq::<ProvView>::empty() =~= issues[j].2);
    }
    assert(annotate(issues, Seq::empty()) =~= issues);
}

/// Two annotations in a row attach one combined chain: the first annotation
/// stays in front of the second, so inner scopes precede outer ones.
pub proof fn lemma_annotate_annotate(issues: Seq<IssueView>, a: Seq<ProvView>, b: Seq<ProvView>)
    ensures
        annotate(annotate(issues, a), b) == annotate(issues, a + b),
{
    assert forall|j: int| 0 <= j < issues.len() implies annotate(annotate(issues, a), b)[j]
        == annotate(issues, a + b)[j] by {
        assert((issues[j].2 + a) + b =~= issues[j].2 + (a + b));
    }
    assert(annotate(annotate(issues, a), b) =~= annotate(issues, a + b));
}

/// Annotation distributes over concatenation of issue sequences.
pub proof fn lemma_annotate_add(x: Seq<IssueView>, y: Seq<IssueView>, tail: Seq<ProvView>)
    ensures
        annotate(x + y, tail) == annotate(x, tail) + annotate(y, tail),
{
    assert(annotate(x + y, tail) =~= annotate(x, tail) + annotate(y, tail));
}

/// Entering one more scope prepends that scope to the captured chain: the
/// newest (innermost) scope comes first.
pub proof fn lemma_innermost_first_push(stack: Seq<ProvView>, scope: ProvView)
    ensures
        innermost_first(stack.push(scope)) == seq![scope] + innermost_first(stack),
{
    assert(stack.push(scope).drop_last() =~= stack);
    assert(stack.push(scope).last() == scope);
}

/// The global issue sink together with the dynamically scoped stack of
/// diagnostic contexts that annotate everything raised beneath them.
pub struct IssueSink {
    /// Every issue recorded so far, in order of raising.
    pub recorded: Vec<Issue>,
    /// The active diagnostic scopes, outermost first.
    pub scopes: Vec<IssueProvenance>,
}

impl IssueSink {
    /// All recorded issues, in order of raising.
    pub open spec fn log(&self) -> Seq<IssueView> {
        self.recorded@.map_values(|i: Issue| i@)
    }

    /// The active diagnostic scopes, outermost first.
    pub open spec fn stack(&self) -> Seq<ProvView> {
        self.scopes@.map_values(|p: IssueProvenance| p@)
    }

    /// A sink with nothing recorded and no scope active.
    pub fn new() -> (s: IssueSink)
        ensures
            s.log() == Seq::<IssueView>::empty(),
            s.stack() == Seq::<ProvView>::empty(),
    {
        let s = IssueSink { recorded: Vec::new(), scopes: Vec::new() };
        proof {
            assert(s.log() =~= Seq::<IssueView>::empty());
            assert(s.stack() =~= Seq::<ProvView>::empty());
        }
        s
    }

    /// Enters a diagnostic scope: everything raised until the matching
    /// `pop_scope` is annotated with `scope` (and with the scopes already
    /// active, further out in the chain).
    pub fn push_scope(&mut self, scope: IssueProvenance)
        ensures
            final(self).stack() == old(self).stack().push(scope@),
            final(self).log() == old(self).log(),
    {
        self.scopes.push(scope);
        proof {
            assert(self.stack() =~= old(self).stack().push(scope@));
            assert(self.log() =~= old(self).log());
        }
    }

    /// Leaves the innermost diagnostic scope.
    pub fn pop_scope(&mut self)
        requires
            old(self).scopes@.len() > 0,
        ensures
            final(self).stack() == old(self).stack().drop_last(),
            final(self).log() == old(self).log(),
    {
        let _popped = self.scopes.pop();
        proof {
            assert(self.stack() =~= old(self).stack().drop_last());
            assert(self.log() =~= old(self).log());
        }
    }

    /// Records an issue, capturing the active scopes as its provenance
    /// chain, innermost scope first.
    #[verifier::loop_isolation(false)]
    pub fn raise(&mut self, severity: IssueSeverity, message: String)
        ensures
            final(self).stack() == old(self).stack(),
            final(self).log() == old(self).log().push(
                (severity, message@, innermost_first(old(self).stack())),
            ),
    {
        let mut provenance: Vec<IssueProvenance> = Vec::new();
        let mut i: usize = 0;
        while i < self.scopes.len()
            invariant
                i <= self.scopes.len(),
                provenance@.map_values(|p: IssueProvenance| p@) == innermost_first(
                    self.stack().subrange(0, i as int),
                ),
            decreases self.scopes.len() - i,
        {
            let entry = self.scopes[i].duplicate();
            provenance.insert(0, entry);
            proof {
                let sub = self.stack().subrange(0, i + 1 as int);
                assert(sub.drop_last() =~= self.stack().subrange(0, i as int));
                assert(sub.last() == self.scopes@[i as int]@);
                assert(provenance@.map_values(|p: IssueProvenance| p@) =~= innermost_first(sub));
            }
            i += 1;
        }
        proof {
            assert(self.stack().subrange(0, self.scopes@.len() as int) =~= self.stack());
        }
        self.recorded.push(Issue { severity, message, provenance });
        proof {
            assert(self.log() =~= old(self).log().push(
                (severity, message@, innermost_first(old(self).stack())),
            ));
            assert(self.stack() =~= old(self).stack());
        }
    }
}

} // verus!
