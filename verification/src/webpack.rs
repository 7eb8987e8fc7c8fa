use vstd::prelude::*;

verus! {

/// One argument of a call expression, as the reference scan reads it: its
/// spread flag and, where the argument is a literal, that literal's text.
pub struct CallArg {
    pub spread: bool,
    pub lit: Option<String>,
}

/// The shape of one call expression in a parsed module, in visit order:
/// the identifiers of a member-expression callee, if the callee has that
/// form, and the arguments.
pub struct CallShape {
    pub callee_obj: Option<String>,
    pub callee_prop: Option<String>,
    pub args: Vec<CallArg>,
}

/// A reference from a webpack bundle to the chunk it loads on demand.
pub struct WebpackChunkAssetReference {
    pub chunk_id: String,
}

/// The outcome of parsing a module: the call expressions found, in visit
/// order, or nothing where the module is unparseable or missing.
pub enum ParseResult {
    Parsed(Vec<CallShape>),
    Unparseable,
    NotFound,
}

/// Whether a call is a webpack on-demand chunk load: a call of the form
/// `__webpack_require__.e(<literal>)`, with exactly one non-spread literal
/// argument.
pub open spec fn is_chunk_load(c: CallShape) -> bool {
    &&& c.callee_obj matches Some(o) && o@ == "__webpack_require__"@
    &&& c.callee_prop matches Some(p) && p@ == "e"@
    &&& c.args@.len() == 1
    &&& !c.args@[0].spread
    &&& c.args@[0].lit is Some
}

/// The chunk a chunk-load call names.
pub open spec fn chunk_id_of(c: CallShape) -> Seq<char> {
    match c.args@[0].lit {
        Some(l) => l@,
        None => Seq::empty(),
    }
}

/// The chunk references of a sequence of calls, in visit order.
pub open spec fn chunk_refs(calls: Seq<CallShape>) -> Seq<Seq<char>>
    decreases calls.len(),
{
    if calls.len() == 0 {
        Seq::empty()
    } else {
        chunk_refs(calls.drop_last()) + if is_chunk_load(calls.last()) {
            seq![chunk_id_of(calls.last())]
        } else {
            Seq::empty()
        }
    }
}

/// The chunk named by a call, where the call is a webpack on-demand chunk
/// load; nothing otherwise.
fn chunk_load_target(c: &CallShape) -> (r: Option<String>)
    ensures
        r is Some <==> is_chunk_load(*c),
        r matches Some(id) ==> id@ == chunk_id_of(*c),
{
    let require_obj: String = "__webpack_require__".to_owned();
    let ensure_prop: String = "e".to_owned();
    match (&c.callee_obj, &c.callee_prop) {
        (Some(o), Some(p)) => {
            if *o == require_obj && *p == ensure_prop && c.args.len() == 1 && !c.args[0].spread {
                match &c.args[0].lit {
                    Some(l) => Some(l.clone()),
                    None => None,
                }
            } else {
                None
            }
        }
        _ => None,
    }
}

/// The references a webpack bundle makes to on-demand chunks: one for each
/// `__webpack_require__.e(<literal>)` call, in visit order; none where the
/// module could not be parsed or was not found.
#[verifier::loop_isolation(false)]
pub fn module_references(parsed: &ParseResult) -> (r: Vec<WebpackChunkAssetReference>)
    ensures
        parsed matches ParseResult::Parsed(calls) ==> r@.map_values(
            |w: WebpackChunkAssetReference| w.chunk_id@,
        ) == chunk_refs(calls@),
        !(*parsed matches ParseResult::Parsed(_)) ==> r@.len() == 0,
{
    match parsed {
        ParseResult::Parsed(calls) => {
            let mut refs: Vec<WebpackChunkAssetReference> = Vec::new();
            let mut i: usize = 0;
            while i < calls.len()
                invariant
                    i <= calls.len(),
                    refs@.map_values(|w: WebpackChunkAssetReference| w.chunk_id@) == chunk_refs(
                        calls@.subrange(0, i as int),
                    ),
                decreases calls.len() - i,
            {
                if let Some(id) = chunk_load_target(&calls[i]) {
                    refs.push(WebpackChunkAssetReference { chunk_id: id });
                }
                proof {
                    let post = calls@.subrange(0, i + 1 as int);
                    assert(post.drop_last() =~= calls@.subrange(0, i as int));
                    assert(post.last() == calls@[i as int]);
                    assert(refs@.map_values(|w: WebpackChunkAssetReference| w.chunk_id@)
                        =~= chunk_refs(post));
                }
                i += 1;
            }
            proof {
                assert(calls@.subrange(0, calls@.len() as int) =~= calls@);
            }
            refs
        }
        ParseResult::Unparseable => Vec::new(),
        ParseResult::NotFound => Vec::new(),
    }
}

} // verus!
