//! The decisions behind the `bare_future` attribute.
//!
//! The attribute removes `async` from an `async fn` and wraps the body in an
//! explicit deferred block, hoisting the statements of a leading
//! `before_async!` marker invocation so that they run eagerly, before the
//! block is built. The functions here take the facts that the rewrite reads
//! off the function — its signature keywords and the shape of its first
//! statement — as plain values, and decide what the rewrite does with them.

use vstd::prelude::*;

verus! {

/// One segment of the path of a macro invocation: its identifier, and whether
/// the segment carries angle-bracketed or parenthesized arguments.
pub struct SegmentModel {
    pub ident: String,
    pub has_arguments: bool,
}

/// The path of a macro invocation.
pub struct MacroPath {
    pub leading_colon: bool,
    pub segments: Vec<SegmentModel>,
}

/// The name of the marker macro whose body is hoisted.
pub open spec fn eager_macro_name() -> Seq<char> {
    "before_async"@
}

/// The name of the crate that qualifies the marker macro.
pub open spec fn marker_crate_name() -> Seq<char> {
    "async_fn"@
}

/// The path is the bare identifier `before_async`: no leading colon, a single
/// segment without arguments, with that name.
pub open spec fn is_bare_eager_name(p: MacroPath) -> bool {
    &&& !p.leading_colon
    &&& p.segments.len() == 1
    &&& !p.segments[0].has_arguments
    &&& p.segments[0].ident@ == eager_macro_name()
}

/// The path is the crate-qualified marker `async_fn::before_async`, with or
/// without a leading colon; segment arguments are not consulted.
pub open spec fn is_qualified_eager_name(p: MacroPath) -> bool {
    &&& p.segments.len() == 2
    &&& p.segments[0].ident@ == marker_crate_name()
    &&& p.segments[1].ident@ == eager_macro_name()
}

/// The first statement's macro is recognized as the eager-prelude marker:
/// either the bare marker name or its crate-qualified form. Any other path —
/// longer, shorter, or differently named — is not the marker.
pub open spec fn names_eager_prelude(p: MacroPath) -> bool {
    is_bare_eager_name(p) || is_qualified_eager_name(p)
}

/// Compares a string against a literal by value.
fn string_is(s: &String, lit: &str) -> (r: bool)
    ensures
        r == (s@ == lit@),
{
    let other: String = String::from_str(lit);
    *s == other
}

/// Decides whether a macro invocation's path names the eager-prelude marker.
pub fn path_names_eager_prelude(p: &MacroPath) -> (r: bool)
    ensures
        r == names_eager_prelude(*p),
{
    if !p.leading_colon && p.segments.len() == 1 && !p.segments[0].has_arguments && string_is(
        &p.segments[0].ident,
        "before_async",
    ) {
        return true;
    }
    p.segments.len() == 2 && string_is(&p.segments[0].ident, "async_fn") && string_is(
        &p.segments[1].ident,
        "before_async",
    )
}

/// The first statement of the function's body, as far as the rewrite reads it.
pub enum FirstStmt {
    /// The body has no statements.
    Missing,
    /// A macro invocation, in item or in expression-statement position: its
    /// path, and how many attributes stand on the invocation.
    Invocation { path: MacroPath, n_attrs: usize },
    /// Any other statement.
    Other,
}

/// What the rewrite does with the function's body.
#[derive(Clone, Copy, Debug, PartialEq, Eq, Structural)]
pub enum PreludeAction {
    /// No eager prelude: the whole body moves into the deferred block.
    WrapAll,
    /// The marker invocation carries attributes: rejected, with a diagnostic
    /// at the first attribute.
    RejectAttribute,
    /// The statements inside the marker invocation are hoisted ahead of the
    /// deferred block, and the invocation itself is blanked out where it
    /// stands. `shadow_import` says whether an import that shadows the marker
    /// macro is appended to the hoisted statements; that happens exactly when
    /// the marker was named by a single-segment path.
    Hoist { shadow_import: bool },
}

/// What the rewrite does with a body whose first statement is `first`.
pub open spec fn spec_prelude_action(first: FirstStmt) -> PreludeAction {
    match first {
        FirstStmt::Invocation { path, n_attrs } => if names_eager_prelude(path) {
            if n_attrs > 0 {
                PreludeAction::RejectAttribute
            } else {
                PreludeAction::Hoist { shadow_import: path.segments.len() == 1 }
            }
        } else {
            PreludeAction::WrapAll
        },
        _ => PreludeAction::WrapAll,
    }
}

/// Decides whether the first statement is an eager prelude and, if so, whether
/// it is taken or rejected.
pub fn prelude_action(first: &FirstStmt) -> (action: PreludeAction)
    ensures
        action == spec_prelude_action(*first),
{
    match first {
        FirstStmt::Invocation { path, n_attrs } => {
            if path_names_eager_prelude(path) {
                if *n_attrs > 0 {
                    PreludeAction::RejectAttribute
                } else {
                    PreludeAction::Hoist { shadow_import: path.segments.len() == 1 }
                }
            } else {
                PreludeAction::WrapAll
            }
        },
        _ => PreludeAction::WrapAll,
    }
}

/// The signature keyword whose position anchors the missing-`async`
/// diagnostic: the unsafety keyword when there is one, else the abi keyword
/// when there is one, else the function keyword itself.
#[derive(Clone, Copy, Debug, PartialEq, Eq, Structural)]
pub enum DiagnosticAnchor {
    UnsafetyKeyword,
    AbiKeyword,
    FnKeyword,
}

/// Where the missing-`async` diagnostic points on a signature with the given
/// keywords.
pub open spec fn spec_missing_async_anchor(has_unsafety: bool, has_abi: bool) -> DiagnosticAnchor {
    if has_unsafety {
        DiagnosticAnchor::UnsafetyKeyword
    } else if has_abi {
        DiagnosticAnchor::AbiKeyword
    } else {
        DiagnosticAnchor::FnKeyword
    }
}

/// The facts the rewrite reads off the function it is applied to.
pub struct FnShape {
    /// Whether the signature is `async`.
    pub is_async: bool,
    /// Whether the signature has an unsafety keyword.
    pub has_unsafety: bool,
    /// Whether the signature names an abi.
    pub has_abi: bool,
    /// The first statement of the body.
    pub first_stmt: FirstStmt,
}

/// Why the rewrite refuses a function.
#[derive(Clone, Copy, Debug, PartialEq, Eq, Structural)]
pub enum RewriteError {
    /// The function is not `async`; the anchor locates the diagnostic.
    ExpectedAsync { anchor: DiagnosticAnchor },
    /// The marker invocation carries an attribute.
    UnexpectedAttribute,
}

/// How an accepted function is rewritten.
#[derive(Clone, Copy, Debug, PartialEq, Eq, Structural)]
pub struct RewritePlan {
    /// Whether the first statement is a marker invocation whose statements
    /// are hoisted ahead of the deferred block.
    pub hoist_prelude: bool,
    /// Whether an import that shadows the marker macro follows the hoisted
    /// statements.
    pub shadow_import: bool,
}

/// The decision the rewrite takes on a function of the given shape.
pub open spec fn spec_plan_rewrite(shape: FnShape) -> Result<RewritePlan, RewriteError> {
    if !shape.is_async {
        Result::Err(
            RewriteError::ExpectedAsync {
                anchor: spec_missing_async_anchor(shape.has_unsafety, shape.has_abi),
            },
        )
    } else {
        match spec_prelude_action(shape.first_stmt) {
            PreludeAction::RejectAttribute => Result::Err(RewriteError::UnexpectedAttribute),
            PreludeAction::Hoist { shadow_import } => Result::Ok(
                RewritePlan { hoist_prelude: true, shadow_import },
            ),
            PreludeAction::WrapAll => Result::Ok(
                RewritePlan { hoist_prelude: false, shadow_import: false },
            ),
        }
    }
}

/// Decides what the rewrite does with a function of the given shape: refused
/// for want of `async`, refused for an attribute on the marker invocation, or
/// rewritten after the plan returned.
pub fn plan_rewrite(shape: &FnShape) -> (r: Result<RewritePlan, RewriteError>)
    ensures
        r == spec_plan_rewrite(*shape),
        r is Ok <==> shape.is_async && spec_prelude_action(shape.first_stmt)
            != PreludeAction::RejectAttribute,
{
    if !shape.is_async {
        let anchor = if shape.has_unsafety {
            DiagnosticAnchor::UnsafetyKeyword
        } else if shape.has_abi {
            DiagnosticAnchor::AbiKeyword
        } else {
            DiagnosticAnchor::FnKeyword
        };
        return Result::Err(RewriteError::ExpectedAsync { anchor });
    }
    match prelude_action(&shape.first_stmt) {
        PreludeAction::RejectAttribute => Result::Err(RewriteError::UnexpectedAttribute),
        PreludeAction::Hoist { shadow_import } => Result::Ok(
            RewritePlan { hoist_prelude: true, shadow_import },
        ),
        PreludeAction::WrapAll => Result::Ok(
            RewritePlan { hoist_prelude: false, shadow_import: false },
        ),
    }
}

/// Puts the attribute's name in front of a diagnostic message, the way every
/// diagnostic of the rewrite is rendered.
pub fn prefix_diagnostic(msg: String) -> (r: String)
    ensures
        r@ == "`#[async_fn::bare_future]`: "@ + msg@,
{
    let mut out: String = String::from_str("`#[async_fn::bare_future]`: ");
    out.append(msg.as_str());
    out
}

/// One statement of a rewritten function body, over any statement
/// representation `S`.
#[derive(Debug, PartialEq, Eq)]
pub enum OuterStmt<S> {
    /// A hoisted statement: it runs eagerly, before the deferred block is
    /// built.
    Eager(S),
    /// The import that shadows the marker macro.
    ShadowImport,
    /// The deferred block, carrying the remaining statements in their
    /// original order.
    Deferred(Vec<S>),
}

/// Lays out a rewritten body: the hoisted statements first and in order, then
/// the shadowing import if one is wanted, then the deferred block around the
/// rest of the body, as the last statement.
pub fn assemble_rewritten_body<S>(hoisted: Vec<S>, shadow_import: bool, body: Vec<S>) -> (out: Vec<
    OuterStmt<S>,
>)
    ensures
        out@.len() == hoisted@.len() + (if shadow_import {
            1int
        } else {
            0int
        }) + 1,
        forall|i: int| 0 <= i < hoisted@.len() ==> out@[i] == OuterStmt::Eager(hoisted@[i]),
        shadow_import ==> out@[hoisted@.len() as int] == OuterStmt::<S>::ShadowImport,
        out@.last() == OuterStmt::Deferred(body),
{
    let ghost orig = hoisted@;
    let mut rest = hoisted;
    let mut out: Vec<OuterStmt<S>> = Vec::new();
    while rest.len() > 0
        invariant
            out@.len() + rest@.len() == orig.len(),
            forall|i: int| 0 <= i < out@.len() ==> out@[i] == OuterStmt::Eager(orig[i]),
            rest@ == orig.subrange(out@.len() as int, orig.len() as int),
        decreases rest@.len(),
    {
        let s = rest.remove(0);
        assert(s == orig[out@.len() as int]);
        out.push(OuterStmt::Eager(s));
        proof {
            assert(rest@ =~= orig.subrange(out@.len() as int, orig.len() as int));
        }
    }
    if shadow_import {
        out.push(OuterStmt::ShadowImport);
    }
    out.push(OuterStmt::Deferred(body));
    out
}

} // verus!
