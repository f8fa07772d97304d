//! The dispatch walk as mathematics: which handlers an event reaches, in
//! what order, and which of them ends the walk.
//!
//! A registry is a sequence of modules, each a sequence of handlers, and a
//! position is a module's index with a handler's index inside it. The
//! replies of the handlers are given as a function of the position, so
//! that the walk can be described without running anything.

use vstd::prelude::*;

use crate::event::{accepts, EventKind};

verus! {

/// What a handler says of an event that it was offered.
#[derive(Clone, Copy, Debug, PartialEq, Eq, Structural)]
pub enum HandlerReply {
    /// It leaves the event to the handlers after it.
    Declined,
    /// It has dealt with the event.
    Handled,
    /// It failed on the event.
    Failed,
}

/// A handler, as the walk sees it.
pub struct HandlerView {
    pub name: Seq<char>,
    pub capability: EventKind,
}

/// A module, as the walk sees it.
pub struct ModuleView {
    pub id: Seq<char>,
    pub name: Seq<char>,
    pub handles: Seq<HandlerView>,
}

/// How a walk ended: with nobody, or with the module id and the name of
/// the handler that dealt with the event or failed on it.
pub enum OutcomeView {
    Unhandled,
    Handled(Seq<char>, Seq<char>),
    Errored(Seq<char>, Seq<char>),
}

/// Whether the registry has a handler at the position.
pub open spec fn in_registry(registry: Seq<ModuleView>, i: int, j: int) -> bool {
    0 <= i < registry.len() && 0 <= j < registry[i].handles.len()
}

/// Registration order: position `(a, b)` comes before `(i, j)` if its
/// module was registered earlier, or it stands earlier in the same module.
pub open spec fn precedes(a: int, b: int, i: int, j: int) -> bool {
    a < i || (a == i && b < j)
}

/// Whether the handler at the position is one that events of `kind` are
/// offered to.
pub open spec fn matches_at(registry: Seq<ModuleView>, kind: EventKind, i: int, j: int) -> bool {
    in_registry(registry, i, j) && accepts(registry[i].handles[j].capability, kind)
}

/// Whether the walk invokes the handler at the position: it is one that
/// the event is offered to, and every such handler before it declined.
pub open spec fn tried(
    registry: Seq<ModuleView>,
    kind: EventKind,
    replies: spec_fn(int, int) -> HandlerReply,
    i: int,
    j: int,
) -> bool {
    &&& matches_at(registry, kind, i, j)
    &&& forall|a: int, b: int|
        #[trigger] matches_at(registry, kind, a, b) && precedes(a, b, i, j) ==> replies(a, b)
            is Declined
}

/// Whether the walk ends at the position: the handler there is invoked
/// and does not decline.
pub open spec fn claimed(
    registry: Seq<ModuleView>,
    kind: EventKind,
    replies: spec_fn(int, int) -> HandlerReply,
    i: int,
    j: int,
) -> bool {
    tried(registry, kind, replies, i, j) && !(replies(i, j) is Declined)
}

/// The outcome that a reply at the position gives: none if the handler
/// declined, else the module's id and the handler's name.
pub open spec fn outcome_at(registry: Seq<ModuleView>, i: int, j: int, reply: HandlerReply)
    -> OutcomeView {
    match reply {
        HandlerReply::Declined => OutcomeView::Unhandled,
        HandlerReply::Handled => OutcomeView::Handled(registry[i].id, registry[i].handles[j].name),
        HandlerReply::Failed => OutcomeView::Errored(registry[i].id, registry[i].handles[j].name),
    }
}

/// The outcome of the whole walk.
pub open spec fn outcome(
    registry: Seq<ModuleView>,
    kind: EventKind,
    replies: spec_fn(int, int) -> HandlerReply,
) -> OutcomeView {
    if exists|i: int, j: int| claimed(registry, kind, replies, i, j) {
        let (i, j) = choose|i: int, j: int| claimed(registry, kind, replies, i, j);
        outcome_at(registry, i, j, replies(i, j))
    } else {
        OutcomeView::Unhandled
    }
}

/// A walk ends at one position at most.
pub proof fn law_one_claim(
    registry: Seq<ModuleView>,
    kind: EventKind,
    replies: spec_fn(int, int) -> HandlerReply,
    i: int,
    j: int,
    a: int,
    b: int,
)
    requires
        claimed(registry, kind, replies, i, j),
        claimed(registry, kind, replies, a, b),
    ensures
        a == i,
        b == j,
{
    if precedes(a, b, i, j) {
        assert(matches_at(registry, kind, a, b));
    } else if precedes(i, j, a, b) {
        assert(matches_at(registry, kind, i, j));
    }
}

/// A message reaches the handlers of its own kind and the handlers for
/// any message alike, in one walk: whichever of the two a handler is
/// declared for, it is invoked exactly if every handler of either
/// declaration that was registered before it has declined.
pub proof fn law_combined_walk(
    registry: Seq<ModuleView>,
    kind: EventKind,
    replies: spec_fn(int, int) -> HandlerReply,
    i: int,
    j: int,
)
    requires
        kind.is_message(),
        in_registry(registry, i, j),
        registry[i].handles[j].capability == kind || registry[i].handles[j].capability
            == EventKind::AnyMessage,
    ensures
        matches_at(registry, kind, i, j),
        tried(registry, kind, replies, i, j) <==> (forall|a: int, b: int|
            in_registry(registry, a, b) && precedes(a, b, i, j) && (registry[a].handles[b].capability
                == kind || registry[a].handles[b].capability == EventKind::AnyMessage)
                ==> #[trigger] replies(a, b) is Declined),
{
    if tried(registry, kind, replies, i, j) {
        assert forall|a: int, b: int|
            in_registry(registry, a, b) && precedes(a, b, i, j) && (
            registry[a].handles[b].capability == kind || registry[a].handles[b].capability
                == EventKind::AnyMessage) implies #[trigger] replies(a, b) is Declined by {
            assert(matches_at(registry, kind, a, b));
        }
    }
}

/// The walk goes by registration order: a handler that the event is
/// offered to, and that stands before one the walk invokes, in the same
/// module or in an earlier one, was invoked before it and declined.
pub proof fn law_earlier_first(
    registry: Seq<ModuleView>,
    kind: EventKind,
    replies: spec_fn(int, int) -> HandlerReply,
    a: int,
    b: int,
    i: int,
    j: int,
)
    requires
        tried(registry, kind, replies, i, j),
        matches_at(registry, kind, a, b),
        precedes(a, b, i, j),
    ensures
        tried(registry, kind, replies, a, b),
        replies(a, b) is Declined,
{
    assert forall|c: int, d: int| #[trigger]
        matches_at(registry, kind, c, d) && precedes(c, d, a, b) implies replies(c, d)
        is Declined by {
        assert(precedes(c, d, i, j));
    }
}

/// Once a handler has dealt with the event or failed on it, the walk is
/// over: no handler after it, in its module or in a later one, is invoked,
/// and the outcome is that handler's.
pub proof fn law_short_circuit(
    registry: Seq<ModuleView>,
    kind: EventKind,
    replies: spec_fn(int, int) -> HandlerReply,
    i: int,
    j: int,
    a: int,
    b: int,
)
    requires
        claimed(registry, kind, replies, i, j),
        precedes(i, j, a, b),
    ensures
        !tried(registry, kind, replies, a, b),
        outcome(registry, kind, replies) == outcome_at(registry, i, j, replies(i, j)),
{
    assert(matches_at(registry, kind, i, j));
    law_outcome_of_claim(registry, kind, replies, i, j);
}

/// The outcome of a walk that ends at a position is the outcome of the
/// reply given there.
pub proof fn law_outcome_of_claim(
    registry: Seq<ModuleView>,
    kind: EventKind,
    replies: spec_fn(int, int) -> HandlerReply,
    i: int,
    j: int,
)
    requires
        claimed(registry, kind, replies, i, j),
    ensures
        outcome(registry, kind, replies) == outcome_at(registry, i, j, replies(i, j)),
        !(outcome(registry, kind, replies) is Unhandled),
{
    let (a, b) = choose|a: int, b: int| claimed(registry, kind, replies, a, b);
    law_one_claim(registry, kind, replies, i, j, a, b);
}

/// An event is left unhandled exactly if every handler that it is offered
/// to declines; so it is where there is no such handler.
pub proof fn law_unhandled(
    registry: Seq<ModuleView>,
    kind: EventKind,
    replies: spec_fn(int, int) -> HandlerReply,
)
    ensures
        outcome(registry, kind, replies) is Unhandled <==> (forall|a: int, b: int| #[trigger]
            matches_at(registry, kind, a, b) ==> replies(a, b) is Declined),
{
    if forall|a: int, b: int| #[trigger]
        matches_at(registry, kind, a, b) ==> replies(a, b) is Declined {
        assert forall|i: int, j: int| !claimed(registry, kind, replies, i, j) by {
            if claimed(registry, kind, replies, i, j) {
                assert(matches_at(registry, kind, i, j));
            }
        }
    } else {
        let (a, b) = choose|a: int, b: int| #[trigger]
            matches_at(registry, kind, a, b) && !(replies(a, b) is Declined);
        lemma_first_claim(registry, kind, replies, a, b);
        let (i, j) = choose|i: int, j: int| claimed(registry, kind, replies, i, j);
        law_outcome_of_claim(registry, kind, replies, i, j);
    }
}

/// The number of handlers in the modules before module `i`.
spec fn handlers_before(registry: Seq<ModuleView>, i: int) -> int
    decreases i,
{
    if i <= 0 {
        0
    } else {
        handlers_before(registry, i - 1) + registry[i - 1].handles.len()
    }
}

/// The number of handlers that stand before position `(i, j)`.
spec fn rank(registry: Seq<ModuleView>, i: int, j: int) -> int {
    handlers_before(registry, i) + j
}

proof fn lemma_handlers_before_grows(registry: Seq<ModuleView>, a: int, i: int)
    requires
        0 <= a < i,
    ensures
        0 <= handlers_before(registry, a),
        handlers_before(registry, a) + registry[a].handles.len() <= handlers_before(registry, i),
    decreases i,
{
    if a > 0 {
        lemma_handlers_before_grows(registry, a - 1, a);
    }
    if a < i - 1 {
        lemma_handlers_before_grows(registry, a, i - 1);
    }
}

proof fn lemma_rank_grows(registry: Seq<ModuleView>, a: int, b: int, i: int, j: int)
    requires
        in_registry(registry, a, b),
        in_registry(registry, i, j),
        precedes(a, b, i, j),
    ensures
        0 <= rank(registry, a, b) < rank(registry, i, j),
{
    lemma_handlers_before_grows(registry, a, a + 1);
    if a < i {
        lemma_handlers_before_grows(registry, a, i);
    }
}

/// Where some handler that the event is offered to does not decline, the
/// walk ends somewhere: at the first such handler.
proof fn lemma_first_claim(
    registry: Seq<ModuleView>,
    kind: EventKind,
    replies: spec_fn(int, int) -> HandlerReply,
    a: int,
    b: int,
)
    requires
        matches_at(registry, kind, a, b),
        !(replies(a, b) is Declined),
    ensures
        exists|i: int, j: int| claimed(registry, kind, replies, i, j),
    decreases rank(registry, a, b),
{
    if tried(registry, kind, replies, a, b) {
        assert(claimed(registry, kind, replies, a, b));
    } else {
        let (c, d) = choose|c: int, d: int| #[trigger]
            matches_at(registry, kind, c, d) && precedes(c, d, a, b) && !(replies(c, d)
                is Declined);
        lemma_rank_grows(registry, c, d, a, b);
        lemma_first_claim(registry, kind, replies, c, d);
    }
}

} // verus!
