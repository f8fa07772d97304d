//! The registry of modules and handlers, and the walk that offers an
//! event to them.

use vstd::prelude::*;

use crate::event::{
    accepts, DeleteFriendEvent, EventKind, FriendMessageRecallEvent, FriendPokeEvent,
    FriendRequestEvent, GroupLeaveEvent, GroupMessageRecallEvent, GroupMuteEvent,
    GroupNameUpdateEvent, GroupRequestEvent, NewFriendEvent, QEvent,
};
use crate::message_trait::{
    GroupMessageEvent, MessageEvent, PrivateMessageEvent, TempMessageEvent,
};
use crate::walk::{
    claimed, law_outcome_of_claim, law_unhandled, matches_at, outcome, outcome_at, precedes,
    HandlerReply, HandlerView, ModuleView, OutcomeView,
};

verus! {

/// Why a handler failed on an event.
#[derive(Clone, Debug, PartialEq, Eq)]
pub struct HandlerError {
    pub message: String,
}

/// The reply that a handler's result stands for: `Ok(false)` declines,
/// `Ok(true)` has dealt with the event, and any error is a failure.
pub open spec fn reply_of(result: Result<bool, HandlerError>) -> HandlerReply {
    match result {
        Ok(false) => HandlerReply::Declined,
        Ok(true) => HandlerReply::Handled,
        Err(_) => HandlerReply::Failed,
    }
}

/// A handler of group messages.
///
/// `may_reply` says which replies the handler can give to an event; the
/// walk is stated in its terms and assumes nothing else of a handler. A
/// handler that does not say can give any reply.
pub trait GroupMessageEventProcess: Sync + Send {
    open spec fn may_reply(&self, event: &GroupMessageEvent, reply: HandlerReply) -> bool {
        true
    }

    fn handle(&self, event: &GroupMessageEvent) -> (result: Result<bool, HandlerError>)
        ensures
            self.may_reply(event, reply_of(result)),
    ;
}

/// A handler of messages from friends.
///
/// `may_reply` says which replies the handler can give to an event; the
/// walk is stated in its terms and assumes nothing else of a handler. A
/// handler that does not say can give any reply.
pub trait PrivateMessageEventProcess: Sync + Send {
    open spec fn may_reply(&self, event: &PrivateMessageEvent, reply: HandlerReply) -> bool {
        true
    }

    fn handle(&self, event: &PrivateMessageEvent) -> (result: Result<bool, HandlerError>)
        ensures
            self.may_reply(event, reply_of(result)),
    ;
}

/// A handler of messages of temporary conversations.
///
/// `may_reply` says which replies the handler can give to an event; the
/// walk is stated in its terms and assumes nothing else of a handler. A
/// handler that does not say can give any reply.
pub trait TempMessageEventProcess: Sync + Send {
    open spec fn may_reply(&self, event: &TempMessageEvent, reply: HandlerReply) -> bool {
        true
    }

    fn handle(&self, event: &TempMessageEvent) -> (result: Result<bool, HandlerError>)
        ensures
            self.may_reply(event, reply_of(result)),
    ;
}

/// A handler of requests to join a group.
///
/// `may_reply` says which replies the handler can give to an event; the
/// walk is stated in its terms and assumes nothing else of a handler. A
/// handler that does not say can give any reply.
pub trait GroupRequestEventProcess: Sync + Send {
    open spec fn may_reply(&self, event: &GroupRequestEvent, reply: HandlerReply) -> bool {
        true
    }

    fn handle(&self, event: &GroupRequestEvent) -> (result: Result<bool, HandlerError>)
        ensures
            self.may_reply(event, reply_of(result)),
    ;
}

/// A handler of requests to become a friend.
///
/// `may_reply` says which replies the handler can give to an event; the
/// walk is stated in its terms and assumes nothing else of a handler. A
/// handler that does not say can give any reply.
pub trait FriendRequestEventProcess: Sync + Send {
    open spec fn may_reply(&self, event: &FriendRequestEvent, reply: HandlerReply) -> bool {
        true
    }

    fn handle(&self, event: &FriendRequestEvent) -> (result: Result<bool, HandlerError>)
        ensures
            self.may_reply(event, reply_of(result)),
    ;
}

/// A handler of new friends.
///
/// `may_reply` says which replies the handler can give to an event; the
/// walk is stated in its terms and assumes nothing else of a handler. A
/// handler that does not say can give any reply.
pub trait NewFriendEventProcess: Sync + Send {
    open spec fn may_reply(&self, event: &NewFriendEvent, reply: HandlerReply) -> bool {
        true
    }

    fn handle(&self, event: &NewFriendEvent) -> (result: Result<bool, HandlerError>)
        ensures
            self.may_reply(event, reply_of(result)),
    ;
}

/// A handler of pokes.
///
/// `may_reply` says which replies the handler can give to an event; the
/// walk is stated in its terms and assumes nothing else of a handler. A
/// handler that does not say can give any reply.
pub trait FriendPokeEventProcess: Sync + Send {
    open spec fn may_reply(&self, event: &FriendPokeEvent, reply: HandlerReply) -> bool {
        true
    }

    fn handle(&self, event: &FriendPokeEvent) -> (result: Result<bool, HandlerError>)
        ensures
            self.may_reply(event, reply_of(result)),
    ;
}

/// A handler of removed friends.
///
/// `may_reply` says which replies the handler can give to an event; the
/// walk is stated in its terms and assumes nothing else of a handler. A
/// handler that does not say can give any reply.
pub trait DeleteFriendEventProcess: Sync + Send {
    open spec fn may_reply(&self, event: &DeleteFriendEvent, reply: HandlerReply) -> bool {
        true
    }

    fn handle(&self, event: &DeleteFriendEvent) -> (result: Result<bool, HandlerError>)
        ensures
            self.may_reply(event, reply_of(result)),
    ;
}

/// A handler of mutes in a group.
///
/// `may_reply` says which replies the handler can give to an event; the
/// walk is stated in its terms and assumes nothing else of a handler. A
/// handler that does not say can give any reply.
pub trait GroupMuteEventProcess: Sync + Send {
    open spec fn may_reply(&self, event: &GroupMuteEvent, reply: HandlerReply) -> bool {
        true
    }

    fn handle(&self, event: &GroupMuteEvent) -> (result: Result<bool, HandlerError>)
        ensures
            self.may_reply(event, reply_of(result)),
    ;
}

/// A handler of members leaving a group.
///
/// `may_reply` says which replies the handler can give to an event; the
/// walk is stated in its terms and assumes nothing else of a handler. A
/// handler that does not say can give any reply.
pub trait GroupLeaveEventProcess: Sync + Send {
    open spec fn may_reply(&self, event: &GroupLeaveEvent, reply: HandlerReply) -> bool {
        true
    }

    fn handle(&self, event: &GroupLeaveEvent) -> (result: Result<bool, HandlerError>)
        ensures
            self.may_reply(event, reply_of(result)),
    ;
}

/// A handler of renamed groups.
///
/// `may_reply` says which replies the handler can give to an event; the
/// walk is stated in its terms and assumes nothing else of a handler. A
/// handler that does not say can give any reply.
pub trait GroupNameUpdateEventProcess: Sync + Send {
    open spec fn may_reply(&self, event: &GroupNameUpdateEvent, reply: HandlerReply) -> bool {
        true
    }

    fn handle(&self, event: &GroupNameUpdateEvent) -> (result: Result<bool, HandlerError>)
        ensures
            self.may_reply(event, reply_of(result)),
    ;
}

/// A handler of messages withdrawn from a group.
///
/// `may_reply` says which replies the handler can give to an event; the
/// walk is stated in its terms and assumes nothing else of a handler. A
/// handler that does not say can give any reply.
pub trait GroupMessageRecallEventProcess: Sync + Send {
    open spec fn may_reply(&self, event: &GroupMessageRecallEvent, reply: HandlerReply) -> bool {
        true
    }

    fn handle(&self, event: &GroupMessageRecallEvent) -> (result: Result<bool, HandlerError>)
        ensures
            self.may_reply(event, reply_of(result)),
    ;
}

/// A handler of messages withdrawn by a friend.
///
/// `may_reply` says which replies the handler can give to an event; the
/// walk is stated in its terms and assumes nothing else of a handler. A
/// handler that does not say can give any reply.
pub trait FriendMessageRecallEventProcess: Sync + Send {
    open spec fn may_reply(&self, event: &FriendMessageRecallEvent, reply: HandlerReply) -> bool {
        true
    }

    fn handle(&self, event: &FriendMessageRecallEvent) -> (result: Result<bool, HandlerError>)
        ensures
            self.may_reply(event, reply_of(result)),
    ;
}

/// A handler of messages of any conversation kind.
///
/// `may_reply` says which replies the handler can give to an event; the
/// walk is stated in its terms and assumes nothing else of a handler. A
/// handler that does not say can give any reply.
pub trait MessageEventProcess: Sync + Send {
    open spec fn may_reply(&self, event: &MessageEvent<'_>, reply: HandlerReply) -> bool {
        true
    }

    fn handle(&self, event: &MessageEvent<'_>) -> (result: Result<bool, HandlerError>)
        ensures
            self.may_reply(event, reply_of(result)),
    ;
}

/// What a handler does, by the one kind of event that it is declared for.
pub enum ModuleEventProcess {
    GroupMessage(Box<dyn GroupMessageEventProcess>),
    PrivateMessage(Box<dyn PrivateMessageEventProcess>),
    TempMessage(Box<dyn TempMessageEventProcess>),
    GroupRequest(Box<dyn GroupRequestEventProcess>),
    FriendRequest(Box<dyn FriendRequestEventProcess>),
    NewFriend(Box<dyn NewFriendEventProcess>),
    FriendPoke(Box<dyn FriendPokeEventProcess>),
    DeleteFriend(Box<dyn DeleteFriendEventProcess>),
    GroupMute(Box<dyn GroupMuteEventProcess>),
    GroupLeave(Box<dyn GroupLeaveEventProcess>),
    GroupNameUpdate(Box<dyn GroupNameUpdateEventProcess>),
    GroupMessageRecall(Box<dyn GroupMessageRecallEventProcess>),
    FriendMessageRecall(Box<dyn FriendMessageRecallEventProcess>),
    Message(Box<dyn MessageEventProcess>),
}

/// A named handler.
pub struct ModuleEventHandler {
    pub name: String,
    pub process: ModuleEventProcess,
}

/// A module: an id, a name to show, and its handlers in the order in
/// which they are offered an event.
pub struct Module {
    pub id: String,
    pub name: String,
    pub handles: Vec<ModuleEventHandler>,
}

/// The router: the modules in the order in which they were registered.
pub struct ClientHandler {
    pub modules: Vec<Module>,
}

/// How a handler ended the walk.
#[derive(Clone, Debug, PartialEq, Eq)]
pub enum Claim {
    /// It dealt with the event.
    Handled,
    /// It failed on the event, for this reason.
    Failed(HandlerError),
}

/// Where a walk ended, and how.
#[derive(Clone, Debug, PartialEq, Eq)]
pub struct Claimed {
    /// The index of the module among the registered modules.
    pub module: usize,
    /// The index of the handler among the handlers of that module.
    pub handler: usize,
    pub claim: Claim,
}

/// The outcome of offering an event to the registry.
#[derive(Clone, Debug, PartialEq, Eq)]
pub enum DispatchOutcome {
    /// No handler was declared for the event, or all that were declined.
    Unhandled,
    /// The handler of this module id and name dealt with the event.
    Handled(String, String),
    /// The handler of this module id and name failed on the event.
    Errored(String, String),
}

impl Claim {
    /// The reply that made this claim.
    pub open spec fn reply(&self) -> HandlerReply {
        match self {
            Claim::Handled => HandlerReply::Handled,
            Claim::Failed(_) => HandlerReply::Failed,
        }
    }

    /// The claim that a handler's result makes, if it makes one.
    pub fn of(result: Result<bool, HandlerError>) -> (claim: Option<Claim>)
        ensures
            claim is None <==> reply_of(result) is Declined,
            claim matches Some(c) ==> c.reply() == reply_of(result),
            claim matches Some(Claim::Failed(error)) ==> result == Err::<bool, HandlerError>(error),
    {
        match result {
            Ok(false) => None,
            Ok(true) => Some(Claim::Handled),
            Err(error) => Some(Claim::Failed(error)),
        }
    }
}

impl View for DispatchOutcome {
    type V = OutcomeView;

    open spec fn view(&self) -> OutcomeView {
        match self {
            DispatchOutcome::Unhandled => OutcomeView::Unhandled,
            DispatchOutcome::Handled(module, handler) => OutcomeView::Handled(module@, handler@),
            DispatchOutcome::Errored(module, handler) => OutcomeView::Errored(module@, handler@),
        }
    }
}

impl ModuleEventProcess {
    /// The kind of event that the handler is declared for.
    pub open spec fn capability_spec(&self) -> EventKind {
        match self {
            ModuleEventProcess::GroupMessage(_) => EventKind::GroupMessage,
            ModuleEventProcess::PrivateMessage(_) => EventKind::PrivateMessage,
            ModuleEventProcess::TempMessage(_) => EventKind::TempMessage,
            ModuleEventProcess::GroupRequest(_) => EventKind::GroupRequest,
            ModuleEventProcess::FriendRequest(_) => EventKind::FriendRequest,
            ModuleEventProcess::NewFriend(_) => EventKind::NewFriend,
            ModuleEventProcess::FriendPoke(_) => EventKind::FriendPoke,
            ModuleEventProcess::DeleteFriend(_) => EventKind::DeleteFriend,
            ModuleEventProcess::GroupMute(_) => EventKind::GroupMute,
            ModuleEventProcess::GroupLeave(_) => EventKind::GroupLeave,
            ModuleEventProcess::GroupNameUpdate(_) => EventKind::GroupNameUpdate,
            ModuleEventProcess::GroupMessageRecall(_) => EventKind::GroupMessageRecall,
            ModuleEventProcess::FriendMessageRecall(_) => EventKind::FriendMessageRecall,
            ModuleEventProcess::Message(_) => EventKind::AnyMessage,
        }
    }

    #[verifier::when_used_as_spec(capability_spec)]
    pub fn capability(&self) -> (kind: EventKind)
        ensures
            kind == self.capability_spec(),
    {
        match self {
            ModuleEventProcess::GroupMessage(_) => EventKind::GroupMessage,
            ModuleEventProcess::PrivateMessage(_) => EventKind::PrivateMessage,
            ModuleEventProcess::TempMessage(_) => EventKind::TempMessage,
            ModuleEventProcess::GroupRequest(_) => EventKind::GroupRequest,
            ModuleEventProcess::FriendRequest(_) => EventKind::FriendRequest,
            ModuleEventProcess::NewFriend(_) => EventKind::NewFriend,
            ModuleEventProcess::FriendPoke(_) => EventKind::FriendPoke,
            ModuleEventProcess::DeleteFriend(_) => EventKind::DeleteFriend,
            ModuleEventProcess::GroupMute(_) => EventKind::GroupMute,
            ModuleEventProcess::GroupLeave(_) => EventKind::GroupLeave,
            ModuleEventProcess::GroupNameUpdate(_) => EventKind::GroupNameUpdate,
            ModuleEventProcess::GroupMessageRecall(_) => EventKind::GroupMessageRecall,
            ModuleEventProcess::FriendMessageRecall(_) => EventKind::FriendMessageRecall,
            ModuleEventProcess::Message(_) => EventKind::AnyMessage,
        }
    }

    /// Whether the handler can give `reply` to the event. It can give none
    /// to an event that it is not declared for.
    pub open spec fn may_reply(&self, e: &QEvent, reply: HandlerReply) -> bool {
        match self {
            ModuleEventProcess::GroupMessage(process) => match e {
                QEvent::GroupMessage(event) => process.may_reply(event, reply),
                _ => false,
            },
            ModuleEventProcess::PrivateMessage(process) => match e {
                QEvent::PrivateMessage(event) => process.may_reply(event, reply),
                _ => false,
            },
            ModuleEventProcess::TempMessage(process) => match e {
                QEvent::TempMessage(event) => process.may_reply(event, reply),
                _ => false,
            },
            ModuleEventProcess::GroupRequest(process) => match e {
                QEvent::GroupRequest(event) => process.may_reply(event, reply),
                _ => false,
            },
            ModuleEventProcess::FriendRequest(process) => match e {
                QEvent::FriendRequest(event) => process.may_reply(event, reply),
                _ => false,
            },
            ModuleEventProcess::NewFriend(process) => match e {
                QEvent::NewFriend(event) => process.may_reply(event, reply),
                _ => false,
            },
            ModuleEventProcess::FriendPoke(process) => match e {
                QEvent::FriendPoke(event) => process.may_reply(event, reply),
                _ => false,
            },
            ModuleEventProcess::DeleteFriend(process) => match e {
                QEvent::DeleteFriend(event) => process.may_reply(event, reply),
                _ => false,
            },
            ModuleEventProcess::GroupMute(process) => match e {
                QEvent::GroupMute(event) => process.may_reply(event, reply),
                _ => false,
            },
            ModuleEventProcess::GroupLeave(process) => match e {
                QEvent::GroupLeave(event) => process.may_reply(event, reply),
                _ => false,
            },
            ModuleEventProcess::GroupNameUpdate(process) => match e {
                QEvent::GroupNameUpdate(event) => process.may_reply(event, reply),
                _ => false,
            },
            ModuleEventProcess::GroupMessageRecall(process) => match e {
                QEvent::GroupMessageRecall(event) => process.may_reply(event, reply),
                _ => false,
            },
            ModuleEventProcess::FriendMessageRecall(process) => match e {
                QEvent::FriendMessageRecall(event) => process.may_reply(event, reply),
                _ => false,
            },
            ModuleEventProcess::Message(process) => match e {
                QEvent::GroupMessage(event) => process.may_reply(
                    &MessageEvent::GroupMessage(event),
                    reply,
                ),
                QEvent::PrivateMessage(event) => process.may_reply(
                    &MessageEvent::PrivateMessage(event),
                    reply,
                ),
                QEvent::TempMessage(event) => process.may_reply(
                    &MessageEvent::TempMessage(event),
                    reply,
                ),
                _ => false,
            },
        }
    }

    /// Offers the event to the handler: invokes it if it is declared for
    /// the event's kind, or for any message and the event is one, and
    /// leaves it alone otherwise.
    pub fn offer(&self, e: &QEvent) -> (result: Option<Result<bool, HandlerError>>)
        ensures
            result is Some <==> accepts(self.capability_spec(), e.kind_spec()),
            result matches Some(r) ==> self.may_reply(e, reply_of(r)),
    {
        match self {
            ModuleEventProcess::GroupMessage(process) => match e {
                QEvent::GroupMessage(event) => Some(process.handle(event)),
                _ => None,
            },
            ModuleEventProcess::PrivateMessage(process) => match e {
                QEvent::PrivateMessage(event) => Some(process.handle(event)),
                _ => None,
            },
            ModuleEventProcess::TempMessage(process) => match e {
                QEvent::TempMessage(event) => Some(process.handle(event)),
                _ => None,
            },
            ModuleEventProcess::GroupRequest(process) => match e {
                QEvent::GroupRequest(event) => Some(process.handle(event)),
                _ => None,
            },
            ModuleEventProcess::FriendRequest(process) => match e {
                QEvent::FriendRequest(event) => Some(process.handle(event)),
                _ => None,
            },
            ModuleEventProcess::NewFriend(process) => match e {
                QEvent::NewFriend(event) => Some(process.handle(event)),
                _ => None,
            },
            ModuleEventProcess::FriendPoke(process) => match e {
                QEvent::FriendPoke(event) => Some(process.handle(event)),
                _ => None,
            },
            ModuleEventProcess::DeleteFriend(process) => match e {
                QEvent::DeleteFriend(event) => Some(process.handle(event)),
                _ => None,
            },
            ModuleEventProcess::GroupMute(process) => match e {
                QEvent::GroupMute(event) => Some(process.handle(event)),
                _ => None,
            },
            ModuleEventProcess::GroupLeave(process) => match e {
                QEvent::GroupLeave(event) => Some(process.handle(event)),
                _ => None,
            },
            ModuleEventProcess::GroupNameUpdate(process) => match e {
                QEvent::GroupNameUpdate(event) => Some(process.handle(event)),
                _ => None,
            },
            ModuleEventProcess::GroupMessageRecall(process) => match e {
                QEvent::GroupMessageRecall(event) => Some(process.handle(event)),
                _ => None,
            },
            ModuleEventProcess::FriendMessageRecall(process) => match e {
                QEvent::FriendMessageRecall(event) => Some(process.handle(event)),
                _ => None,
            },
            ModuleEventProcess::Message(process) => match e {
                QEvent::GroupMessage(event) => {
                    let me = MessageEvent::GroupMessage(event);
                    Some(process.handle(&me))
                },
                QEvent::PrivateMessage(event) => {
                    let me = MessageEvent::PrivateMessage(event);
                    Some(process.handle(&me))
                },
                QEvent::TempMessage(event) => {
                    let me = MessageEvent::TempMessage(event);
                    Some(process.handle(&me))
                },
                _ => None,
            },
        }
    }
}

impl View for ModuleEventHandler {
    type V = HandlerView;

    open spec fn view(&self) -> HandlerView {
        HandlerView { name: self.name@, capability: self.process.capability_spec() }
    }
}

impl View for Module {
    type V = ModuleView;

    open spec fn view(&self) -> ModuleView {
        ModuleView {
            id: self.id@,
            name: self.name@,
            handles: Seq::new(self.handles@.len(), |j: int| self.handles@[j]@),
        }
    }
}

impl View for ClientHandler {
    type V = Seq<ModuleView>;

    open spec fn view(&self) -> Seq<ModuleView> {
        Seq::new(self.modules@.len(), |i: int| self.modules@[i]@)
    }
}

impl Module {
    /// Whether the module has a handler at `j` that the event is offered to.
    pub open spec fn offers_to(&self, e: &QEvent, j: int) -> bool {
        0 <= j < self.handles@.len() && accepts(
            self.handles@[j].process.capability_spec(),
            e.kind_spec(),
        )
    }

    /// Whether the handler at `j` can give `reply` to the event.
    pub open spec fn may_reply_at(&self, e: &QEvent, j: int, reply: HandlerReply) -> bool {
        self.handles@[j].process.may_reply(e, reply)
    }

    /// Whether the handlers before `j` can all let the event pass: each
    /// that the event is offered to can decline it.
    pub open spec fn may_pass(&self, e: &QEvent, j: int) -> bool {
        forall|b: int|
            self.offers_to(e, b) && b < j ==> #[trigger] self.may_reply_at(
                e,
                b,
                HandlerReply::Declined,
            )
    }

    /// Offers the event to the module's handlers in order, up to the first
    /// that does not decline. Returns that handler's index and its claim,
    /// or nothing if there was none.
    pub fn offer(&self, e: &QEvent) -> (result: Option<(usize, Claim)>)
        ensures
            result is None ==> self.may_pass(e, self.handles@.len() as int),
            result matches Some((j, claim)) ==> {
                &&& self.offers_to(e, j as int)
                &&& self.may_reply_at(e, j as int, claim.reply())
                &&& self.may_pass(e, j as int)
            },
    {
        let mut j: usize = 0;
        while j < self.handles.len()
            invariant
                j <= self.handles@.len(),
                self.may_pass(e, j as int),
            decreases self.handles@.len() - j,
        {
            match self.handles[j].process.offer(e) {
                Some(result) => {
                    match Claim::of(result) {
                        Some(claim) => {
                            return Some((j, claim));
                        },
                        None => {},
                    }
                },
                None => {},
            }
            j += 1;
        }
        None
    }
}

impl ClientHandler {
    /// A router over the modules, which are offered events in this order.
    pub fn new(modules: Vec<Module>) -> (handler: ClientHandler)
        ensures
            handler.modules == modules,
    {
        ClientHandler { modules }
    }

    /// Whether the registry has a handler at `(i, j)` that the event is
    /// offered to.
    pub open spec fn offers_to(&self, e: &QEvent, i: int, j: int) -> bool {
        0 <= i < self.modules@.len() && self.modules@[i].offers_to(e, j)
    }

    /// Whether the handler at `(i, j)` can give `reply` to the event.
    pub open spec fn may_reply_at(&self, e: &QEvent, i: int, j: int, reply: HandlerReply) -> bool {
        self.modules@[i].may_reply_at(e, j, reply)
    }

    /// Whether the handlers before `(i, j)` can all let the event pass:
    /// each that the event is offered to can decline it.
    pub open spec fn may_pass(&self, e: &QEvent, i: int, j: int) -> bool {
        forall|a: int, b: int|
            self.offers_to(e, a, b) && precedes(a, b, i, j) ==> #[trigger] self.may_reply_at(
                e,
                a,
                b,
                HandlerReply::Declined,
            )
    }

    /// Whether the walk can end at `(i, j)` with `reply`: the event is
    /// offered to the handler there, `reply` is one that it can give and
    /// is no decline, and every handler before it can let the event pass.
    pub open spec fn may_claim(&self, e: &QEvent, i: int, j: int, reply: HandlerReply) -> bool {
        &&& self.offers_to(e, i, j)
        &&& !(reply is Declined)
        &&& self.may_reply_at(e, i, j, reply)
        &&& self.may_pass(e, i, j)
    }

    /// Whether `walk` is a way in which the walk for the event can end.
    pub open spec fn explains(&self, e: &QEvent, walk: Option<Claimed>) -> bool {
        match walk {
            None => self.may_pass(e, self.modules@.len() as int, 0),
            Some(c) => self.may_claim(e, c.module as int, c.handler as int, c.claim.reply()),
        }
    }

    /// The module id and the handler name at `(i, j)`.
    pub open spec fn names_at(&self, i: int, j: int) -> (Seq<char>, Seq<char>) {
        (self.modules@[i].id@, self.modules@[i].handles@[j].name@)
    }

    /// Whether `out` is an outcome that the walk for the event can have.
    pub open spec fn explains_outcome(&self, e: &QEvent, out: OutcomeView) -> bool {
        match out {
            OutcomeView::Unhandled => self.may_pass(e, self.modules@.len() as int, 0),
            OutcomeView::Handled(module, handler) => exists|i: int, j: int|
                self.may_claim(e, i, j, HandlerReply::Handled) && #[trigger] self.names_at(i, j)
                    == (module, handler),
            OutcomeView::Errored(module, handler) => exists|i: int, j: int|
                self.may_claim(e, i, j, HandlerReply::Failed) && #[trigger] self.names_at(i, j)
                    == (module, handler),
        }
    }

    /// Walks the registry for the event: modules in the order of their
    /// registration, the handlers of each in theirs, invoking those that
    /// are declared for the event's kind or, for a message, for any
    /// message. The first handler that does not decline ends the walk.
    /// Returns where the walk ended and how, or nothing if every handler
    /// invoked declined.
    pub fn route(&self, e: &QEvent) -> (walk: Option<Claimed>)
        ensures
            self.explains(e, walk),
            (forall|i: int, j: int| !self.offers_to(e, i, j)) ==> walk is None,
    {
        let mut i: usize = 0;
        while i < self.modules.len()
            invariant
                i <= self.modules@.len(),
                self.may_pass(e, i as int, 0),
            decreases self.modules@.len() - i,
        {
            match self.modules[i].offer(e) {
                Some((j, claim)) => {
                    return Some(Claimed { module: i, handler: j, claim });
                },
                None => {},
            }
            i += 1;
        }
        None
    }

    /// The outcome that a walk's end stands for: the module id and the
    /// handler name at the position where it ended.
    fn outcome_of(&self, walk: &Option<Claimed>) -> (out: DispatchOutcome)
        requires
            walk matches Some(c) ==> c.module < self.modules@.len() && c.handler
                < self.modules@[c.module as int].handles@.len(),
        ensures
            out@ == match walk {
                None => OutcomeView::Unhandled,
                Some(c) => outcome_at(self@, c.module as int, c.handler as int, c.claim.reply()),
            },
    {
        match walk {
            None => DispatchOutcome::Unhandled,
            Some(c) => {
                let module = &self.modules[c.module];
                let id = module.id.clone();
                let name = module.handles[c.handler].name.clone();
                match c.claim {
                    Claim::Handled => DispatchOutcome::Handled(id, name),
                    Claim::Failed(_) => DispatchOutcome::Errored(id, name),
                }
            },
        }
    }

    /// Dispatches the event: walks the registry for it and tells who, if
    /// anyone, dealt with it or failed on it. A handler's failure ends
    /// the walk like a success and goes no further than the outcome.
    pub fn handle(&self, e: &QEvent) -> (out: DispatchOutcome)
        ensures
            self.explains_outcome(e, out@),
            (forall|i: int, j: int| !self.offers_to(e, i, j)) ==> out@ is Unhandled,
    {
        let walk = self.route(e);
        let out = self.outcome_of(&walk);
        proof {
            if let Some(c) = walk {
                assert(self.names_at(c.module as int, c.handler as int) == (
                    self@[c.module as int].id,
                    self@[c.module as int].handles[c.handler as int].name,
                ));
            }
        }
        out
    }

    /// Whether each handler that the event is offered to can give the
    /// reply that `replies` has for its position, and no other.
    pub open spec fn bound_to(&self, e: &QEvent, replies: spec_fn(int, int) -> HandlerReply)
        -> bool {
        forall|i: int, j: int, reply: HandlerReply|
            self.offers_to(e, i, j) && #[trigger] self.may_reply_at(e, i, j, reply) ==> reply
                == replies(i, j)
    }
}

/// The registry as the walk sees it has a handler for the event exactly
/// where the registry itself offers the event.
proof fn lemma_offers_as_viewed(handler: ClientHandler, e: QEvent, i: int, j: int)
    ensures
        handler.offers_to(&e, i, j) <==> matches_at(handler@, e.kind_spec(), i, j),
{
}

/// Where the replies of the handlers are settled, so is the walk: it ends
/// at the first handler, in registration order, that the event is offered
/// to and that does not decline, with that handler's reply; and it ends
/// nowhere exactly if there is no such handler.
pub proof fn law_walk_follows_replies(
    handler: ClientHandler,
    e: QEvent,
    replies: spec_fn(int, int) -> HandlerReply,
    walk: Option<Claimed>,
)
    requires
        handler.bound_to(&e, replies),
        handler.explains(&e, walk),
    ensures
        walk matches Some(c) ==> claimed(
            handler@,
            e.kind_spec(),
            replies,
            c.module as int,
            c.handler as int,
        ) && replies(c.module as int, c.handler as int) == c.claim.reply(),
        walk is None ==> outcome(handler@, e.kind_spec(), replies) is Unhandled,
{
    let kind = e.kind_spec();
    match walk {
        Some(c) => {
            lemma_claim_as_viewed(handler, e, replies, c.module as int, c.handler as int, c.claim.reply());
        },
        None => {
            assert forall|a: int, b: int| #[trigger]
                matches_at(handler@, kind, a, b) implies replies(a, b) is Declined by {
                lemma_offers_as_viewed(handler, e, a, b);
                assert(precedes(a, b, handler.modules@.len() as int, 0));
                assert(handler.may_reply_at(&e, a, b, HandlerReply::Declined));
            }
            law_unhandled(handler@, kind, replies);
        },
    }
}

/// A claim that the registry can make, under settled replies, is the
/// claim of the walk.
proof fn lemma_claim_as_viewed(
    handler: ClientHandler,
    e: QEvent,
    replies: spec_fn(int, int) -> HandlerReply,
    i: int,
    j: int,
    reply: HandlerReply,
)
    requires
        handler.bound_to(&e, replies),
        handler.may_claim(&e, i, j, reply),
    ensures
        claimed(handler@, e.kind_spec(), replies, i, j),
        replies(i, j) == reply,
{
    let kind = e.kind_spec();
    lemma_offers_as_viewed(handler, e, i, j);
    assert forall|a: int, b: int| #[trigger]
        matches_at(handler@, kind, a, b) && precedes(a, b, i, j) implies replies(a, b)
        is Declined by {
        lemma_offers_as_viewed(handler, e, a, b);
        assert(handler.may_reply_at(&e, a, b, HandlerReply::Declined));
    }
}

/// Where the replies of the handlers are settled, the outcome of
/// dispatching the event is the outcome of the walk under those replies.
pub proof fn law_outcome_follows_replies(
    handler: ClientHandler,
    e: QEvent,
    replies: spec_fn(int, int) -> HandlerReply,
    out: OutcomeView,
)
    requires
        handler.bound_to(&e, replies),
        handler.explains_outcome(&e, out),
    ensures
        out == outcome(handler@, e.kind_spec(), replies),
{
    let kind = e.kind_spec();
    match out {
        OutcomeView::Unhandled => {
            law_walk_follows_replies(handler, e, replies, None);
        },
        OutcomeView::Handled(module, name) => {
            let (i, j) = choose|i: int, j: int|
                handler.may_claim(&e, i, j, HandlerReply::Handled) && #[trigger] handler.names_at(
                    i,
                    j,
                ) == (module, name);
            lemma_claim_as_viewed(handler, e, replies, i, j, HandlerReply::Handled);
            law_outcome_of_claim(handler@, kind, replies, i, j);
        },
        OutcomeView::Errored(module, name) => {
            let (i, j) = choose|i: int, j: int|
                handler.may_claim(&e, i, j, HandlerReply::Failed) && #[trigger] handler.names_at(
                    i,
                    j,
                ) == (module, name);
            lemma_claim_as_viewed(handler, e, replies, i, j, HandlerReply::Failed);
            law_outcome_of_claim(handler@, kind, replies, i, j);
        },
    }
}

} // verus!
