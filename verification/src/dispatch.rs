//! The menu-action dispatcher.
//!
//! In the menu-mode variant each drop-down entry carries a handler
//! identifier, bound once at menu-construction time. On selection the
//! toolkit hands the identifier back; [`ActionDispatcher::dispatch`] looks up
//! the registered handler and produces its outcome: exactly one notification
//! — whose title is the action's declared title — and the action's effect.
//! The binding layer posts the notification (best-effort; delivery may be
//! silently dropped) and performs the effect.

use vstd::prelude::*;

verus! {

/// One drop-down menu entry, bound to a handler by its identifier.
pub struct MenuAction {
    /// The action's declared, user-visible title.
    pub title: String,
    /// Name of the system glyph shown beside the title.
    pub icon_symbol: String,
    /// The key equivalent offered for the entry ("q" for quit), empty for
    /// none.
    pub key_equivalent: String,
    /// Identifier under which the handler is registered.
    pub handler_id: u64,
}

/// The ghost counterpart of [`MenuAction`].
pub ghost struct MenuActionModel {
    pub title: Seq<char>,
    pub icon_symbol: Seq<char>,
    pub key_equivalent: Seq<char>,
    pub handler_id: u64,
}

impl View for MenuAction {
    type V = MenuActionModel;

    open spec fn view(&self) -> MenuActionModel {
        MenuActionModel {
            title: self.title@,
            icon_symbol: self.icon_symbol@,
            key_equivalent: self.key_equivalent@,
            handler_id: self.handler_id,
        }
    }
}

/// The side effect a handler performs, named so the binding layer can carry
/// it out against the host toolkit.
#[derive(Clone, Copy, PartialEq, Eq, Structural, Debug)]
pub enum ActionEffect {
    /// Terminate the process through the toolkit's termination entry point.
    TerminateProcess,
    /// Nothing beyond the notification.
    NoOp,
}

/// A user-visible notification: a title and a message, submitted fire-and-
/// forget to the notification subsystem.
pub struct Notification {
    pub title: String,
    pub message: String,
}

/// The ghost counterpart of [`Notification`].
pub ghost struct NotificationModel {
    pub title: Seq<char>,
    pub message: Seq<char>,
}

impl View for Notification {
    type V = NotificationModel;

    open spec fn view(&self) -> NotificationModel {
        NotificationModel { title: self.title@, message: self.message@ }
    }
}

/// One registered handler: the menu action it is bound to, the message of
/// the single notification it emits, and its effect.
pub struct ActionHandler {
    pub action: MenuAction,
    pub message: String,
    pub effect: ActionEffect,
}

/// The ghost counterpart of [`ActionHandler`].
pub ghost struct ActionHandlerModel {
    pub action: MenuActionModel,
    pub message: Seq<char>,
    pub effect: ActionEffect,
}

impl View for ActionHandler {
    type V = ActionHandlerModel;

    open spec fn view(&self) -> ActionHandlerModel {
        ActionHandlerModel { action: self.action@, message: self.message@, effect: self.effect }
    }
}

/// What one dispatch produces: the single notification to post and the
/// effect to perform.
pub struct DispatchOutcome {
    pub notification: Notification,
    pub effect: ActionEffect,
}

/// The ghost counterpart of [`DispatchOutcome`].
pub ghost struct DispatchOutcomeModel {
    pub notification: NotificationModel,
    pub effect: ActionEffect,
}

impl View for DispatchOutcome {
    type V = DispatchOutcomeModel;

    open spec fn view(&self) -> DispatchOutcomeModel {
        DispatchOutcomeModel { notification: self.notification@, effect: self.effect }
    }
}

/// The outcome a handler produces when invoked: one notification, titled
/// with the action's declared title and carrying the handler's message, and
/// the handler's effect.
pub open spec fn spec_outcome(h: ActionHandlerModel) -> DispatchOutcomeModel {
    DispatchOutcomeModel {
        notification: NotificationModel { title: h.action.title, message: h.message },
        effect: h.effect,
    }
}

/// The first handler registered under `id`, if any.
pub open spec fn spec_find(entries: Seq<ActionHandlerModel>, id: u64) -> Option<ActionHandlerModel>
    decreases entries.len(),
{
    if entries.len() == 0 {
        None
    } else if entries[0].action.handler_id == id {
        Some(entries[0])
    } else {
        spec_find(entries.drop_first(), id)
    }
}

/// Maps handler identifiers to registered handlers. Identifiers are unique,
/// so a dispatch reaches exactly the handler its menu entry was bound to.
pub struct ActionDispatcher {
    entries: Vec<ActionHandler>,
}

impl View for ActionDispatcher {
    type V = Seq<ActionHandlerModel>;

    closed spec fn view(&self) -> Seq<ActionHandlerModel> {
        self.entries@.map(|i: int, h: ActionHandler| h@)
    }
}

impl ActionDispatcher {
    /// No two registered handlers share an identifier.
    pub open spec fn wf(&self) -> bool {
        forall|i: int, j: int|
            0 <= i < j < self@.len() ==> self@[i].action.handler_id != self@[j].action.handler_id
    }

    /// An empty registry.
    pub fn new() -> (d: ActionDispatcher)
        ensures
            d.wf(),
            d@ == Seq::<ActionHandlerModel>::empty(),
    {
        let d = ActionDispatcher { entries: Vec::new() };
        proof {
            assert(d@ =~= Seq::<ActionHandlerModel>::empty());
        }
        d
    }

    /// Registers a handler. Succeeds — appending the handler — exactly when
    /// no handler is yet registered under the same identifier; otherwise the
    /// registry is unchanged.
    pub fn register(&mut self, h: ActionHandler) -> (ok: bool)
        requires
            old(self).wf(),
        ensures
            final(self).wf(),
            ok == (spec_find(old(self)@, h@.action.handler_id) is None),
            ok ==> final(self)@ == old(self)@.push(h@),
            !ok ==> final(self)@ == old(self)@,
    {
        let taken = self.lookup_index(h.action.handler_id);
        match taken {
            Some(_) => false,
            None => {
                let ghost pre = self@;
                self.entries.push(h);
                proof {
                    assert(self@ =~= pre.push(h@));
                    lemma_find_none_of_distinct_push(pre, h@);
                }
                true
            },
        }
    }

    /// The position of the handler registered under `id`, if any.
    fn lookup_index(&self, id: u64) -> (r: Option<usize>)
        ensures
            match r {
                Some(i) => i < self@.len() && self@[i as int].action.handler_id == id
                    && spec_find(self@, id) == Some(self@[i as int]),
                None => spec_find(self@, id) is None,
            },
    {
        let mut i: usize = 0;
        proof {
            assert(self@.skip(0) =~= self@);
        }
        while i < self.entries.len()
            invariant
                i <= self@.len(),
                self@.len() == self.entries@.len(),
                spec_find(self@, id) == spec_find(self@.skip(i as int), id),
                forall|k: int| 0 <= k < i ==> self@[k].action.handler_id != id,
            decreases self@.len() - i,
        {
            proof {
                assert(self@.skip(i as int)[0] == self@[i as int]);
                assert(self@.skip(i as int).drop_first() =~= self@.skip(i as int + 1));
            }
            if self.entries[i].action.handler_id == id {
                return Some(i);
            }
            i = i + 1;
        }
        proof {
            assert(self@.skip(i as int).len() == 0);
        }
        None
    }

    /// Looks up the handler bound to `id` and, when one is registered,
    /// produces its outcome: exactly one notification, titled with the
    /// action's declared title, plus the handler's effect. Returns `None`
    /// exactly when no handler is registered under `id`.
    pub fn dispatch(&self, handler_id: u64) -> (r: Option<DispatchOutcome>)
        ensures
            match r {
                Some(outcome) => spec_find(self@, handler_id) is Some && outcome@ == spec_outcome(
                    spec_find(self@, handler_id).unwrap(),
                ),
                None => spec_find(self@, handler_id) is None,
            },
    {
        match self.lookup_index(handler_id) {
            None => None,
            Some(i) => {
                let h = &self.entries[i];
                Some(
                    DispatchOutcome {
                        notification: Notification {
                            title: String::from_str(h.action.title.as_str()),
                            message: String::from_str(h.message.as_str()),
                        },
                        effect: h.effect,
                    },
                )
            },
        }
    }
}

/// Pushing a handler whose identifier is not yet registered keeps the
/// identifiers pairwise distinct.
proof fn lemma_find_none_of_distinct_push(entries: Seq<ActionHandlerModel>, h: ActionHandlerModel)
    requires
        spec_find(entries, h.action.handler_id) is None,
    ensures
        forall|k: int|
            0 <= k < entries.len() ==> entries[k].action.handler_id != h.action.handler_id,
    decreases entries.len(),
{
    if entries.len() > 0 {
        lemma_find_none_of_distinct_push(entries.drop_first(), h);
        assert forall|k: int|
            0 <= k < entries.len() implies entries[k].action.handler_id
            != h.action.handler_id by {
            if k > 0 {
                assert(entries.drop_first()[k - 1] == entries[k]);
            }
        }
    }
}

/// `spec_find` at a registered handler's identifier yields that handler,
/// when identifiers are pairwise distinct.
proof fn lemma_find_hits_registered(entries: Seq<ActionHandlerModel>, i: int)
    requires
        0 <= i < entries.len(),
        forall|p: int, q: int|
            0 <= p < q < entries.len() ==> entries[p].action.handler_id
                != entries[q].action.handler_id,
    ensures
        spec_find(entries, entries[i].action.handler_id) == Some(entries[i]),
    decreases entries.len(),
{
    if i > 0 {
        assert(entries[0].action.handler_id != entries[i].action.handler_id);
        assert forall|p: int, q: int|
            0 <= p < q < entries.drop_first().len() implies entries.drop_first()[p].action.handler_id
            != entries.drop_first()[q].action.handler_id by {
            assert(entries.drop_first()[p] == entries[p + 1]);
            assert(entries.drop_first()[q] == entries[q + 1]);
        }
        lemma_find_hits_registered(entries.drop_first(), i - 1);
        assert(entries.drop_first()[i - 1] == entries[i]);
    }
}

/// Law: dispatch covers every registered handler — invoking any registered
/// handler's identifier finds that very handler and emits exactly one
/// notification, whose title equals the action's declared title.
pub proof fn lemma_dispatch_coverage(d: ActionDispatcher, i: int)
    requires
        d.wf(),
        0 <= i < d@.len(),
    ensures
        spec_find(d@, d@[i].action.handler_id) == Some(d@[i]),
        spec_outcome(d@[i]).notification.title == d@[i].action.title,
{
    lemma_find_hits_registered(d@, i);
}

} // verus!
