//! Status-item configuration and the startup plan.
//!
//! A status indicator is registered once with the host shell and carries
//! either a drop-down menu of actions or a single click handler — never
//! both. [`StatusItemConfig`] captures that choice as data: the binding
//! layer registers the indicator, installs the icon, and wires whichever
//! binding the configuration names. [`startup_plan`] computes everything the
//! popover variant installs at startup: the indicator's configuration and the
//! popover's content tree, built once from the placeholder rows.

use vstd::prelude::*;

use crate::dispatch::{ActionEffect, ActionHandler, MenuAction, MenuActionModel};
use crate::layout::{build_view_tree, spec_view_tree, TreeModel, ViewTree};
use crate::rows::{default_rows, spec_default_rows};

verus! {

/// Width of the popover's content area.
pub const CONTENT_WIDTH: i64 = 420;

/// Height of the popover's content area.
pub const CONTENT_HEIGHT: i64 = 400;

/// What a status item's interaction is bound to. The binding is one of the
/// two, or not yet chosen — a menu and a click handler are mutually
/// exclusive by construction.
pub enum ItemBinding {
    /// Nothing installed yet.
    Unbound,
    /// A drop-down menu of actions, each entry pre-bound to a dispatcher
    /// handler.
    MenuBinding(Vec<MenuAction>),
    /// A single click handler that drives the toggle coordinator.
    ClickBinding,
}

/// The ghost counterpart of [`ItemBinding`].
pub ghost enum ItemBindingModel {
    Unbound,
    MenuBinding(Seq<MenuActionModel>),
    ClickBinding,
}

impl View for ItemBinding {
    type V = ItemBindingModel;

    open spec fn view(&self) -> ItemBindingModel {
        match self {
            ItemBinding::Unbound => ItemBindingModel::Unbound,
            ItemBinding::MenuBinding(actions) => ItemBindingModel::MenuBinding(
                actions@.map(|i: int, a: MenuAction| a@),
            ),
            ItemBinding::ClickBinding => ItemBindingModel::ClickBinding,
        }
    }
}

/// One status indicator's configuration: its icon and its binding. Exactly
/// one such indicator is registered per process.
pub struct StatusItemConfig {
    /// Name of the system glyph shown in the menu bar.
    pub icon_symbol: String,
    /// What interaction with the indicator is bound to.
    pub binding: ItemBinding,
}

/// The ghost counterpart of [`StatusItemConfig`].
pub ghost struct StatusItemModel {
    pub icon_symbol: Seq<char>,
    pub binding: ItemBindingModel,
}

impl View for StatusItemConfig {
    type V = StatusItemModel;

    open spec fn view(&self) -> StatusItemModel {
        StatusItemModel { icon_symbol: self.icon_symbol@, binding: self.binding@ }
    }
}

impl StatusItemConfig {
    /// Registers a status indicator showing the given glyph, with nothing
    /// bound yet.
    pub fn create(icon_symbol: String) -> (c: StatusItemConfig)
        ensures
            c@.icon_symbol == icon_symbol@,
            c@.binding is Unbound,
    {
        StatusItemConfig { icon_symbol, binding: ItemBinding::Unbound }
    }

    /// Installs a drop-down menu. Mutually exclusive with a click handler:
    /// only an unbound item takes a menu.
    pub fn attach_menu(&mut self, actions: Vec<MenuAction>)
        requires
            old(self)@.binding is Unbound,
        ensures
            final(self)@.icon_symbol == old(self)@.icon_symbol,
            final(self)@.binding == ItemBindingModel::MenuBinding(
                actions@.map(|i: int, a: MenuAction| a@),
            ),
    {
        self.binding = ItemBinding::MenuBinding(actions);
    }

    /// Installs the single click binding that drives the toggle coordinator.
    /// Mutually exclusive with a menu: only an unbound item takes it.
    pub fn attach_click_handler(&mut self)
        requires
            old(self)@.binding is Unbound,
        ensures
            final(self)@.icon_symbol == old(self)@.icon_symbol,
            final(self)@.binding is ClickBinding,
    {
        self.binding = ItemBinding::ClickBinding;
    }
}

/// Everything the popover variant installs at startup: the status item's
/// configuration and the popover's content tree, built once.
pub struct StartupPlan {
    pub item: StatusItemConfig,
    pub content: ViewTree,
}

/// The tree the startup plan installs: the default content area filled with
/// the placeholder rows.
pub open spec fn spec_startup_tree() -> TreeModel {
    spec_view_tree(CONTENT_WIDTH as int, CONTENT_HEIGHT as int, spec_default_rows())
}

/// Computes the startup plan of the popover variant: a shield glyph in the
/// menu bar, interaction bound to the single click handler, and the content
/// tree built from the placeholder rows.
pub fn startup_plan() -> (p: StartupPlan)
    ensures
        p.item@.icon_symbol == "shield.fill"@,
        p.item@.binding is ClickBinding,
        p.content@ == spec_startup_tree(),
{
    let mut item = StatusItemConfig::create(String::from_str("shield.fill"));
    item.attach_click_handler();
    let rows = default_rows();
    let content = build_view_tree(CONTENT_WIDTH, CONTENT_HEIGHT, &rows);
    StartupPlan { item, content }
}

/// The handler behind the "Quit" menu entry of the menu-mode variant: it
/// notifies under the action's own title and terminates the process.
pub fn quit_handler(handler_id: u64) -> (h: ActionHandler)
    ensures
        h@.action.title == "Quit"@,
        h@.action.icon_symbol == "power"@,
        h@.action.key_equivalent == "q"@,
        h@.action.handler_id == handler_id,
        h@.message == "Exiting now"@,
        h@.effect == ActionEffect::TerminateProcess,
{
    ActionHandler {
        action: MenuAction {
            title: String::from_str("Quit"),
            icon_symbol: String::from_str("power"),
            key_equivalent: String::from_str("q"),
            handler_id,
        },
        message: String::from_str("Exiting now"),
        effect: ActionEffect::TerminateProcess,
    }
}

} // verus!
