use status_popover::dispatch::{ActionDispatcher, ActionEffect, ActionHandler, MenuAction};
use status_popover::host::quit_handler;

fn handler(title: &str, id: u64, effect: ActionEffect) -> ActionHandler {
    ActionHandler {
        action: MenuAction {
            title: String::from(title),
            icon_symbol: String::from("gear"),
            key_equivalent: String::new(),
            handler_id: id,
        },
        message: String::from("done"),
        effect,
    }
}

#[test]
fn dispatch_emits_one_notification_titled_like_action() {
    // Every registered handler, when invoked, emits exactly one notification
    // whose title equals the action's declared name.
    let mut d = ActionDispatcher::new();
    assert!(d.register(handler("Rescan", 7, ActionEffect::NoOp)));
    assert!(d.register(quit_handler(8)));
    let outcome = d.dispatch(7).expect("registered handler");
    assert_eq!(outcome.notification.title, "Rescan");
    assert_eq!(outcome.notification.message, "done");
    assert_eq!(outcome.effect, ActionEffect::NoOp);
    let quit = d.dispatch(8).expect("registered handler");
    assert_eq!(quit.notification.title, "Quit");
    assert_eq!(quit.notification.message, "Exiting now");
    assert_eq!(quit.effect, ActionEffect::TerminateProcess);
}

#[test]
fn dispatch_unknown_id_is_none() {
    let mut d = ActionDispatcher::new();
    assert!(d.dispatch(1).is_none());
    assert!(d.register(handler("Rescan", 1, ActionEffect::NoOp)));
    assert!(d.dispatch(2).is_none());
}

#[test]
fn register_duplicate_id_rejected() {
    let mut d = ActionDispatcher::new();
    assert!(d.register(handler("First", 3, ActionEffect::NoOp)));
    assert!(!d.register(handler("Second", 3, ActionEffect::TerminateProcess)));
    // The original binding is untouched.
    let outcome = d.dispatch(3).expect("registered handler");
    assert_eq!(outcome.notification.title, "First");
    assert_eq!(outcome.effect, ActionEffect::NoOp);
}

#[test]
fn quit_handler_shape() {
    let h = quit_handler(11);
    assert_eq!(h.action.title, "Quit");
    assert_eq!(h.action.icon_symbol, "power");
    assert_eq!(h.action.key_equivalent, "q");
    assert_eq!(h.action.handler_id, 11);
    assert_eq!(h.effect, ActionEffect::TerminateProcess);
}
