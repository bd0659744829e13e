use status_popover::dispatch::MenuAction;
use status_popover::host::{startup_plan, ItemBinding, StatusItemConfig, CONTENT_HEIGHT, CONTENT_WIDTH};

#[test]
fn startup_plan_values() {
    let plan = startup_plan();
    assert_eq!(plan.item.icon_symbol, "shield.fill");
    assert!(matches!(plan.item.binding, ItemBinding::ClickBinding));
    assert_eq!(CONTENT_WIDTH, 420);
    assert_eq!(CONTENT_HEIGHT, 400);
    assert_eq!((plan.content.frame.w, plan.content.frame.h), (420, 400));
    assert_eq!(plan.content.list.rows.len(), 4);
    assert_eq!(plan.content.header.text, "Security Status");
}

#[test]
fn created_item_is_unbound() {
    let c = StatusItemConfig::create(String::from("shield.fill"));
    assert_eq!(c.icon_symbol, "shield.fill");
    assert!(matches!(c.binding, ItemBinding::Unbound));
}

#[test]
fn attach_menu_installs_entries() {
    let mut c = StatusItemConfig::create(String::from("shield.fill"));
    let actions = vec![MenuAction {
        title: String::from("Quit"),
        icon_symbol: String::from("power"),
        key_equivalent: String::from("q"),
        handler_id: 1,
    }];
    c.attach_menu(actions);
    match &c.binding {
        ItemBinding::MenuBinding(entries) => {
            assert_eq!(entries.len(), 1);
            assert_eq!(entries[0].title, "Quit");
            assert_eq!(entries[0].handler_id, 1);
        }
        _ => panic!("menu binding expected"),
    }
}

#[test]
fn attach_click_installs_click_binding() {
    let mut c = StatusItemConfig::create(String::from("shield.fill"));
    c.attach_click_handler();
    assert!(matches!(c.binding, ItemBinding::ClickBinding));
}
