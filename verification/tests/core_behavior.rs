use systray::app::Application;
use systray::callback::Callback;
use systray::callback::NamedCallback;
use systray::window::Window;
use systray::SystrayError;
use systray::SystrayEvent;

#[test]
fn quit_callback_scenario() {
    let mut app = Application::new().unwrap();
    let idx = app
        .add_menu_item(&"Quit".to_string(), Callback::Quit)
        .unwrap();
    assert_eq!(idx, 0);
    assert!(!app.is_quit_requested());
    app.post_event(SystrayEvent { menu_index: 0 });
    app.wait_for_message();
    assert!(app.is_quit_requested());
}

#[test]
fn indices_strictly_increase_across_removals() {
    let mut app = Application::new().unwrap();
    let a = app.add_menu_item(&"A".to_string(), Callback::Nop).unwrap();
    let sep = app.add_menu_separator().unwrap();
    let b = app.add_menu_item(&"B".to_string(), Callback::Nop).unwrap();
    assert_eq!(a, 0);
    assert_eq!(sep, 1);
    assert_eq!(b, 2);
    assert!(app.remove_menu_item(&"A".to_string()).is_ok());
    let c = app.add_menu_item(&"C".to_string(), Callback::Nop).unwrap();
    assert_eq!(c, 3);
    assert_eq!(app.next_menu_index(), 4);
}

#[test]
fn remove_menu_item_is_idempotent() {
    let mut app = Application::new().unwrap();
    app.add_menu_item(&"A".to_string(), Callback::Nop).unwrap();
    assert!(app.remove_menu_item(&"A".to_string()).is_ok());
    assert!(app.remove_menu_item(&"A".to_string()).is_ok());
    assert!(app.menu_index_of(&"A".to_string()).is_none());
}

#[test]
fn removing_never_frees_an_index() {
    let mut app = Application::new().unwrap();
    let first = app.add_menu_item(&"A".to_string(), Callback::Nop).unwrap();
    assert_eq!(first, 0);
    assert!(app.remove_menu_item(&"A".to_string()).is_ok());
    let second = app.add_menu_item(&"A".to_string(), Callback::Nop).unwrap();
    assert_eq!(second, 1);
    assert!(second > first);
}

#[test]
fn callback_may_add_items_reentrantly() {
    let mut app = Application::new().unwrap();
    let outer = app
        .add_menu_item(
            &"Outer".to_string(),
            Callback::AddItem(
                "Inner".to_string(),
                Box::new(Callback::SetTooltip("inner ran".to_string())),
            ),
        )
        .unwrap();
    assert_eq!(outer, 0);
    // First event runs the outer callback, which registers "Inner" at
    // index 1; the second event dispatches the new entry.
    app.post_event(SystrayEvent { menu_index: 0 });
    app.post_event(SystrayEvent { menu_index: 1 });
    app.wait_for_message();
    assert_eq!(app.menu_index_of(&"Inner".to_string()), Some(1));
    assert!(app.has_callback(0));
    assert!(app.has_callback(1));
    assert_eq!(app.current_tooltip().unwrap().as_str(), "inner ran");
}

#[test]
fn event_without_callback_is_a_no_op() {
    let mut app = Application::new().unwrap();
    let a = app.add_menu_item(&"A".to_string(), Callback::Nop).unwrap();
    let sep = app.add_menu_separator().unwrap();
    assert_eq!((a, sep), (0, 1));
    app.post_event(SystrayEvent { menu_index: 1 });
    app.wait_for_message();
    assert!(app.has_callback(0));
    assert!(!app.has_callback(1));
    assert_eq!(app.menu_index_of(&"A".to_string()), Some(0));
    assert_eq!(app.next_menu_index(), 2);
    assert!(app.is_quit_requested());
    assert!(app.current_tooltip().is_none());
}

#[test]
fn named_dispatch_reports_the_clicked_entry() {
    let mut app = Application::new().unwrap();
    let a = app.add_menu_item(&"A".to_string(), Callback::Nop).unwrap();
    let b = app.add_menu_item(&"B".to_string(), Callback::Nop).unwrap();
    assert_eq!((a, b), (0, 1));
    app.post_event(SystrayEvent { menu_index: 1 });
    app.wait_for_message_callback(&NamedCallback::SetTooltipToName);
    assert_eq!(app.current_tooltip().unwrap().as_str(), "B");
}

#[test]
fn named_dispatch_skips_entries_without_a_name() {
    let mut app = Application::new().unwrap();
    app.add_menu_item(&"A".to_string(), Callback::Nop).unwrap();
    assert!(app.remove_menu_item(&"A".to_string()).is_ok());
    // The callback table still holds the orphaned entry for index 0,
    // but its display name is gone, so the handler must not run.
    assert!(app.has_callback(0));
    app.post_event(SystrayEvent { menu_index: 0 });
    app.wait_for_message_callback(&NamedCallback::SetTooltipToName);
    assert!(app.current_tooltip().is_none());
}

#[test]
fn same_name_shadows_but_both_stay_dispatchable() {
    let mut app = Application::new().unwrap();
    let first = app
        .add_menu_item(
            &"A".to_string(),
            Callback::SetTooltip("first".to_string()),
        )
        .unwrap();
    let second = app
        .add_menu_item(
            &"A".to_string(),
            Callback::SetTooltip("second".to_string()),
        )
        .unwrap();
    assert_eq!((first, second), (0, 1));
    // By-name operations now target the newest entry only.
    assert_eq!(app.menu_index_of(&"A".to_string()), Some(1));
    assert!(app.remove_menu_item(&"A".to_string()).is_ok());
    assert!(app.menu_index_of(&"A".to_string()).is_none());
    // The shadowed entry is still dispatchable by index.
    assert!(app.has_callback(0));
    app.post_event(SystrayEvent { menu_index: 0 });
    app.wait_for_message();
    assert_eq!(app.current_tooltip().unwrap().as_str(), "first");
}

#[test]
fn operations_after_shutdown_report_os_error() {
    let mut app = Application::new().unwrap();
    assert!(app.shutdown().is_ok());
    assert!(app.is_shut_down());
    let r = app.add_menu_item(&"A".to_string(), Callback::Nop);
    match r {
        Err(SystrayError::OsError(msg)) => {
            assert_eq!(msg, "window has been shut down");
        }
        _ => panic!("expected an OsError"),
    }
    assert!(matches!(
        app.set_tooltip(&"tip".to_string()),
        Err(SystrayError::OsError(_))
    ));
    // Shutdown stays idempotent.
    assert!(app.shutdown().is_ok());
}

#[test]
fn removal_unsupported_platform_reports_not_implemented() {
    let window = Window::new(false);
    let mut app = Application::from_window(window);
    app.add_menu_item(&"A".to_string(), Callback::Nop).unwrap();
    assert!(matches!(
        app.remove_menu_item(&"A".to_string()),
        Err(SystrayError::NotImplementedError)
    ));
    // The registries are untouched by the failed removal.
    assert_eq!(app.menu_index_of(&"A".to_string()), Some(0));
    // An unregistered name is still a successful no-op.
    assert!(app.remove_menu_item(&"B".to_string()).is_ok());
}

#[test]
fn cosmetic_setters_are_recorded() {
    let mut app = Application::new().unwrap();
    assert!(app.set_tooltip(&"hello".to_string()).is_ok());
    assert_eq!(app.current_tooltip().unwrap().as_str(), "hello");
    assert!(app.set_icon_from_file(&"icon.png".to_string()).is_ok());
    assert!(app.set_icon_from_resource(&"icon-id".to_string()).is_ok());
}

#[test]
fn callback_driven_removal_and_tooltip() {
    let mut app = Application::new().unwrap();
    app.add_menu_item(
        &"Remover".to_string(),
        Callback::RemoveItem("Victim".to_string()),
    )
    .unwrap();
    app.add_menu_item(&"Victim".to_string(), Callback::Nop)
        .unwrap();
    app.post_event(SystrayEvent { menu_index: 0 });
    app.wait_for_message();
    assert!(app.menu_index_of(&"Victim".to_string()).is_none());
    assert!(app.menu_index_of(&"Remover".to_string()).is_some());
}

#[test]
fn dispatch_event_runs_and_reinserts_the_callback() {
    let mut app = Application::new().unwrap();
    app.add_menu_item(
        &"T".to_string(),
        Callback::SetTooltip("hit".to_string()),
    )
    .unwrap();
    app.dispatch_event(0);
    assert_eq!(app.current_tooltip().unwrap().as_str(), "hit");
    assert!(app.has_callback(0));
    // An index nobody registered is silently dropped.
    app.dispatch_event(7);
    assert_eq!(app.current_tooltip().unwrap().as_str(), "hit");
    assert!(!app.is_quit_requested());
}

#[test]
fn dispatch_event_named_hands_the_name_to_the_handler() {
    let mut app = Application::new().unwrap();
    app.add_menu_item(&"N".to_string(), Callback::Nop).unwrap();
    app.dispatch_event_named(0, &NamedCallback::SetTooltipToName);
    assert_eq!(app.current_tooltip().unwrap().as_str(), "N");
}

#[test]
fn error_descriptions() {
    assert_eq!(
        SystrayError::OsError("boom".to_string()).describe(),
        "OsError: boom"
    );
    assert_eq!(
        SystrayError::NotImplementedError.describe(),
        "Functionality is not implemented yet"
    );
    assert_eq!(
        SystrayError::UnknownError.describe(),
        "Unknown error occurrred"
    );
}

#[test]
fn window_records_menu_edits() {
    let mut w = Window::new(true);
    assert!(w.add_menu_entry(0, &"A".to_string()).is_ok());
    assert!(w.add_menu_separator(1).is_ok());
    assert!(w.remove_menu_entry(0).is_ok());
    assert!(w.shutdown().is_ok());
    assert!(matches!(
        w.add_menu_entry(2, &"B".to_string()),
        Err(SystrayError::OsError(_))
    ));
    w.quit();
    assert!(w.quit_requested);
}
