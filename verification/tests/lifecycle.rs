use alexcad::application::{ActionKind, AlexcadApplication, ApplicationFlags, Effect};
use alexcad::window::{HeaderBar, Label, Template};

fn complete_template() -> Template {
    Template {
        resource_path: "/org/gnome/Example/window.ui".to_string(),
        header_bar: Some(HeaderBar { handle: 7 }),
        label: Some(Label { handle: 9 }),
    }
}

fn fresh_app() -> AlexcadApplication {
    AlexcadApplication::new("org.gnome.Example", ApplicationFlags::empty(), complete_template())
}

#[test]
fn construct_registers_actions_and_accels() {
    let app = fresh_app();
    assert_eq!(app.application_id, "org.gnome.Example");
    assert_eq!(app.flags.bits, 0);
    assert!(app.window.is_none());
    assert_eq!(app.windows_created, 0);
    assert_eq!(app.actions.len(), 2);
    assert_eq!(app.actions[0].name, "quit");
    assert_eq!(app.actions[0].kind, ActionKind::Quit);
    assert_eq!(app.actions[1].name, "about");
    assert_eq!(app.actions[1].kind, ActionKind::About);
    assert_eq!(app.accels.len(), 1);
    assert_eq!(app.accels[0].action, "app.quit");
    assert_eq!(app.accels[0].accels, vec!["<primary>q".to_string()]);
}

#[test]
fn first_activation_creates_and_presents_one_window() {
    let mut app = fresh_app();
    let effect = app.activate().unwrap();
    assert_eq!(effect, Effect::Present);
    assert_eq!(app.windows_created, 1);
    let window = app.window.as_ref().unwrap();
    assert_eq!(window.id, 1);
    assert_eq!(window.application_id, "org.gnome.Example");
}

#[test]
fn second_activation_reuses_the_window() {
    let mut app = fresh_app();
    app.activate().unwrap();
    let first = app.window.clone().unwrap();
    let effect = app.activate().unwrap();
    assert_eq!(effect, Effect::Present);
    assert_eq!(app.windows_created, 1);
    assert_eq!(app.window.unwrap(), first);
}

#[test]
fn activation_after_close_constructs_a_fresh_window() {
    let mut app = fresh_app();
    app.activate().unwrap();
    app.on_window_closed();
    assert!(app.window.is_none());
    assert_eq!(app.windows_created, 1);
    app.activate().unwrap();
    assert_eq!(app.windows_created, 2);
    assert_eq!(app.window.unwrap().id, 2);
}

#[test]
fn quit_yields_only_the_quit_effect() {
    let mut app = fresh_app();
    app.activate().unwrap();
    let before = app.clone();
    let effect = app.quit();
    assert_eq!(effect, Effect::Quit);
    // No window teardown ran: the window slot and every other field stand.
    assert_eq!(app, before);
    assert!(app.window.is_some());
}

#[test]
fn find_action_resolves_the_registered_names() {
    let app = fresh_app();
    assert_eq!(app.find_action(&"quit".to_string()), Some(ActionKind::Quit));
    assert_eq!(app.find_action(&"about".to_string()), Some(ActionKind::About));
    assert_eq!(app.find_action(&"missing".to_string()), None);
}

#[test]
fn dispatch_quit_matches_quit_handler() {
    let mut app = fresh_app();
    app.activate().unwrap();
    assert_eq!(app.dispatch(ActionKind::Quit), Effect::Quit);
}

#[test]
fn dispatch_about_raises_the_dialog() {
    let mut app = fresh_app();
    app.activate().unwrap();
    match app.dispatch(ActionKind::About) {
        Effect::ShowAbout(dialog) => {
            assert_eq!(dialog.version, "0.1.0");
        },
        other => panic!("expected the about dialog, got {:?}", other),
    }
}
