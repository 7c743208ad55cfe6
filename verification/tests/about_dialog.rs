use alexcad::application::{AlexcadApplication, ApplicationFlags};
use alexcad::config;
use alexcad::window::{HeaderBar, Label, Template};

fn activated_app() -> AlexcadApplication {
    let template = Template {
        resource_path: "/org/gnome/Example/window.ui".to_string(),
        header_bar: Some(HeaderBar { handle: 3 }),
        label: Some(Label { handle: 4 }),
    };
    let mut app =
        AlexcadApplication::new("org.gnome.Example", ApplicationFlags::empty(), template);
    app.activate().unwrap();
    app
}

#[test]
fn version_string_is_the_configured_one() {
    assert_eq!(config::version(), "0.1.0");
}

#[test]
fn about_dialog_version_equals_the_build_version() {
    let app = activated_app();
    let dialog = app.show_about();
    assert_eq!(dialog.version, config::version());
    assert_eq!(dialog.version, "0.1.0");
}

#[test]
fn about_dialog_is_modal_and_transient_for_the_window() {
    let app = activated_app();
    let dialog = app.show_about();
    assert!(dialog.modal);
    assert_eq!(dialog.transient_for, app.window.as_ref().unwrap().id);
    assert_eq!(dialog.program_name, "alexcad");
    assert_eq!(dialog.logo_icon_name, "org.gnome.Example");
    assert_eq!(dialog.authors, vec!["Unknown".to_string()]);
    // The fixed copyright line begins with the two characters U+00C2, U+00A9.
    assert_eq!(dialog.copyright, "\u{c2}\u{a9} 2023 Unknown");
    assert_eq!(dialog.copyright.chars().count(), 15);
}
