use rsh::apps::{AboutApp, ContactApp, DashboardApp};
use rsh::render::LineKind;
use rsh::text::center_text;
use rsh::theme::{Rgb, Theme};

#[test]
fn center_text_pads_half_the_leftover() {
    assert_eq!(center_text("abc", 9), "   abc");
    assert_eq!(center_text("abc", 10), "   abc");
    assert_eq!(center_text("abc", 3), "abc");
    assert_eq!(center_text("abcd", 2), "abcd");
    assert_eq!(center_text("", 4), "  ");
}

#[test]
fn theme_maps_kinds_to_palette_colors() {
    assert_eq!(Theme::color_of(LineKind::Normal), Rgb { red: 240, green: 235, blue: 225 });
    assert_eq!(Theme::color_of(LineKind::Error), Rgb { red: 235, green: 100, blue: 85 });
    assert_eq!(Theme::color_of(LineKind::Success), Rgb { red: 80, green: 200, blue: 180 });
    assert_eq!(Theme::color_of(LineKind::Heading), Theme::secondary());
    assert_eq!(Theme::color_of(LineKind::Primary), Theme::primary());
}

#[test]
fn about_app_scroll_saturates() {
    let mut app = AboutApp::new();
    assert_eq!(app.scroll(), 0);
    app.scroll_up();
    assert_eq!(app.scroll(), 0);
    app.scroll_down();
    app.scroll_down();
    assert_eq!(app.scroll(), 2);
    app.scroll_up();
    assert_eq!(app.scroll(), 1);
}

#[test]
fn contact_app_selection_stays_in_range() {
    let mut app = ContactApp::new();
    assert_eq!(app.selected(), 0);
    app.select_up();
    assert_eq!(app.selected(), 0);
    for _ in 0..10 {
        app.select_down();
    }
    assert_eq!(app.selected(), 5);
}

#[test]
fn dashboard_moves_in_a_grid() {
    let mut app = DashboardApp::new();
    assert_eq!(app.selected(), 0);
    app.move_right();
    assert_eq!(app.selected(), 1);
    app.move_down();
    assert_eq!(app.selected(), 3);
    app.move_left();
    assert_eq!(app.selected(), 2);
    app.move_up();
    assert_eq!(app.selected(), 0);
    app.move_left();
    assert_eq!(app.selected(), 0);
    app.move_up();
    assert_eq!(app.selected(), 0);
}

#[test]
fn dashboard_activation_targets_cards() {
    let mut app = DashboardApp::new();
    app.activate();
    assert_eq!(app.launch_app, Some("resume"));
    let mut app = DashboardApp::new();
    app.select(1);
    app.activate();
    assert_eq!(app.launch_app, Some("contact"));
    let mut app = DashboardApp::new();
    app.select(2);
    app.activate();
    assert_eq!(app.launch_app, Some("about"));
    let mut app = DashboardApp::new();
    app.select(3);
    app.activate();
    assert_eq!(app.launch_app, None);
}
