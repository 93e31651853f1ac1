use tray_popover::commands::Command;
use tray_popover::controller::Config;
use tray_popover::controller::Controller;
use tray_popover::controller::WindowSnapshot;
use tray_popover::events::ControllerEvent;
use tray_popover::events::MouseButton;
use tray_popover::events::MouseButtonState;
use tray_popover::events::TrayClick;
use tray_popover::events::Visibility;
use tray_popover::geometry::LogicalRect;

fn icon_rect() -> LogicalRect {
    LogicalRect { x: 100, y: 50, width: 20, height: 20 }
}

fn left_up() -> TrayClick {
    TrayClick { button: MouseButton::Left, state: MouseButtonState::Up, rect: icon_rect() }
}

fn snapshot(visible: bool) -> WindowSnapshot {
    WindowSnapshot { visible: Some(visible), scale_milli: Some(2000) }
}

fn controller() -> Controller {
    Controller::new(Config::default())
}

#[test]
fn default_config_is_the_stock_popover() {
    let c = Config::default();
    assert_eq!(c, Config { window_width: 400, gap: 8, enable_positioning: true });
}

#[test]
fn startup_issues_exactly_one_conceal_command() {
    let ctrl = controller();
    let cmds = ctrl.startup();
    assert_eq!(cmds, vec![Command::Hide]);
    assert_eq!(Visibility::Visible.after_commands(&cmds), Visibility::Hidden);
    assert_eq!(Visibility::Hidden.after_commands(&cmds), Visibility::Hidden);
}

#[test]
fn toggle_clicks_alternate_visibility() {
    let ctrl = controller();
    let mut v = Visibility::Hidden;
    let expected = [
        Visibility::Visible,
        Visibility::Hidden,
        Visibility::Visible,
        Visibility::Hidden,
    ];
    for want in expected {
        let snap = snapshot(v == Visibility::Visible);
        let cmds = ctrl.handle_tray_event(Some(snap), &left_up());
        v = v.after_commands(&cmds);
        assert_eq!(v, want);
    }
}

#[test]
fn filtered_clicks_issue_no_commands() {
    let ctrl = controller();
    let cases = [
        (MouseButton::Right, MouseButtonState::Up),
        (MouseButton::Other, MouseButtonState::Up),
        (MouseButton::Left, MouseButtonState::Down),
        (MouseButton::Right, MouseButtonState::Down),
    ];
    for (button, state) in cases {
        let click = TrayClick { button, state, rect: icon_rect() };
        for visible in [false, true] {
            let cmds = ctrl.handle_tray_event(Some(snapshot(visible)), &click);
            assert!(cmds.is_empty());
        }
    }
}

#[test]
fn focus_lost_always_conceals() {
    let ctrl = controller();
    for start in [Visibility::Hidden, Visibility::Visible] {
        let cmds = ctrl.handle_focus_event(false);
        assert_eq!(cmds, vec![Command::Hide]);
        let v = start.after_commands(&cmds);
        assert_eq!(v, Visibility::Hidden);
        // a second focus-lost notification is idempotent
        let again = ctrl.handle_focus_event(false);
        assert_eq!(v.after_commands(&again), Visibility::Hidden);
    }
}

#[test]
fn focus_gained_is_ignored() {
    let ctrl = controller();
    let cmds = ctrl.handle_focus_event(true);
    assert!(cmds.is_empty());
}

#[test]
fn concealing_a_concealed_window_changes_nothing() {
    assert_eq!(Visibility::Hidden.after_command(&Command::Hide), Visibility::Hidden);
}

#[test]
fn click_while_concealed_positions_shows_focuses_in_order() {
    let ctrl = controller();
    let cmds = ctrl.handle_tray_event(Some(snapshot(false)), &left_up());
    assert_eq!(
        cmds,
        vec![Command::SetPosition { x: 20, y: 148 }, Command::Show, Command::SetFocus]
    );
    assert!(cmds.iter().all(|c| *c != Command::Hide));
}

#[test]
fn click_while_visible_conceals() {
    let ctrl = controller();
    let cmds = ctrl.handle_tray_event(Some(snapshot(true)), &left_up());
    assert_eq!(cmds, vec![Command::Hide]);
}

#[test]
fn unresolvable_window_is_a_no_op() {
    let ctrl = controller();
    let cmds = ctrl.handle_tray_event(None, &left_up());
    assert!(cmds.is_empty());
}

#[test]
fn unknown_visibility_counts_as_concealed() {
    let ctrl = controller();
    let snap = WindowSnapshot { visible: None, scale_milli: Some(2000) };
    let cmds = ctrl.handle_tray_event(Some(snap), &left_up());
    assert_eq!(
        cmds,
        vec![Command::SetPosition { x: 20, y: 148 }, Command::Show, Command::SetFocus]
    );
}

#[test]
fn unknown_scale_counts_as_one() {
    let ctrl = controller();
    let snap = WindowSnapshot { visible: Some(false), scale_milli: None };
    let cmds = ctrl.handle_tray_event(Some(snap), &left_up());
    assert_eq!(
        cmds,
        vec![Command::SetPosition { x: -90, y: 78 }, Command::Show, Command::SetFocus]
    );
}

#[test]
fn positioning_can_be_switched_off() {
    let config = Config { window_width: 400, gap: 8, enable_positioning: false };
    let ctrl = Controller::new(config);
    let cmds = ctrl.handle_tray_event(Some(snapshot(false)), &left_up());
    assert_eq!(cmds, vec![Command::Show, Command::SetFocus]);
}

#[test]
fn single_entry_point_dispatches_both_event_kinds() {
    let ctrl = controller();
    let cmds = ctrl.handle_event(Some(snapshot(true)), &ControllerEvent::Tray(left_up()));
    assert_eq!(cmds, vec![Command::Hide]);
    let cmds = ctrl.handle_event(Some(snapshot(true)), &ControllerEvent::Focus(false));
    assert_eq!(cmds, vec![Command::Hide]);
    let cmds = ctrl.handle_event(Some(snapshot(true)), &ControllerEvent::Focus(true));
    assert!(cmds.is_empty());
}

#[test]
fn own_conceal_command_may_echo_as_focus_lost() {
    // A tray click that conceals a focused window triggers a focus-lost
    // notification for that same concealment; processing it is harmless.
    let ctrl = controller();
    let click_cmds = ctrl.handle_tray_event(Some(snapshot(true)), &left_up());
    let v = Visibility::Visible.after_commands(&click_cmds);
    assert_eq!(v, Visibility::Hidden);
    let echo = ctrl.handle_focus_event(false);
    assert_eq!(v.after_commands(&echo), Visibility::Hidden);
}
