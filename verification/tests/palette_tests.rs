use clipi::palette::{
    clamp_selection, palette_keys, select_next, select_previous, KeyOutcome, PaletteAction,
    PaletteKeys, PaletteState, UiCmd,
    BOOT_FRAMES, PLACE_FRAMES,
};
use clipi::win::Handle;

#[test]
fn toggling_shows_and_hides() {
    let mut s = PaletteState::initial();
    assert_eq!(s.command_action(UiCmd::Toggle), PaletteAction::Show);
    s.show_palette();
    assert!(s.visible && !s.settings_open);
    assert_eq!(s.command_action(UiCmd::Toggle), PaletteAction::Hide);
    let e = s.hide_palette();
    assert!(e.remember_position);
    assert!(!e.stop_capture);
    assert!(!s.visible);
    assert_eq!(s.command_action(UiCmd::Toggle), PaletteAction::Show);
}

#[test]
fn toggle_from_settings_shows_the_palette() {
    let mut s = PaletteState::initial();
    s.open_settings();
    assert!(s.visible && s.settings_open);
    assert_eq!(s.command_action(UiCmd::Toggle), PaletteAction::Show);
    let e = s.hide_palette();
    assert!(!e.remember_position);
}

#[test]
fn toggle_is_ignored_while_capturing() {
    let mut s = PaletteState::initial();
    s.open_settings();
    s.hotkey_capture = true;
    assert_eq!(s.command_action(UiCmd::Toggle), PaletteAction::Ignore);
    assert_eq!(s.command_action(UiCmd::Show), PaletteAction::Show);
    assert_eq!(s.command_action(UiCmd::Settings), PaletteAction::OpenSettings);
    assert_eq!(s.command_action(UiCmd::Quit), PaletteAction::Exit);
    let e = s.hide_palette();
    assert!(e.stop_capture);
    assert!(!s.hotkey_capture);
}

#[test]
fn start_up_keeps_the_window_hidden() {
    let mut s = PaletteState::initial();
    let a = s.boot_step();
    assert!(a.keep_hidden && !a.become_background);
    let b = s.boot_step();
    assert!(b.keep_hidden && !b.become_background);
    let c = s.boot_step();
    assert!(c.keep_hidden && c.become_background);
    assert_eq!(s.boot_frames, BOOT_FRAMES);
    let d = s.boot_step();
    assert!(!d.keep_hidden && !d.become_background);
    assert_eq!(s.boot_frames, BOOT_FRAMES);
}

#[test]
fn losing_focus_hides_the_palette() {
    let mut s = PaletteState::initial();
    for _ in 0..3 {
        s.boot_step();
    }
    s.show_palette();
    assert!(!s.focus_step(false));
    assert!(!s.focus_step(true));
    assert!(s.focus_step(false));
    assert!(s.close_hides(false));
    assert!(!s.close_hides(true));
}

#[test]
fn no_focus_hiding_during_start_up() {
    let mut s = PaletteState::initial();
    s.show_palette();
    s.had_focus = true;
    assert!(!s.focus_step(false));
}

#[test]
fn placing_a_new_palette() {
    let mut s = PaletteState::initial();
    s.show_palette();
    assert_eq!(s.place_frames, PLACE_FRAMES);
    let mut n = 0;
    while s.place_step() {
        n += 1;
    }
    assert_eq!(n, PLACE_FRAMES);
}

#[test]
fn selection_stays_in_the_list() {
    assert_eq!(clamp_selection(5, 3), 2);
    assert_eq!(clamp_selection(1, 3), 1);
    assert_eq!(clamp_selection(4, 0), 0);
    assert_eq!(select_next(0, 3), 1);
    assert_eq!(select_next(2, 3), 2);
    assert_eq!(select_next(5, 0), 5);
    assert_eq!(select_previous(0), 0);
    assert_eq!(select_previous(3), 2);
}

#[test]
fn window_handles_share_state() {
    let h = Handle::new();
    let other = h.clone();
    assert!(!h.is_shown());
    assert!(!h.is_exiting());
    other.show();
    assert!(h.is_shown());
    other.hide_window();
    assert!(!h.is_shown());
    h.quit();
    assert!(other.is_exiting());
    assert_eq!(h.native(), 0);
    h.set_native(42);
    assert_eq!(other.native(), 42);
}

#[test]
fn two_toggles_from_hidden_end_hidden() {
    let mut s = PaletteState::initial();
    s.selected = 4;
    assert_eq!(s.command_action(UiCmd::Toggle), PaletteAction::Show);
    s.show_palette();
    assert_eq!(s.selected, 0);
    assert_eq!(s.place_frames, PLACE_FRAMES);
    assert_eq!(s.command_action(UiCmd::Toggle), PaletteAction::Hide);
    s.hide_palette();
    assert!(!s.visible && !s.settings_open && !s.hotkey_capture);
}

#[test]
fn steps_leave_other_fields_alone() {
    let mut s = PaletteState::initial();
    s.show_palette();
    s.selected = 2;
    let before = s;
    s.open_settings();
    assert_eq!(s, PaletteState { settings_open: true, hotkey_capture: false, visible: true, ..before });
    let before = s;
    s.hide_palette();
    assert_eq!(s, PaletteState { visible: false, settings_open: false, hotkey_capture: false, ..before });
    let before = s;
    assert!(!s.place_step());
    assert_eq!(s, before);
}

fn keys(escape: bool, enter: bool, down: bool, up: bool, delete: bool) -> PaletteKeys {
    PaletteKeys { escape, enter, down, up, delete }
}

#[test]
fn escape_wins_over_other_keys() {
    assert_eq!(palette_keys(2, 5, keys(true, true, true, false, true)), KeyOutcome::Hide);
    assert_eq!(palette_keys(2, 5, keys(false, true, true, true, true)), KeyOutcome::Restore);
}

#[test]
fn arrows_move_then_delete_uses_the_moved_row() {
    assert_eq!(
        palette_keys(2, 5, keys(false, false, true, false, true)),
        KeyOutcome::Edit { selected: 3, delete: true }
    );
    assert_eq!(palette_keys(4, 5, keys(false, false, true, false, false)), KeyOutcome::Edit { selected: 4, delete: false });
    assert_eq!(palette_keys(0, 5, keys(false, false, false, true, false)), KeyOutcome::Edit { selected: 0, delete: false });
    assert_eq!(palette_keys(4, 5, keys(false, false, true, true, false)), KeyOutcome::Edit { selected: 3, delete: false });
    assert_eq!(palette_keys(0, 0, keys(false, false, true, false, false)), KeyOutcome::Edit { selected: 0, delete: false });
    assert_eq!(palette_keys(1, 5, keys(false, false, false, false, false)), KeyOutcome::Edit { selected: 1, delete: false });
}
