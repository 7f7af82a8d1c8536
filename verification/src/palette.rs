//! The palette window's behaviour: what tray and hotkey commands do, how
//! showing, hiding and the settings view change its state, when it hides on
//! its own, and how the selection moves through the list.

use vstd::prelude::*;

verus! {

/// Frames after start-up during which the window is kept hidden.
pub const BOOT_FRAMES: u8 = 3;
/// Frames during which a newly shown palette is moved to its saved position.
pub const PLACE_FRAMES: u8 = 8;

/// Commands from the tray menu and the global hotkey.
#[derive(Debug, Clone, Copy, PartialEq, Eq, Structural)]
pub enum UiCmd {
    Toggle,
    Show,
    Settings,
    Quit,
}

/// The state the palette's behaviour depends on.
#[derive(Debug, Clone, Copy, PartialEq, Eq, Structural)]
pub struct PaletteState {
    /// The window is on screen (palette or settings).
    pub visible: bool,
    /// The settings view is open.
    pub settings_open: bool,
    /// The settings view waits for a new shortcut.
    pub hotkey_capture: bool,
    /// The search box should take the focus.
    pub just_opened: bool,
    /// The palette has had the focus since it was shown.
    pub had_focus: bool,
    /// The application is quitting.
    pub quitting: bool,
    /// Frames drawn since start-up, up to `BOOT_FRAMES`.
    pub boot_frames: u8,
    /// Frames left to keep the palette at its saved position.
    pub place_frames: u8,
    /// Index of the selected row.
    pub selected: usize,
}

/// What the application does in answer to a command.
#[derive(Debug, Clone, Copy, PartialEq, Eq, Structural)]
pub enum PaletteAction {
    Show,
    Hide,
    OpenSettings,
    Exit,
    Ignore,
}

impl PaletteState {
    /// The state at start-up: hidden, nothing open.
    pub fn initial() -> (s: PaletteState)
        ensures
            !s.visible && !s.settings_open && !s.hotkey_capture && !s.quitting,
            !s.just_opened && !s.had_focus,
            s.boot_frames == 0 && s.place_frames == 0 && s.selected == 0,
            s.consistent(),
    {
        PaletteState {
            visible: false,
            settings_open: false,
            hotkey_capture: false,
            just_opened: false,
            had_focus: false,
            quitting: false,
            boot_frames: 0,
            place_frames: 0,
            selected: 0,
        }
    }

    /// The settings view is only ever open in a visible window.
    pub open spec fn consistent(self) -> bool {
        self.settings_open ==> self.visible
    }

    /// The palette (not the settings view) is on screen.
    pub open spec fn palette_shown(self) -> bool {
        self.visible && !self.settings_open
    }

    /// What a toggle does: hide a shown palette, show it otherwise.
    pub open spec fn toggle_action(self) -> PaletteAction {
        if self.palette_shown() {
            PaletteAction::Hide
        } else {
            PaletteAction::Show
        }
    }

    /// What a command does. The hotkey's toggle is ignored while a new
    /// shortcut is being captured; Quit exits at once.
    pub open spec fn command_action_spec(self, cmd: UiCmd) -> PaletteAction {
        match cmd {
            UiCmd::Toggle => if self.hotkey_capture {
                PaletteAction::Ignore
            } else {
                self.toggle_action()
            },
            UiCmd::Show => PaletteAction::Show,
            UiCmd::Settings => PaletteAction::OpenSettings,
            UiCmd::Quit => PaletteAction::Exit,
        }
    }

    /// Decides what a command does.
    pub fn command_action(&self, cmd: UiCmd) -> (a: PaletteAction)
        ensures
            a == self.command_action_spec(cmd),
    {
        match cmd {
            UiCmd::Toggle => {
                if self.hotkey_capture {
                    PaletteAction::Ignore
                } else if self.visible && !self.settings_open {
                    PaletteAction::Hide
                } else {
                    PaletteAction::Show
                }
            },
            UiCmd::Show => PaletteAction::Show,
            UiCmd::Settings => PaletteAction::OpenSettings,
            UiCmd::Quit => PaletteAction::Exit,
        }
    }

    /// The state after showing the palette.
    pub open spec fn after_show(self) -> PaletteState {
        PaletteState {
            visible: true,
            settings_open: false,
            just_opened: true,
            had_focus: false,
            selected: 0,
            place_frames: PLACE_FRAMES,
            ..self
        }
    }

    /// The state after opening the settings view.
    pub open spec fn after_open_settings(self) -> PaletteState {
        PaletteState { visible: true, settings_open: true, hotkey_capture: false, ..self }
    }

    /// The state after hiding the window.
    pub open spec fn after_hide(self) -> PaletteState {
        PaletteState { visible: false, settings_open: false, hotkey_capture: false, ..self }
    }

    /// Showing the palette: the settings view closes, the search box takes
    /// the focus, the first row is selected and the window is placed at its
    /// saved position for a few frames. Nothing else changes.
    pub fn show_palette(&mut self)
        ensures
            *final(self) == old(self).after_show(),
            final(self).palette_shown(),
            final(self).consistent(),
    {
        self.settings_open = false;
        self.visible = true;
        self.just_opened = true;
        self.had_focus = false;
        self.selected = 0;
        self.place_frames = PLACE_FRAMES;
    }

    /// Opening the settings view: any shortcut capture ends and the window
    /// shows the settings. Nothing else changes.
    pub fn open_settings(&mut self)
        ensures
            *final(self) == old(self).after_open_settings(),
            final(self).consistent(),
    {
        self.hotkey_capture = false;
        self.settings_open = true;
        self.visible = true;
    }
}

/// Side effects of hiding the window.
#[derive(Debug, Clone, Copy, PartialEq, Eq, Structural)]
pub struct HideEffects {
    /// A shortcut capture was running and ends: the configured shortcut is
    /// registered again.
    pub stop_capture: bool,
    /// The palette was on screen: its position is saved.
    pub remember_position: bool,
    /// Start-up is over: the application gives up the foreground (macOS).
    pub resign_foreground: bool,
}

impl PaletteState {
    /// Hiding the window, palette or settings; any shortcut capture ends.
    /// Nothing else changes.
    pub fn hide_palette(&mut self) -> (e: HideEffects)
        ensures
            *final(self) == old(self).after_hide(),
            final(self).consistent(),
            e.stop_capture == old(self).hotkey_capture,
            e.remember_position == old(self).palette_shown(),
            e.resign_foreground == (old(self).boot_frames >= BOOT_FRAMES),
    {
        let e = HideEffects {
            stop_capture: self.hotkey_capture,
            remember_position: self.visible && !self.settings_open,
            resign_foreground: self.boot_frames >= BOOT_FRAMES,
        };
        self.hotkey_capture = false;
        self.visible = false;
        self.settings_open = false;
        e
    }
}

/// What a frame during start-up does.
#[derive(Debug, Clone, Copy, PartialEq, Eq, Structural)]
pub struct BootStep {
    /// Keep the window off screen.
    pub keep_hidden: bool,
    /// Start-up just ended with nothing shown: become a background
    /// application (macOS).
    pub become_background: bool,
}

impl PaletteState {
    /// The state after a frame of start-up: one more frame counted, up to
    /// `BOOT_FRAMES`.
    pub open spec fn after_boot_frame(self) -> PaletteState {
        if self.boot_frames < BOOT_FRAMES {
            PaletteState { boot_frames: (self.boot_frames + 1) as u8, ..self }
        } else {
            self
        }
    }

    /// Counts a frame of start-up; after `BOOT_FRAMES` frames this does
    /// nothing. Nothing but the frame count changes.
    pub fn boot_step(&mut self) -> (b: BootStep)
        ensures
            *final(self) == old(self).after_boot_frame(),
            old(self).consistent() ==> final(self).consistent(),
            b.keep_hidden == (old(self).boot_frames < BOOT_FRAMES && !old(self).visible
                && !old(self).settings_open),
            b.become_background == (old(self).boot_frames + 1 == BOOT_FRAMES && !old(self).visible
                && !old(self).settings_open),
    {
        if self.boot_frames < BOOT_FRAMES {
            self.boot_frames = self.boot_frames + 1;
            let hidden = !self.visible && !self.settings_open;
            BootStep { keep_hidden: hidden, become_background: self.boot_frames == BOOT_FRAMES && hidden }
        } else {
            BootStep { keep_hidden: false, become_background: false }
        }
    }

    /// Whether a request to close the window only hides it: unless the
    /// application is quitting, closing hides.
    pub fn close_hides(&self, exiting: bool) -> (b: bool)
        ensures
            b == (!self.quitting && !exiting),
    {
        !self.quitting && !exiting
    }

    /// Notes whether the palette has the focus; returns whether it lost the
    /// focus it had, and must hide. Only a shown palette (not the settings
    /// view) after start-up and while not quitting hides this way.
    pub fn focus_step(&mut self, focused: bool) -> (hide: bool)
        ensures
            old(self).consistent() ==> final(self).consistent(),
            ({
                let watching = old(self).palette_shown() && old(self).boot_frames >= BOOT_FRAMES
                    && !old(self).quitting;
                &&& hide == (watching && !focused && old(self).had_focus)
                &&& *final(self) == (PaletteState {
                    had_focus: old(self).had_focus || (watching && focused),
                    ..*old(self)
                })
            }),
    {
        if self.visible && !self.settings_open && self.boot_frames >= BOOT_FRAMES && !self.quitting {
            if focused {
                self.had_focus = true;
                false
            } else {
                self.had_focus
            }
        } else {
            false
        }
    }

    /// One frame of placing a newly shown palette: whether to move it to the
    /// saved position this frame.
    pub fn place_step(&mut self) -> (place: bool)
        ensures
            old(self).consistent() ==> final(self).consistent(),
            place == (old(self).palette_shown() && old(self).place_frames > 0),
            place ==> *final(self) == (PaletteState {
                place_frames: (old(self).place_frames - 1) as u8,
                ..*old(self)
            }),
            !place ==> *final(self) == *old(self),
    {
        if self.visible && !self.settings_open && self.place_frames > 0 {
            self.place_frames = self.place_frames - 1;
            true
        } else {
            false
        }
    }
}

// ---------------------------------------------------------------------------
// Selection
// ---------------------------------------------------------------------------

/// The selection kept in a list of `len` rows: unchanged when in range, the
/// last row otherwise (0 for an empty list).
pub open spec fn clamp_selection_spec(selected: int, len: int) -> int {
    if selected >= len {
        if len > 0 {
            len - 1
        } else {
            0
        }
    } else {
        selected
    }
}

/// Keeps the selection inside a list of `len` rows.
pub fn clamp_selection(selected: usize, len: usize) -> (s: usize)
    ensures
        s == clamp_selection_spec(selected as int, len as int),
{
    if selected >= len {
        len.saturating_sub(1)
    } else {
        selected
    }
}

/// Moves the selection one row down, stopping at the last row.
pub fn select_next(selected: usize, len: usize) -> (s: usize)
    requires
        len == 0 || selected < usize::MAX,
    ensures
        len == 0 ==> s == selected,
        len > 0 ==> s == if selected + 1 < len { selected + 1 } else { len - 1 },
{
    if len == 0 {
        selected
    } else if selected + 1 < len - 1 {
        selected + 1
    } else {
        len - 1
    }
}

/// Moves the selection one row up, stopping at the first row.
pub fn select_previous(selected: usize) -> (s: usize)
    ensures
        s == if selected > 0 { selected - 1 } else { 0 },
{
    selected.saturating_sub(1)
}

/// The keys pressed in the palette during one frame.
#[derive(Debug, Clone, Copy, PartialEq, Eq, Structural)]
pub struct PaletteKeys {
    pub escape: bool,
    pub enter: bool,
    pub down: bool,
    pub up: bool,
    pub delete: bool,
}

/// What the palette does with the keys of a frame.
#[derive(Debug, Clone, Copy, PartialEq, Eq, Structural)]
pub enum KeyOutcome {
    /// Escape: hide the palette.
    Hide,
    /// Enter: put the selected clip back on the clipboard.
    Restore,
    /// The selection after the arrow keys, and whether to delete the clip it
    /// then points at.
    Edit { selected: usize, delete: bool },
}

/// The selection after the arrow keys of a frame: down first (stopping at
/// the last row), then up (stopping at the first).
pub open spec fn moved_selection(selected: int, len: int, down: bool, up: bool) -> int {
    let a = if down && len > 0 {
        if selected + 1 < len { selected + 1 } else { len - 1 }
    } else {
        selected
    };
    if up {
        if a > 0 { a - 1 } else { 0 }
    } else {
        a
    }
}

/// Decides what the keys of a frame do in the palette. Escape wins over
/// everything and hides; Enter restores the selected clip; otherwise the
/// arrows move the selection and Delete removes the clip at the moved
/// selection.
pub fn palette_keys(selected: usize, len: usize, keys: PaletteKeys) -> (o: KeyOutcome)
    ensures
        keys.escape ==> o is Hide,
        !keys.escape && keys.enter ==> o is Restore,
        !keys.escape && !keys.enter ==> (o matches KeyOutcome::Edit { selected: s, delete: d }
            && d == keys.delete && s == moved_selection(selected as int, len as int, keys.down, keys.up)),
{
    if keys.escape {
        return KeyOutcome::Hide;
    }
    if keys.enter {
        return KeyOutcome::Restore;
    }
    let mut s = selected;
    if keys.down && len > 0 {
        if selected < len - 1 {
            s = selected + 1;
        } else {
            s = len - 1;
        }
    }
    if keys.up {
        s = select_previous(s);
    }
    KeyOutcome::Edit { selected: s, delete: keys.delete }
}

/// Moving with the arrow keys keeps a selection inside the list.
pub proof fn lemma_keys_keep_selection_in_list(selected: int, len: int, down: bool, up: bool)
    requires
        0 <= selected < len,
    ensures
        0 <= moved_selection(selected, len, down, up) < len,
{
}

/// After clamping, the selection is a row of the list (or 0 when the list is
/// empty), and moving it keeps it there.
pub proof fn lemma_selection_in_range(selected: int, len: int)
    requires
        0 <= selected,
        0 <= len,
    ensures
        len > 0 ==> 0 <= clamp_selection_spec(selected, len) < len,
        len == 0 ==> clamp_selection_spec(selected, len) == 0,
{
}

/// A toggle of a shown palette hides it.
pub proof fn lemma_toggle_hides_shown(s: PaletteState)
    requires
        s.palette_shown(),
        !s.hotkey_capture,
    ensures
        s.command_action_spec(UiCmd::Toggle) == PaletteAction::Hide,
{
}

/// A toggle of a hidden palette, or of the settings view, shows the palette.
pub proof fn lemma_toggle_shows_hidden(s: PaletteState)
    requires
        !s.palette_shown(),
        !s.hotkey_capture,
    ensures
        s.command_action_spec(UiCmd::Toggle) == PaletteAction::Show,
{
}

/// Toggling twice from a hidden palette (or the settings view), with no
/// shortcut being captured, ends hidden: the first toggle shows the palette,
/// the second hides it again.
pub proof fn lemma_toggle_twice_ends_hidden(s: PaletteState)
    requires
        !s.palette_shown(),
        !s.hotkey_capture,
    ensures
        s.command_action_spec(UiCmd::Toggle) == PaletteAction::Show,
        s.after_show().palette_shown(),
        s.after_show().command_action_spec(UiCmd::Toggle) == PaletteAction::Hide,
        !s.after_show().after_hide().visible,
        !s.after_show().after_hide().settings_open,
        !s.after_show().after_hide().hotkey_capture,
{
}

} // verus!
