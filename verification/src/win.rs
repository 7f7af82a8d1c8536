//! Shared window state: whether the palette window is shown and whether the
//! application is quitting, read and written from event handlers on other
//! threads. The native window handle is kept for the platform code.

use std::sync::Arc;
use std::sync::atomic::{AtomicBool, AtomicIsize, Ordering};
use vstd::prelude::*;

verus! {

/// A cheaply cloned handle on the window state. Clones share the state.
#[derive(Clone)]
pub struct Handle {
    hwnd: Arc<AtomicIsize>,
    shown: Arc<AtomicBool>,
    exiting: Arc<AtomicBool>,
}

impl Handle {
    /// A handle with no native window yet, not shown and not exiting.
    pub fn new() -> (h: Handle) {
        Handle {
            hwnd: Arc::new(AtomicIsize::new(0)),
            shown: Arc::new(AtomicBool::new(false)),
            exiting: Arc::new(AtomicBool::new(false)),
        }
    }

    /// Whether the window was last marked shown. Other handles may change it
    /// at any time, so the result is not stated.
    pub fn is_shown(&self) -> bool {
        self.shown.load(Ordering::SeqCst)
    }

    /// Whether quitting has begun (set by any handle).
    pub fn is_exiting(&self) -> bool {
        self.exiting.load(Ordering::SeqCst)
    }

    /// Marks the window shown. (On Windows the application also shows and
    /// focuses the native window.)
    pub fn show(&self) {
        self.shown.store(true, Ordering::SeqCst);
    }

    /// Marks the window hidden. (On Windows the application also hides the
    /// native window.)
    pub fn hide_window(&self) {
        self.shown.store(false, Ordering::SeqCst);
    }

    /// Marks the application as quitting. (On Windows the application also
    /// closes the native window and ends the message loop.)
    pub fn quit(&self) {
        self.exiting.store(true, Ordering::SeqCst);
    }

    /// The native window handle recorded (0 when none).
    pub fn native(&self) -> isize {
        self.hwnd.load(Ordering::SeqCst)
    }

    /// Records the native window handle.
    pub fn set_native(&self, hwnd: isize) {
        self.hwnd.store(hwnd, Ordering::SeqCst);
    }
}

} // verus!
