//! The suspend dialog: keep the program running in the background or stop
//! it, with an "exit when done" checkbox.
use vstd::prelude::*;
use crate::widgets::{CheckBoxState, Rect};

verus! {

/// Available actions in the suspend dialog.
#[derive(Debug, Clone, Copy, PartialEq, Eq, Structural)]
pub enum SuspendAction {
    /// Keep the process running, give the terminal back to the shell.
    Background,
    /// Stop the process until the shell resumes it.
    Suspend,
}

/// Focusable elements in the suspend dialog.
#[derive(Debug, Clone, Copy, PartialEq, Eq, Structural)]
pub enum SuspendFocus {
    /// The "Background" button (default focus)
    BackgroundButton,
    /// The "Suspend" button
    SuspendButton,
    /// The "Exit when done" checkbox
    ExitWhenDoneCheckbox,
}

impl Default for SuspendFocus {
    fn default() -> (r: SuspendFocus)
        ensures
            r == SuspendFocus::BackgroundButton,
    {
        SuspendFocus::BackgroundButton
    }
}

impl SuspendFocus {
    pub open spec fn next_spec(self) -> SuspendFocus {
        match self {
            SuspendFocus::BackgroundButton => SuspendFocus::SuspendButton,
            SuspendFocus::SuspendButton => SuspendFocus::ExitWhenDoneCheckbox,
            SuspendFocus::ExitWhenDoneCheckbox => SuspendFocus::BackgroundButton,
        }
    }

    pub open spec fn prev_spec(self) -> SuspendFocus {
        match self {
            SuspendFocus::BackgroundButton => SuspendFocus::ExitWhenDoneCheckbox,
            SuspendFocus::SuspendButton => SuspendFocus::BackgroundButton,
            SuspendFocus::ExitWhenDoneCheckbox => SuspendFocus::SuspendButton,
        }
    }

    /// Move to next focusable element.
    pub fn next(&self) -> (r: SuspendFocus)
        ensures
            r == self.next_spec(),
    {
        match self {
            SuspendFocus::BackgroundButton => SuspendFocus::SuspendButton,
            SuspendFocus::SuspendButton => SuspendFocus::ExitWhenDoneCheckbox,
            SuspendFocus::ExitWhenDoneCheckbox => SuspendFocus::BackgroundButton,
        }
    }

    /// Move to previous focusable element.
    pub fn prev(&self) -> (r: SuspendFocus)
        ensures
            r == self.prev_spec(),
    {
        match self {
            SuspendFocus::BackgroundButton => SuspendFocus::ExitWhenDoneCheckbox,
            SuspendFocus::SuspendButton => SuspendFocus::BackgroundButton,
            SuspendFocus::ExitWhenDoneCheckbox => SuspendFocus::SuspendButton,
        }
    }
}

/// `prev` undoes `next` and `next` undoes `prev`; three steps either way
/// come back to the start.
pub proof fn lemma_suspend_focus_cycle(f: SuspendFocus)
    ensures
        f.next_spec().prev_spec() == f,
        f.prev_spec().next_spec() == f,
        f.next_spec().next_spec().next_spec() == f,
        f.prev_spec().prev_spec().prev_spec() == f,
{
}

/// Clickable region for mouse interaction.
#[derive(Debug, Clone, Copy, PartialEq, Eq, Structural)]
pub struct ClickRegion {
    /// The area this click region covers
    pub area: Rect,
    /// The element this region corresponds to
    pub element: SuspendFocus,
}

impl ClickRegion {
    /// Check if a point is within this click region.
    pub fn contains(&self, col: u16, row: u16) -> (r: bool)
        ensures
            r == self.area.contains_spec(col as int, row as int),
    {
        self.area.contains(col, row)
    }
}

/// The element of the first region that holds the cell, if any does.
pub open spec fn click_target(regions: Seq<ClickRegion>, col: int, row: int) -> Option<SuspendFocus>
    decreases regions.len(),
{
    if regions.len() == 0 {
        None
    } else if regions[0].area.contains_spec(col, row) {
        Some(regions[0].element)
    } else {
        click_target(regions.drop_first(), col, row)
    }
}

/// State for the suspend dialog.
#[derive(Debug, Clone)]
pub struct SuspendDialogState {
    /// Currently focused element
    pub focus: SuspendFocus,
    /// Clickable regions (filled in while drawing)
    pub click_regions: Vec<ClickRegion>,
    /// "Exit when done" checkbox state
    pub exit_when_done: CheckBoxState,
}

impl Default for SuspendDialogState {
    fn default() -> (r: SuspendDialogState)
        ensures
            r.focus == SuspendFocus::BackgroundButton,
            r.click_regions@.len() == 0,
            r.exit_when_done == (CheckBoxState { checked: false, focused: false, enabled: true }),
    {
        SuspendDialogState::new()
    }
}

impl SuspendDialogState {
    /// A dialog with the focus on the Background button.
    pub fn new() -> (r: SuspendDialogState)
        ensures
            r.focus == SuspendFocus::BackgroundButton,
            r.click_regions@.len() == 0,
            r.exit_when_done == (CheckBoxState { checked: false, focused: false, enabled: true }),
    {
        SuspendDialogState {
            focus: SuspendFocus::BackgroundButton,
            click_regions: Vec::new(),
            exit_when_done: CheckBoxState::new(false),
        }
    }

    /// Move focus to next element (Tab).
    pub fn focus_next(&mut self)
        ensures
            final(self).focus == old(self).focus.next_spec(),
            final(self).exit_when_done == (CheckBoxState {
                focused: old(self).focus.next_spec() == SuspendFocus::ExitWhenDoneCheckbox,
                ..old(self).exit_when_done
            }),
            final(self).click_regions@ == old(self).click_regions@,
    {
        self.focus = self.focus.next();
        self.update_checkbox_focus();
    }

    /// Move focus to previous element (Shift+Tab).
    pub fn focus_prev(&mut self)
        ensures
            final(self).focus == old(self).focus.prev_spec(),
            final(self).exit_when_done == (CheckBoxState {
                focused: old(self).focus.prev_spec() == SuspendFocus::ExitWhenDoneCheckbox,
                ..old(self).exit_when_done
            }),
            final(self).click_regions@ == old(self).click_regions@,
    {
        self.focus = self.focus.prev();
        self.update_checkbox_focus();
    }

    /// Set focus to a specific element.
    pub fn set_focus(&mut self, element: SuspendFocus)
        ensures
            final(self).focus == element,
            final(self).exit_when_done == (CheckBoxState {
                focused: element == SuspendFocus::ExitWhenDoneCheckbox,
                ..old(self).exit_when_done
            }),
            final(self).click_regions@ == old(self).click_regions@,
    {
        self.focus = element;
        self.update_checkbox_focus();
    }

    /// Update the checkbox's focused state based on current focus.
    pub fn update_checkbox_focus(&mut self)
        ensures
            final(self).focus == old(self).focus,
            final(self).exit_when_done == (CheckBoxState {
                focused: old(self).focus == SuspendFocus::ExitWhenDoneCheckbox,
                ..old(self).exit_when_done
            }),
            final(self).click_regions@ == old(self).click_regions@,
    {
        let f = self.focus == SuspendFocus::ExitWhenDoneCheckbox;
        self.exit_when_done.set_focused(f);
    }

    /// Toggle the exit_when_done checkbox.
    pub fn toggle_exit_when_done(&mut self)
        ensures
            final(self).focus == old(self).focus,
            final(self).click_regions@ == old(self).click_regions@,
            final(self).exit_when_done.checked == (if old(self).exit_when_done.enabled {
                !old(self).exit_when_done.checked
            } else {
                old(self).exit_when_done.checked
            }),
            final(self).exit_when_done.focused == old(self).exit_when_done.focused,
            final(self).exit_when_done.enabled == old(self).exit_when_done.enabled,
    {
        self.exit_when_done.toggle();
    }

    /// Clear click regions (called before drawing).
    pub fn clear_click_regions(&mut self)
        ensures
            final(self).focus == old(self).focus,
            final(self).exit_when_done == old(self).exit_when_done,
            final(self).click_regions@.len() == 0,
    {
        self.click_regions.clear();
    }

    /// Add a click region.
    pub fn add_click_region(&mut self, area: Rect, element: SuspendFocus)
        ensures
            final(self).focus == old(self).focus,
            final(self).exit_when_done == old(self).exit_when_done,
            final(self).click_regions@ == old(self).click_regions@.push(ClickRegion { area, element }),
    {
        self.click_regions.push(ClickRegion { area, element });
    }

    /// Handle click at position, returns the clicked element if any.
    pub fn handle_click(&self, col: u16, row: u16) -> (r: Option<SuspendFocus>)
        ensures
            r == click_target(self.click_regions@, col as int, row as int),
    {
        let mut i: usize = 0;
        let n = self.click_regions.len();
        assert(self.click_regions@.skip(0) =~= self.click_regions@);
        while i < n
            invariant
                n == self.click_regions@.len(),
                i <= n,
                click_target(self.click_regions@, col as int, row as int) == click_target(
                    self.click_regions@.skip(i as int),
                    col as int,
                    row as int,
                ),
            decreases n - i,
        {
            let region = &self.click_regions[i];
            assert(self.click_regions@.skip(i as int)[0] == *region);
            if region.contains(col, row) {
                return Some(region.element);
            }
            assert(self.click_regions@.skip(i as int).drop_first() =~= self.click_regions@.skip(i + 1));
            i = i + 1;
        }
        None
    }

    /// Get the action for the currently focused button; none while the
    /// checkbox has the focus.
    pub fn selected_action(&self) -> (r: Option<SuspendAction>)
        ensures
            r == (match self.focus {
                SuspendFocus::BackgroundButton => Some(SuspendAction::Background),
                SuspendFocus::SuspendButton => Some(SuspendAction::Suspend),
                SuspendFocus::ExitWhenDoneCheckbox => None,
            }),
    {
        match self.focus {
            SuspendFocus::BackgroundButton => Some(SuspendAction::Background),
            SuspendFocus::SuspendButton => Some(SuspendAction::Suspend),
            SuspendFocus::ExitWhenDoneCheckbox => None,
        }
    }

    /// Check if exit_when_done is enabled.
    pub fn exit_when_done(&self) -> (r: bool)
        ensures
            r == self.exit_when_done.checked,
    {
        self.exit_when_done.checked
    }
}

} // verus!
