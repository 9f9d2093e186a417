//! State machines of the full-screen sub-views. The host forwards key
//! events and renders; the state transitions live here.

use vstd::prelude::*;

verus! {

/// The scrollable "about" view.
pub struct AboutApp {
    scroll: u16,
}

impl AboutApp {
    /// The scroll offset.
    pub closed spec fn scroll_spec(&self) -> u16 {
        self.scroll
    }

    /// A fresh view, scrolled to the top.
    pub fn new() -> (r: Self)
        ensures
            r.scroll_spec() == 0,
    {
        AboutApp { scroll: 0 }
    }

    /// Scroll one line up, saturating at the top.
    pub fn scroll_up(&mut self)
        ensures
            final(self).scroll_spec() == if old(self).scroll_spec() == 0 {
                0u16
            } else {
                (old(self).scroll_spec() - 1) as u16
            },
    {
        if self.scroll > 0 {
            self.scroll = self.scroll - 1;
        }
    }

    /// Scroll one line down, saturating at the largest offset.
    pub fn scroll_down(&mut self)
        ensures
            final(self).scroll_spec() == if old(self).scroll_spec() == u16::MAX {
                u16::MAX
            } else {
                (old(self).scroll_spec() + 1) as u16
            },
    {
        if self.scroll < u16::MAX {
            self.scroll = self.scroll + 1;
        }
    }

    /// The scroll offset, for rendering.
    pub fn scroll(&self) -> (r: u16)
        ensures
            r == self.scroll_spec(),
    {
        self.scroll
    }
}

/// How many contact entries the "contact" view lists.
pub const CONTACT_COUNT: usize = 6;

/// The "contact" view: a selectable list of contact entries.
pub struct ContactApp {
    selected: usize,
}

impl ContactApp {
    /// The selected entry.
    pub closed spec fn selected_spec(&self) -> usize {
        self.selected
    }

    /// The selection stays inside the list.
    pub closed spec fn wf(&self) -> bool {
        self.selected < CONTACT_COUNT
    }

    /// A fresh view with the first entry selected.
    pub fn new() -> (r: Self)
        ensures
            r.wf(),
            r.selected_spec() == 0,
    {
        ContactApp { selected: 0 }
    }

    /// Select the previous entry, stopping at the first.
    pub fn select_up(&mut self)
        requires
            old(self).wf(),
        ensures
            final(self).wf(),
            final(self).selected_spec() == if old(self).selected_spec() == 0 {
                0usize
            } else {
                (old(self).selected_spec() - 1) as usize
            },
    {
        if self.selected > 0 {
            self.selected = self.selected - 1;
        }
    }

    /// Select the next entry, stopping at the last.
    pub fn select_down(&mut self)
        requires
            old(self).wf(),
        ensures
            final(self).wf(),
            final(self).selected_spec() == if old(self).selected_spec() + 1 < CONTACT_COUNT {
                (old(self).selected_spec() + 1) as usize
            } else {
                old(self).selected_spec()
            },
    {
        if self.selected < CONTACT_COUNT - 1 {
            self.selected = self.selected + 1;
        }
    }

    /// The selected entry, for rendering.
    pub fn selected(&self) -> (r: usize)
        ensures
            r == self.selected_spec(),
    {
        self.selected
    }
}

/// How many cards the dashboard shows, in a two-by-two grid.
pub const DASHBOARD_CARDS: usize = 4;

/// The dashboard: four cards in a two-by-two grid; activating a card may ask
/// for another view.
pub struct DashboardApp {
    selected: usize,
    /// The view to switch to when the dashboard closes, if any.
    pub launch_app: Option<&'static str>,
}

impl DashboardApp {
    /// The selected card.
    pub closed spec fn selected_spec(&self) -> usize {
        self.selected
    }

    /// The pending launch target.
    pub closed spec fn launch_spec(&self) -> Option<&'static str> {
        self.launch_app
    }

    /// The selection stays inside the grid.
    pub closed spec fn wf(&self) -> bool {
        self.selected < DASHBOARD_CARDS
    }

    /// A fresh dashboard with the first card selected and no launch pending.
    pub fn new() -> (r: Self)
        ensures
            r.wf(),
            r.selected_spec() == 0,
            r.launch_spec() is None,
    {
        DashboardApp { selected: 0, launch_app: None }
    }

    /// Select a card directly.
    pub fn select(&mut self, i: usize)
        requires
            i < DASHBOARD_CARDS,
        ensures
            final(self).wf(),
            final(self).selected_spec() == i,
            final(self).launch_spec() == old(self).launch_spec(),
    {
        self.selected = i;
    }

    /// Move the selection one card left, stopping at the edge.
    pub fn move_left(&mut self)
        requires
            old(self).wf(),
        ensures
            final(self).wf(),
            final(self).selected_spec() == if old(self).selected_spec() == 0 {
                0usize
            } else {
                (old(self).selected_spec() - 1) as usize
            },
            final(self).launch_spec() == old(self).launch_spec(),
    {
        if self.selected > 0 {
            self.selected = self.selected - 1;
        }
    }

    /// Move the selection one card right, stopping at the edge.
    pub fn move_right(&mut self)
        requires
            old(self).wf(),
        ensures
            final(self).wf(),
            final(self).selected_spec() == if old(self).selected_spec() < DASHBOARD_CARDS - 1 {
                (old(self).selected_spec() + 1) as usize
            } else {
                old(self).selected_spec()
            },
            final(self).launch_spec() == old(self).launch_spec(),
    {
        if self.selected < DASHBOARD_CARDS - 1 {
            self.selected = self.selected + 1;
        }
    }

    /// Move the selection one row up, stopping at the top row.
    pub fn move_up(&mut self)
        requires
            old(self).wf(),
        ensures
            final(self).wf(),
            final(self).selected_spec() == if old(self).selected_spec() >= 2 {
                (old(self).selected_spec() - 2) as usize
            } else {
                old(self).selected_spec()
            },
            final(self).launch_spec() == old(self).launch_spec(),
    {
        if self.selected >= 2 {
            self.selected = self.selected - 2;
        }
    }

    /// Move the selection one row down, stopping at the bottom row.
    pub fn move_down(&mut self)
        requires
            old(self).wf(),
        ensures
            final(self).wf(),
            final(self).selected_spec() == if old(self).selected_spec() < 2 {
                (old(self).selected_spec() + 2) as usize
            } else {
                old(self).selected_spec()
            },
            final(self).launch_spec() == old(self).launch_spec(),
    {
        if self.selected < 2 {
            self.selected = self.selected + 2;
        }
    }

    /// The view the selected card launches: the resume, contact and about
    /// cards name their views; the last card only returns to the shell.
    pub open spec fn card_target(i: usize) -> Option<Seq<char>> {
        if i == 0 {
            Some("resume"@)
        } else if i == 1 {
            Some("contact"@)
        } else if i == 2 {
            Some("about"@)
        } else {
            None
        }
    }

    /// Activate the selected card: record which view to launch, if any. The
    /// dashboard closes afterwards either way.
    pub fn activate(&mut self)
        requires
            old(self).wf(),
        ensures
            final(self).wf(),
            final(self).selected_spec() == old(self).selected_spec(),
            match Self::card_target(old(self).selected_spec()) {
                Some(name) => final(self).launch_spec() matches Some(n) && n@ == name,
                None => final(self).launch_spec() == old(self).launch_spec(),
            },
    {
        if self.selected == 0 {
            self.launch_app = Some("resume");
        } else if self.selected == 1 {
            self.launch_app = Some("contact");
        } else if self.selected == 2 {
            self.launch_app = Some("about");
        }
    }

    /// The selected card, for rendering.
    pub fn selected(&self) -> (r: usize)
        ensures
            r == self.selected_spec(),
    {
        self.selected
    }
}

} // verus!
