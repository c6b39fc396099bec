use vstd::prelude::*;

verus! {

/// What drives the dashboard: a key press or a redraw tick.
pub enum Event<I> {
    Input(I),
    Tick,
}

/// The keys the dashboard reacts to.
#[derive(Clone, Copy, Debug, PartialEq, Eq, Structural)]
pub enum UiKey {
    CtrlC,
    Left,
    Right,
    Other,
}

/// The dashboard's tabs, left to right.
#[derive(Clone, Copy, Debug, PartialEq, Eq, Structural)]
pub enum TabState {
    Overview,
    Teams,
    Exploits,
}

/// How many data points of the accepted-flag history the chart shows.
pub const FLAGS_DATAPOINT_COUNT: usize = 120;

impl TabState {
    /// The tab's position, from the left.
    pub open spec fn position(self) -> nat {
        match self {
            TabState::Overview => 0,
            TabState::Teams => 1,
            TabState::Exploits => 2,
        }
    }

    /// The tab's position, from the left.
    pub fn index(&self) -> (r: usize)
        ensures
            r == self.position(),
    {
        match self {
            TabState::Overview => 0,
            TabState::Teams => 1,
            TabState::Exploits => 2,
        }
    }

    /// Moves one tab to the right; the last tab stays.
    pub fn next(&mut self)
        ensures
            final(self).position() == if old(self).position() < 2 {
                old(self).position() + 1
            } else {
                2
            },
    {
        *self = match *self {
            TabState::Overview => TabState::Teams,
            TabState::Teams => TabState::Exploits,
            TabState::Exploits => TabState::Exploits,
        }
    }

    /// Moves one tab to the left; the first tab stays.
    pub fn previous(&mut self)
        ensures
            final(self).position() == if old(self).position() > 0 {
                old(self).position() - 1
            } else {
                0
            },
    {
        *self = match *self {
            TabState::Overview => TabState::Overview,
            TabState::Teams => TabState::Overview,
            TabState::Exploits => TabState::Teams,
        }
    }

    /// The tab titles, left to right.
    pub fn get_titles() -> (r: Vec<&'static str>)
        ensures
            r@.len() == 3,
            r@[0]@ == "Overview"@,
            r@[1]@ == "Teams"@,
            r@[2]@ == "Exploits"@,
    {
        vec!["Overview", "Teams", "Exploits"]
    }
}

/// The dashboard's own state: the tab shown and whether the quit prompt is
/// open.
pub struct UiControl {
    pub tab_selected: TabState,
    pub close_menu: bool,
}

impl UiControl {
    /// The first tab, no prompt.
    pub fn new() -> (r: UiControl)
        ensures
            r.tab_selected == TabState::Overview,
            !r.close_menu,
    {
        UiControl { tab_selected: TabState::Overview, close_menu: false }
    }

    /// Takes a key press; true when the dashboard is to quit: Ctrl-C while
    /// the quit prompt is open. Ctrl-C opens the prompt, any other key
    /// closes it, and the arrow keys move between tabs.
    pub fn handle_key(&mut self, key: UiKey) -> (quit: bool)
        ensures
            quit == (key == UiKey::CtrlC && old(self).close_menu),
            quit ==> *final(self) == *old(self),
            !quit ==> final(self).close_menu == (key == UiKey::CtrlC),
            !quit ==> final(self).tab_selected.position() == match key {
                UiKey::Left => if old(self).tab_selected.position() > 0 {
                    (old(self).tab_selected.position() - 1) as nat
                } else {
                    0
                },
                UiKey::Right => if old(self).tab_selected.position() < 2 {
                    old(self).tab_selected.position() + 1
                } else {
                    2
                },
                _ => old(self).tab_selected.position(),
            },
    {
        if key == UiKey::CtrlC {
            if self.close_menu {
                return true;
            }
            self.close_menu = true;
        } else {
            self.close_menu = false;
        }
        if key == UiKey::Left {
            self.tab_selected.previous();
        }
        if key == UiKey::Right {
            self.tab_selected.next();
        }
        false
    }
}

/// Where the chart's window starts in a history of `len` data points: the
/// last `FLAGS_DATAPOINT_COUNT` of them are shown.
pub fn window_start(len: usize) -> (r: usize)
    ensures
        r == if len > FLAGS_DATAPOINT_COUNT {
            len - FLAGS_DATAPOINT_COUNT
        } else {
            0
        },
{
    if len > FLAGS_DATAPOINT_COUNT {
        len - FLAGS_DATAPOINT_COUNT
    } else {
        0
    }
}

/// The three shares, in percent, that centre a box of `percent` percent:
/// the margin, the box and the margin.
pub fn centered_shares(percent: u16) -> (r: (u16, u16, u16))
    requires
        percent <= 100,
    ensures
        r.0 == (100 - percent) / 2,
        r.1 == percent,
        r.2 == r.0,
{
    let margin = (100 - percent) / 2;
    (margin, percent, margin)
}

} // verus!
