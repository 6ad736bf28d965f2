//! Window, tray and app-lifecycle decisions: the dashboard's label, the tray
//! menu's item ids, keeping the app alive when only the dashboard closes,
//! and finding a deep link among a second instance's arguments.

use vstd::prelude::*;

use crate::text::{chars_of, chars_start_with, starts_with_spec, str_eq};

verus! {

/// Labels of the app's windows.
#[derive(Debug, Clone, Copy, PartialEq, Eq, Structural)]
pub enum WindowLabel {
    Dashboard,
}

pub open spec fn window_label_name(l: WindowLabel) -> Seq<char> {
    match l {
        WindowLabel::Dashboard => "Dashboard"@,
    }
}

impl WindowLabel {
    /// The window's label (Pascal case).
    pub fn as_str(&self) -> (r: &'static str)
        ensures
            r@ == window_label_name(*self),
    {
        match self {
            WindowLabel::Dashboard => "Dashboard",
        }
    }
}

/// Ids of the tray menu's items.
#[derive(Debug, Clone, Copy, PartialEq, Eq, Structural)]
pub enum MenuItemId {
    DisplayDashboard,
    Restart,
    Quit,
    AppVersion,
}

pub open spec fn menu_item_name(m: MenuItemId) -> Seq<char> {
    match m {
        MenuItemId::DisplayDashboard => "DisplayDashboard"@,
        MenuItemId::Restart => "Restart"@,
        MenuItemId::Quit => "Quit"@,
        MenuItemId::AppVersion => "AppVersion"@,
    }
}

pub open spec fn menu_item_from_id_spec(id: Seq<char>) -> Option<MenuItemId> {
    if id == "DisplayDashboard"@ {
        Some(MenuItemId::DisplayDashboard)
    } else if id == "Restart"@ {
        Some(MenuItemId::Restart)
    } else if id == "Quit"@ {
        Some(MenuItemId::Quit)
    } else if id == "AppVersion"@ {
        Some(MenuItemId::AppVersion)
    } else {
        None
    }
}

impl MenuItemId {
    /// The item's id.
    pub fn as_str(&self) -> (r: &'static str)
        ensures
            r@ == menu_item_name(*self),
    {
        match self {
            MenuItemId::DisplayDashboard => "DisplayDashboard",
            MenuItemId::Restart => "Restart",
            MenuItemId::Quit => "Quit",
            MenuItemId::AppVersion => "AppVersion",
        }
    }

    /// The item an id names; other ids are ignored.
    pub fn from_id(id: &str) -> (r: Option<MenuItemId>)
        ensures
            r == menu_item_from_id_spec(id@),
    {
        if str_eq(id, "DisplayDashboard") {
            Some(MenuItemId::DisplayDashboard)
        } else if str_eq(id, "Restart") {
            Some(MenuItemId::Restart)
        } else if str_eq(id, "Quit") {
            Some(MenuItemId::Quit)
        } else if str_eq(id, "AppVersion") {
            Some(MenuItemId::AppVersion)
        } else {
            None
        }
    }
}

/// Reading back a menu item's id gives the item.
pub proof fn lemma_menu_item_id_round_trip(m: MenuItemId)
    ensures
        menu_item_from_id_spec(menu_item_name(m)) == Some(m),
{
    reveal_strlit("DisplayDashboard");
    reveal_strlit("Restart");
    reveal_strlit("Quit");
    reveal_strlit("AppVersion");
    assert("DisplayDashboard"@.len() == 16 && "Restart"@.len() == 7 && "Quit"@.len() == 4 && "AppVersion"@.len() == 10);
}

/// A window asked to close: remember it when it is the dashboard, so that
/// the exit request that follows keeps the app running in the tray.
pub fn on_close_requested(dashboard_close_requested: bool, label: &str) -> (r: bool)
    ensures
        r == (dashboard_close_requested || label@ == window_label_name(WindowLabel::Dashboard)),
{
    dashboard_close_requested || str_eq(label, WindowLabel::Dashboard.as_str())
}

/// The app asked to exit: an exit without an explicit code right after the
/// dashboard closed is prevented (the app stays in the tray) and the flag is
/// cleared. Returns the new flag and whether to prevent the exit.
pub fn on_exit_requested(dashboard_close_requested: bool, has_exit_code: bool) -> (r: (bool, bool))
    ensures
        !has_exit_code && dashboard_close_requested ==> r == (false, true),
        has_exit_code || !dashboard_close_requested ==> r == (dashboard_close_requested, false),
{
    if !has_exit_code && dashboard_close_requested {
        (false, true)
    } else {
        (dashboard_close_requested, false)
    }
}

/// The deep-link scheme of the app.
pub const DEEP_LINK_PREFIX: &'static str = "keyecho://";

/// The position of the first argument that is a `keyecho://` link.
pub fn find_deep_link(args: &[String]) -> (r: Option<usize>)
    ensures
        match r {
            Some(i) => i < args@.len() && starts_with_spec(args@[i as int]@, DEEP_LINK_PREFIX@)
                && forall|j: int| 0 <= j < i ==> !starts_with_spec(#[trigger] args@[j]@, DEEP_LINK_PREFIX@),
            None => forall|j: int| 0 <= j < args@.len() ==> !starts_with_spec(#[trigger] args@[j]@, DEEP_LINK_PREFIX@),
        },
{
    let prefix = chars_of(DEEP_LINK_PREFIX);
    let mut i: usize = 0;
    while i < args.len()
        invariant
            prefix@ == DEEP_LINK_PREFIX@,
            i <= args@.len(),
            forall|j: int| 0 <= j < i ==> !starts_with_spec(#[trigger] args@[j]@, DEEP_LINK_PREFIX@),
        decreases args@.len() - i,
    {
        let arg = chars_of(args[i].as_str());
        if chars_start_with(arg.as_slice(), prefix.as_slice()) {
            return Some(i);
        }
        i += 1;
    }
    None
}

} // verus!
