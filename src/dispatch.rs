use vstd::prelude::*;

verus! {

/// Where the "report an issue" menu item leads.
pub const ISSUES_URL: &'static str = "https://github.com/zawalid/watchfolio/issues";

/// What the user interface is to do for a menu, tray or shortcut activation.
#[derive(PartialEq, Eq, Clone, Copy, Debug)]
pub enum UiCommand {
    /// Send `event` to the main window, with `payload` when there is one.
    Emit { event: &'static str, payload: Option<&'static str> },
    /// Show and focus the main window, then send `event` to it.
    ShowAndEmit { event: &'static str, payload: Option<&'static str> },
    /// Hide the main window when it is visible, else show and focus it.
    ToggleVisibility,
    /// Flip the main window's fullscreen state.
    ToggleFullscreen,
    /// Reload the page shown in the main window.
    Reload,
    /// Open this address in the default browser.
    OpenUrl(&'static str),
    /// Exit the application.
    Exit,
    /// Do nothing: the identifier is not known.
    Ignore,
}

/// What to do with the main window when its visibility is toggled.
#[derive(PartialEq, Eq, Structural, Clone, Copy, Debug)]
pub enum VisibilityChange {
    Hide,
    ShowAndFocus,
}

fn id_is(id: &String, name: &str) -> (r: bool)
    ensures
        r == (id@ == name@),
{
    *id == String::from_str(name)
}

/// The command bound to each item of the application menu.
pub open spec fn menu_command_of(id: Seq<char>) -> UiCommand {
    if id == "quick_add"@ {
        UiCommand::Emit { event: "menu:quick-add", payload: None }
    } else if id == "sync"@ {
        UiCommand::Emit { event: "menu:sync", payload: None }
    } else if id == "import"@ {
        UiCommand::Emit { event: "menu:import-export", payload: Some("import") }
    } else if id == "export"@ {
        UiCommand::Emit { event: "menu:import-export", payload: Some("export") }
    } else if id == "preferences"@ {
        UiCommand::Emit { event: "menu:preferences", payload: None }
    } else if id == "quit"@ {
        UiCommand::Exit
    } else if id == "toggle_sidebar"@ {
        UiCommand::Emit { event: "menu:toggle-sidebar", payload: None }
    } else if id == "toggle_filters"@ {
        UiCommand::Emit { event: "menu:toggle-filters", payload: None }
    } else if id == "reload"@ {
        UiCommand::Reload
    } else if id == "toggle_fullscreen"@ {
        UiCommand::ToggleFullscreen
    } else if id == "library_all"@ {
        UiCommand::Emit { event: "menu:navigate", payload: Some("/library/all") }
    } else if id == "library_watching"@ {
        UiCommand::Emit { event: "menu:navigate", payload: Some("/library/watching") }
    } else if id == "library_completed"@ {
        UiCommand::Emit { event: "menu:navigate", payload: Some("/library/completed") }
    } else if id == "library_plan"@ {
        UiCommand::Emit { event: "menu:navigate", payload: Some("/library/plan-to-watch") }
    } else if id == "library_hold"@ {
        UiCommand::Emit { event: "menu:navigate", payload: Some("/library/on-hold") }
    } else if id == "library_dropped"@ {
        UiCommand::Emit { event: "menu:navigate", payload: Some("/library/dropped") }
    } else if id == "library_stats"@ {
        UiCommand::Emit { event: "menu:library-stats", payload: None }
    } else if id == "library_settings"@ {
        UiCommand::Emit { event: "menu:navigate", payload: Some("/settings/library") }
    } else if id == "library_clear"@ {
        UiCommand::Emit { event: "menu:library-clear", payload: None }
    } else if id == "go_home"@ {
        UiCommand::Emit { event: "menu:navigate", payload: Some("/home") }
    } else if id == "go_library"@ {
        UiCommand::Emit { event: "menu:navigate", payload: Some("/library/all") }
    } else if id == "go_movies"@ {
        UiCommand::Emit { event: "menu:navigate", payload: Some("/movies") }
    } else if id == "go_tv"@ {
        UiCommand::Emit { event: "menu:navigate", payload: Some("/tv") }
    } else if id == "go_search"@ {
        UiCommand::Emit { event: "menu:navigate", payload: Some("/search") }
    } else if id == "go_mood"@ {
        UiCommand::Emit { event: "menu:navigate", payload: Some("/mood-match") }
    } else if id == "go_collections"@ {
        UiCommand::Emit { event: "menu:navigate", payload: Some("/collections") }
    } else if id == "go_celebrities"@ {
        UiCommand::Emit { event: "menu:navigate", payload: Some("/celebrities") }
    } else if id == "go_networks"@ {
        UiCommand::Emit { event: "menu:navigate", payload: Some("/networks") }
    } else if id == "go_back"@ {
        UiCommand::Emit { event: "menu:go-back", payload: None }
    } else if id == "go_forward"@ {
        UiCommand::Emit { event: "menu:go-forward", payload: None }
    } else if id == "keyboard_shortcuts"@ {
        UiCommand::Emit { event: "menu:keyboard-shortcuts", payload: None }
    } else if id == "report_issue"@ {
        UiCommand::OpenUrl(ISSUES_URL)
    } else if id == "check_updates"@ {
        UiCommand::Emit { event: "menu:check-updates", payload: None }
    } else if id == "about"@ {
        UiCommand::Emit { event: "menu:about", payload: None }
    } else {
        UiCommand::Ignore
    }
}

/// The command bound to each item of the tray menu.
pub open spec fn tray_command_of(id: Seq<char>) -> UiCommand {
    if id == "show_hide"@ {
        UiCommand::ToggleVisibility
    } else if id == "quick_add"@ {
        UiCommand::ShowAndEmit { event: "tray:quick-add", payload: None }
    } else if id == "search"@ {
        UiCommand::ShowAndEmit { event: "tray:navigate", payload: Some("/search") }
    } else if id == "library"@ {
        UiCommand::ShowAndEmit { event: "tray:navigate", payload: Some("/library") }
    } else if id == "discover"@ {
        UiCommand::ShowAndEmit { event: "tray:navigate", payload: Some("/home") }
    } else if id == "statistics"@ {
        UiCommand::Emit { event: "tray:statistics", payload: None }
    } else if id == "mark_watching"@ {
        UiCommand::ShowAndEmit { event: "tray:navigate", payload: Some("/library/watching") }
    } else if id == "mark_completed"@ {
        UiCommand::ShowAndEmit { event: "tray:navigate", payload: Some("/library/completed") }
    } else if id == "mark_plan"@ {
        UiCommand::ShowAndEmit { event: "tray:navigate", payload: Some("/library/will-watch") }
    } else if id == "mark_on_hold"@ {
        UiCommand::ShowAndEmit { event: "tray:navigate", payload: Some("/library/on-hold") }
    } else if id == "mark_dropped"@ {
        UiCommand::ShowAndEmit { event: "tray:navigate", payload: Some("/library/dropped") }
    } else if id == "sync_now"@ {
        UiCommand::Emit { event: "tray:sync-now", payload: None }
    } else if id == "preferences"@ {
        UiCommand::ShowAndEmit { event: "tray:navigate", payload: Some("/settings/preferences") }
    } else if id == "quit"@ {
        UiCommand::Exit
    } else {
        UiCommand::Ignore
    }
}

/// Decides what an activation of the application menu item `id` does.
pub fn handle_menu_event(id: &String) -> (r: UiCommand)
    ensures
        r == menu_command_of(id@),
{
    if id_is(id, "quick_add") {
        UiCommand::Emit { event: "menu:quick-add", payload: None }
    } else if id_is(id, "sync") {
        UiCommand::Emit { event: "menu:sync", payload: None }
    } else if id_is(id, "import") {
        UiCommand::Emit { event: "menu:import-export", payload: Some("import") }
    } else if id_is(id, "export") {
        UiCommand::Emit { event: "menu:import-export", payload: Some("export") }
    } else if id_is(id, "preferences") {
        UiCommand::Emit { event: "menu:preferences", payload: None }
    } else if id_is(id, "quit") {
        UiCommand::Exit
    } else if id_is(id, "toggle_sidebar") {
        UiCommand::Emit { event: "menu:toggle-sidebar", payload: None }
    } else if id_is(id, "toggle_filters") {
        UiCommand::Emit { event: "menu:toggle-filters", payload: None }
    } else if id_is(id, "reload") {
        UiCommand::Reload
    } else if id_is(id, "toggle_fullscreen") {
        UiCommand::ToggleFullscreen
    } else if id_is(id, "library_all") {
        UiCommand::Emit { event: "menu:navigate", payload: Some("/library/all") }
    } else if id_is(id, "library_watching") {
        UiCommand::Emit { event: "menu:navigate", payload: Some("/library/watching") }
    } else if id_is(id, "library_completed") {
        UiCommand::Emit { event: "menu:navigate", payload: Some("/library/completed") }
    } else if id_is(id, "library_plan") {
        UiCommand::Emit { event: "menu:navigate", payload: Some("/library/plan-to-watch") }
    } else if id_is(id, "library_hold") {
        UiCommand::Emit { event: "menu:navigate", payload: Some("/library/on-hold") }
    } else if id_is(id, "library_dropped") {
        UiCommand::Emit { event: "menu:navigate", payload: Some("/library/dropped") }
    } else if id_is(id, "library_stats") {
        UiCommand::Emit { event: "menu:library-stats", payload: None }
    } else if id_is(id, "library_settings") {
        UiCommand::Emit { event: "menu:navigate", payload: Some("/settings/library") }
    } else if id_is(id, "library_clear") {
        UiCommand::Emit { event: "menu:library-clear", payload: None }
    } else if id_is(id, "go_home") {
        UiCommand::Emit { event: "menu:navigate", payload: Some("/home") }
    } else if id_is(id, "go_library") {
        UiCommand::Emit { event: "menu:navigate", payload: Some("/library/all") }
    } else if id_is(id, "go_movies") {
        UiCommand::Emit { event: "menu:navigate", payload: Some("/movies") }
    } else if id_is(id, "go_tv") {
        UiCommand::Emit { event: "menu:navigate", payload: Some("/tv") }
    } else if id_is(id, "go_search") {
        UiCommand::Emit { event: "menu:navigate", payload: Some("/search") }
    } else if id_is(id, "go_mood") {
        UiCommand::Emit { event: "menu:navigate", payload: Some("/mood-match") }
    } else if id_is(id, "go_collections") {
        UiCommand::Emit { event: "menu:navigate", payload: Some("/collections") }
    } else if id_is(id, "go_celebrities") {
        UiCommand::Emit { event: "menu:navigate", payload: Some("/celebrities") }
    } else if id_is(id, "go_networks") {
        UiCommand::Emit { event: "menu:navigate", payload: Some("/networks") }
    } else if id_is(id, "go_back") {
        UiCommand::Emit { event: "menu:go-back", payload: None }
    } else if id_is(id, "go_forward") {
        UiCommand::Emit { event: "menu:go-forward", payload: None }
    } else if id_is(id, "keyboard_shortcuts") {
        UiCommand::Emit { event: "menu:keyboard-shortcuts", payload: None }
    } else if id_is(id, "report_issue") {
        UiCommand::OpenUrl(ISSUES_URL)
    } else if id_is(id, "check_updates") {
        UiCommand::Emit { event: "menu:check-updates", payload: None }
    } else if id_is(id, "about") {
        UiCommand::Emit { event: "menu:about", payload: None }
    } else {
        UiCommand::Ignore
    }
}

/// Decides what an activation of the tray menu item `id` does.
pub fn handle_tray_event(id: &String) -> (r: UiCommand)
    ensures
        r == tray_command_of(id@),
{
    if id_is(id, "show_hide") {
        UiCommand::ToggleVisibility
    } else if id_is(id, "quick_add") {
        UiCommand::ShowAndEmit { event: "tray:quick-add", payload: None }
    } else if id_is(id, "search") {
        UiCommand::ShowAndEmit { event: "tray:navigate", payload: Some("/search") }
    } else if id_is(id, "library") {
        UiCommand::ShowAndEmit { event: "tray:navigate", payload: Some("/library") }
    } else if id_is(id, "discover") {
        UiCommand::ShowAndEmit { event: "tray:navigate", payload: Some("/home") }
    } else if id_is(id, "statistics") {
        UiCommand::Emit { event: "tray:statistics", payload: None }
    } else if id_is(id, "mark_watching") {
        UiCommand::ShowAndEmit { event: "tray:navigate", payload: Some("/library/watching") }
    } else if id_is(id, "mark_completed") {
        UiCommand::ShowAndEmit { event: "tray:navigate", payload: Some("/library/completed") }
    } else if id_is(id, "mark_plan") {
        UiCommand::ShowAndEmit { event: "tray:navigate", payload: Some("/library/will-watch") }
    } else if id_is(id, "mark_on_hold") {
        UiCommand::ShowAndEmit { event: "tray:navigate", payload: Some("/library/on-hold") }
    } else if id_is(id, "mark_dropped") {
        UiCommand::ShowAndEmit { event: "tray:navigate", payload: Some("/library/dropped") }
    } else if id_is(id, "sync_now") {
        UiCommand::Emit { event: "tray:sync-now", payload: None }
    } else if id_is(id, "preferences") {
        UiCommand::ShowAndEmit { event: "tray:navigate", payload: Some("/settings/preferences") }
    } else if id_is(id, "quit") {
        UiCommand::Exit
    } else {
        UiCommand::Ignore
    }
}

/// Decides a visibility toggle (tray click, tray item or global shortcut): a
/// visible window is hidden, a hidden one shown and focused.
pub fn toggle_visibility(visible: bool) -> (r: VisibilityChange)
    ensures
        visible ==> r == VisibilityChange::Hide,
        !visible ==> r == VisibilityChange::ShowAndFocus,
{
    if visible {
        VisibilityChange::Hide
    } else {
        VisibilityChange::ShowAndFocus
    }
}

} // verus!
