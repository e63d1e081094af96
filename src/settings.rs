use vstd::prelude::*;

verus! {

/// The value the keep-running flag has before anything sets it.
pub const DEFAULT_KEEP_RUNNING: bool = true;

/// Process-wide runtime settings, owned by the application context.
///
/// The application shares one value behind a lock and takes that lock for
/// exactly one `get` or `set`.
#[derive(Clone, Debug, PartialEq, Eq)]
pub struct SystemSettings {
    pub keep_running_in_background: bool,
}

impl SystemSettings {
    /// The settings as they are at startup.
    pub fn new() -> (r: SystemSettings)
        ensures
            startup_post(r),
    {
        SystemSettings { keep_running_in_background: DEFAULT_KEEP_RUNNING }
    }

    /// Replaces the flag. Never fails.
    pub fn set(&mut self, enabled: bool)
        ensures
            set_post(*old(self), *final(self), enabled),
    {
        self.keep_running_in_background = enabled;
    }

    /// The current flag.
    pub fn get(&self) -> (r: bool)
        ensures
            get_post(*self, r),
    {
        self.keep_running_in_background
    }
}

impl Default for SystemSettings {
    fn default() -> (r: SystemSettings)
        ensures
            startup_post(r),
    {
        SystemSettings::new()
    }
}

/// What holds of the settings created at startup.
pub open spec fn startup_post(s: SystemSettings) -> bool {
    s.keep_running_in_background == DEFAULT_KEEP_RUNNING
}

/// What holds after `set(enabled)` turned `before` into `after`: the flag is
/// replaced, whatever it was.
pub open spec fn set_post(before: SystemSettings, after: SystemSettings, enabled: bool) -> bool {
    after.keep_running_in_background == enabled
}

/// What holds of a `get` on `s` that returned `r`.
pub open spec fn get_post(s: SystemSettings, r: bool) -> bool {
    r == s.keep_running_in_background
}

/// What the close handler reads: the stored flag, or the default when the
/// settings do not exist yet.
pub open spec fn effective_flag(settings: Option<SystemSettings>) -> bool {
    match settings {
        Some(s) => s.keep_running_in_background,
        None => DEFAULT_KEEP_RUNNING,
    }
}

/// The settings behind an optional reference, as a value.
pub open spec fn settings_value(settings: Option<&SystemSettings>) -> Option<SystemSettings> {
    match settings {
        Some(s) => Some(*s),
        None => None,
    }
}

/// Command handler: stores `enabled` as the keep-running flag. Never fails.
pub fn set_keep_running_in_background(settings: &mut SystemSettings, enabled: bool) -> (r: Result<(), String>)
    ensures
        r is Ok,
        set_post(*old(settings), *final(settings), enabled),
{
    settings.set(enabled);
    Ok(())
}

/// Command handler: the current keep-running flag.
pub fn get_keep_running_in_background(settings: &SystemSettings) -> (r: bool)
    ensures
        get_post(*settings, r),
{
    settings.get()
}

/// The flag as the window-close handler sees it: the stored value when the
/// settings exist, else the startup default.
pub fn should_keep_running(settings: Option<&SystemSettings>) -> (r: bool)
    ensures
        r == effective_flag(settings_value(settings)),
{
    match settings {
        Some(s) => s.get(),
        None => DEFAULT_KEEP_RUNNING,
    }
}

/// A `get` that follows a `set(v)`, with no write between them, returns `v`.
pub proof fn lemma_get_after_set(before: SystemSettings, after: SystemSettings, v: bool, r: bool)
    requires
        set_post(before, after, v),
        get_post(after, r),
    ensures
        r == v,
{
}

/// Before any `set`, a `get` returns `true`: on the settings made at startup,
/// and through the default that stands in while the settings do not exist.
pub proof fn lemma_get_before_set(s: SystemSettings, r: bool)
    requires
        startup_post(s),
        get_post(s, r),
    ensures
        r == true,
        effective_flag(None) == true,
{
}

} // verus!
