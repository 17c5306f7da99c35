//! The settings of a packaging run and the checks made on them.
use crate::error::NatyError;
use crate::platform::Platform;
use vstd::prelude::*;

verus! {

/// Default window height in pixels.
pub fn def_height() -> (r: u32)
    ensures
        r == 800,
{
    800
}

/// Default window width in pixels.
pub fn def_width() -> (r: u32)
    ensures
        r == 1280,
{
    1280
}

/// The value of the switches that are off unless asked for.
pub fn def_false() -> (r: bool)
    ensures
        r == false,
{
    false
}

/// The value of the switches that are on unless turned off.
pub fn def_true() -> (r: bool)
    ensures
        r == true,
{
    true
}

/// Where Linux desktop entries go unless another place is named.
pub open spec fn default_desktop_entry_path() -> Seq<char> {
    "~/.local/share/applications"@
}

/// The default place for Linux desktop entries.
pub fn def_desktop_entry_path() -> (r: String)
    ensures
        r@ == default_desktop_entry_path(),
{
    "~/.local/share/applications".to_owned()
}

/// Everything a packaging run is told.
#[derive(Debug)]
pub struct AppSettings {
    /// The address to turn into a native app.
    pub target_url: String,
    /// The directory in which the bundles are made.
    pub output_dir: String,
    /// Title of the app; derived from the address when absent.
    pub name: Option<String>,
    /// The operating systems to build for.
    pub platforms: Vec<Platform>,
    /// Icon of the app: a path to a local file or a URL.
    pub icon: Option<String>,
    /// Keep the window above the others.
    pub always_on_top: bool,
    /// Start the app in full screen.
    pub full_screen: bool,
    /// Window height in pixels.
    pub height: u32,
    /// Window width in pixels.
    pub width: u32,
    /// Draw no window frame or controls.
    pub hide_window_frame: bool,
    /// Show a menu bar.
    pub show_menu_bar: bool,
    /// Largest window width in pixels.
    pub max_width: u32,
    /// Largest window height in pixels.
    pub max_height: u32,
    /// Smallest window width in pixels.
    pub min_width: u32,
    /// Smallest window height in pixels.
    pub min_height: u32,
    /// Command run before the window opens, on Linux.
    pub linux_command: Option<String>,
    /// Command run before the window opens, on Windows.
    pub windows_command: Option<String>,
    /// Command run before the window opens, on macOS.
    pub macos_command: Option<String>,
    /// Linux: make no desktop entry.
    pub no_desktop: bool,
    /// Linux: where the desktop entry is made.
    pub desktop_entry_path: String,
}

/// The start-up command configured for a platform.
pub open spec fn command_override(s: AppSettings, p: Platform) -> Option<String> {
    match p {
        Platform::Linux => s.linux_command,
        Platform::Windows => s.windows_command,
        Platform::MacOs => s.macos_command,
    }
}

/// Whether an option that only concerns `p` was given.
pub open spec fn has_specific_option(s: AppSettings, p: Platform) -> bool {
    match p {
        Platform::Linux => s.linux_command is Some || s.no_desktop || s.desktop_entry_path@
            != default_desktop_entry_path(),
        Platform::Windows => s.windows_command is Some,
        Platform::MacOs => s.macos_command is Some,
    }
}

/// Whether `p` has a specific option although it is not among `targets`.
pub open spec fn option_without_target(s: AppSettings, targets: Seq<Platform>, p: Platform) -> bool {
    has_specific_option(s, p) && !targets.contains(p)
}

/// The first platform, in the order Linux, Windows, macOS, that has a specific
/// option but is not a target.
pub open spec fn first_mismatch(s: AppSettings, targets: Seq<Platform>) -> Option<Platform> {
    if option_without_target(s, targets, Platform::Linux) {
        Some(Platform::Linux)
    } else if option_without_target(s, targets, Platform::Windows) {
        Some(Platform::Windows)
    } else if option_without_target(s, targets, Platform::MacOs) {
        Some(Platform::MacOs)
    } else {
        None
    }
}

fn targets_hold(targets: &Vec<Platform>, p: Platform) -> (r: bool)
    ensures
        r == targets@.contains(p),
{
    let mut i: usize = 0;
    while i < targets.len()
        invariant
            i <= targets.len(),
            forall|k: int| 0 <= k < i ==> targets@[k] != p,
        decreases targets.len() - i,
    {
        if targets[i] == p {
            return true;
        }
        i = i + 1;
    }
    false
}

/// A copy of an optional string.
pub fn copy_opt(o: &Option<String>) -> (r: Option<String>)
    ensures
        r == *o,
{
    match o {
        Some(s) => Some(s.clone()),
        None => None,
    }
}

impl AppSettings {
    /// Settings for `target_url` with every other option at its default.
    pub fn new(target_url: String) -> (r: AppSettings)
        ensures
            r.target_url == target_url,
            r.output_dir@ == "."@,
            r.name is None,
            r.platforms@.len() == 0,
            r.icon is None,
            !r.always_on_top && !r.full_screen && !r.hide_window_frame && !r.show_menu_bar,
            r.height == 800 && r.width == 1280,
            r.max_width == u32::MAX && r.max_height == u32::MAX,
            r.min_width == 0 && r.min_height == 0,
            r.linux_command is None && r.windows_command is None && r.macos_command is None,
            !r.no_desktop,
            r.desktop_entry_path@ == default_desktop_entry_path(),
    {
        AppSettings {
            target_url,
            output_dir: ".".to_owned(),
            name: None,
            platforms: Vec::new(),
            icon: None,
            always_on_top: def_false(),
            full_screen: def_false(),
            height: def_height(),
            width: def_width(),
            hide_window_frame: def_false(),
            show_menu_bar: def_false(),
            max_width: u32::MAX,
            max_height: u32::MAX,
            min_width: u32::MIN,
            min_height: u32::MIN,
            linux_command: None,
            windows_command: None,
            macos_command: None,
            no_desktop: def_false(),
            desktop_entry_path: def_desktop_entry_path(),
        }
    }

    /// The start-up command of the bundle for `p`: the override configured
    /// for `p`, or none.
    pub fn command_for(&self, p: Platform) -> (r: Option<String>)
        ensures
            r == command_override(*self, p),
    {
        match p {
            Platform::Linux => copy_opt(&self.linux_command),
            Platform::Windows => copy_opt(&self.windows_command),
            Platform::MacOs => copy_opt(&self.macos_command),
        }
    }

    /// Whether an option that only concerns `p` was given.
    pub fn has_specific_option(&self, p: Platform) -> (r: bool)
        ensures
            r == has_specific_option(*self, p),
    {
        match p {
            Platform::Linux => self.linux_command.is_some() || self.no_desktop
                || self.desktop_entry_path != def_desktop_entry_path(),
            Platform::Windows => self.windows_command.is_some(),
            Platform::MacOs => self.macos_command.is_some(),
        }
    }

    /// Refuses an option that only concerns a platform that is not among
    /// `targets`, naming the first such platform.
    pub fn check_platform_options(&self, targets: &Vec<Platform>) -> (r: Result<(), NatyError>)
        ensures
            r is Ok <==> first_mismatch(*self, targets@) is None,
            r matches Err(e) ==> first_mismatch(*self, targets@) matches Some(p)
                && e == NatyError::PlatformOptionMismatch(p),
    {
        if self.has_specific_option(Platform::Linux) && !targets_hold(targets, Platform::Linux) {
            return Err(NatyError::PlatformOptionMismatch(Platform::Linux));
        }
        if self.has_specific_option(Platform::Windows) && !targets_hold(targets, Platform::Windows) {
            return Err(NatyError::PlatformOptionMismatch(Platform::Windows));
        }
        if self.has_specific_option(Platform::MacOs) && !targets_hold(targets, Platform::MacOs) {
            return Err(NatyError::PlatformOptionMismatch(Platform::MacOs));
        }
        Ok(())
    }
}

} // verus!
