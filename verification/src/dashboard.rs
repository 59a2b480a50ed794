//! Layout decisions of the terminal dashboard.
//!
//! The drawing itself is presentation and lives with the process entry
//! point; the library fixes the layout choices: when the dashboard falls
//! back to its compact, vertically stacked mode.

use vstd::prelude::*;

verus! {

/// Layout settings of the dashboard.
#[derive(Debug, Clone, PartialEq)]
pub struct LayoutConfig {
    /// Stack the panels vertically for small terminals.
    pub compact_mode: bool,
    /// Show the help footer.
    pub show_help: bool,
    /// Terminal width in cells.
    pub terminal_width: u16,
    /// Terminal height in cells.
    pub terminal_height: u16,
}

impl Default for LayoutConfig {
    /// A roomy terminal: no compact mode, help shown, 120 by 40 cells.
    fn default() -> (r: LayoutConfig)
        ensures
            !r.compact_mode,
            r.show_help,
            r.terminal_width == 120,
            r.terminal_height == 40,
    {
        LayoutConfig {
            compact_mode: false,
            show_help: true,
            terminal_width: 120,
            terminal_height: 40,
        }
    }
}

impl LayoutConfig {
    /// Size the layout for a terminal: compact exactly when the terminal is
    /// narrower than 80 cells or shorter than 24.
    pub fn from_terminal_size(width: u16, height: u16) -> (r: LayoutConfig)
        ensures
            r.compact_mode == (width < 80 || height < 24),
            r.show_help,
            r.terminal_width == width,
            r.terminal_height == height,
    {
        let compact_mode = width < 80 || height < 24;
        LayoutConfig { compact_mode, show_help: true, terminal_width: width, terminal_height: height }
    }

    /// Whether the layout is in compact mode.
    pub fn is_compact(&self) -> (r: bool)
        ensures
            r == self.compact_mode,
    {
        self.compact_mode
    }
}

/// The dashboard's layout manager.
pub struct DashboardLayout {
    /// The layout settings in force.
    pub config: LayoutConfig,
}

impl DashboardLayout {
    /// A layout manager over the given settings.
    pub fn new(config: LayoutConfig) -> (r: DashboardLayout)
        ensures
            r.config == config,
    {
        DashboardLayout { config }
    }

    /// A layout manager over the default settings.
    pub fn default_config() -> (r: DashboardLayout)
        ensures
            !r.config.compact_mode,
            r.config.show_help,
            r.config.terminal_width == 120,
            r.config.terminal_height == 40,
    {
        Self::new(LayoutConfig::default())
    }

    /// A layout manager sized for a terminal.
    pub fn from_terminal_size(width: u16, height: u16) -> (r: DashboardLayout)
        ensures
            r.config.compact_mode == (width < 80 || height < 24),
            r.config.terminal_width == width,
            r.config.terminal_height == height,
    {
        Self::new(LayoutConfig::from_terminal_size(width, height))
    }
}

/// What the operator asked the dashboard to do.
#[derive(Debug, Clone, Copy, PartialEq, Eq, Structural)]
pub enum UserAction {
    /// Quit the application.
    Quit,
    /// Pause trading.
    Pause,
    /// Resume trading.
    Resume,
    /// Show help.
    Help,
    /// No action.
    Idle,
}

} // verus!
