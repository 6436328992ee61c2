//! Commands that may only be used in the configuration file.
use vstd::prelude::*;
use vstd::string::StringExecFns;

use crate::render::{separated, spec_join, spec_opt_render, spec_renders, to_string_or_empty,
    Render};

verus! {

/// A command that is only valid in the configuration file.
pub enum ConfigCommand {
    /// A bar block: an optional bar id followed by its subcommands.
    Bar(Option<String>, Vec<String>),
    /// Sets the default container layout for tiled containers.
    DefaultOrientation(DefaultOrientation),
    /// Includes another file from path. The path can be either a full path
    /// or a path relative to the parent config. The same include file can
    /// only be included once; subsequent attempts are ignored.
    Include(String),
    /// Executes a custom background command. Default is swaybg.
    ///
    /// It can be disabled by setting the command to a single dash.
    SwaybgCommand(String),
    /// Executes a custom command for swaynag. Default is swaynag.
    ///
    /// It can be disabled by setting the command to a single dash.
    SwaynagCommand(String),
    /// Specifies the initial layout for new containers in an empty
    /// workspace.
    WorkspaceLayout(WorkspaceLayout),
    /// Enables or disables Xwayland support, which allows X11 applications
    /// to be used. With force, Xwayland is started immediately instead of
    /// lazily on the first client.
    Xwayland(Xwayland),
}

impl Render for ConfigCommand {
    open spec fn spec_render(&self) -> Seq<char> {
        match self {
            ConfigCommand::Bar(id, subcommands) => "bar "@ + spec_opt_render(*id) + " "@
                + spec_join(spec_renders(subcommands@), " "@),
            ConfigCommand::DefaultOrientation(v) => "default_orientation "@ + v.spec_render(),
            ConfigCommand::Include(path) => "include "@ + path@,
            ConfigCommand::SwaybgCommand(command) => "swaybg_command "@ + command@,
            ConfigCommand::SwaynagCommand(command) => "swaynag_command "@ + command@,
            ConfigCommand::WorkspaceLayout(v) => "workspace_layout "@ + v.spec_render(),
            ConfigCommand::Xwayland(v) => "xwayland "@ + v.spec_render(),
        }
    }

    fn render(&self) -> (r: String) {
        match self {
            ConfigCommand::Bar(id, subcommands) => {
                let mut r = "bar ".to_owned();
                r.append(to_string_or_empty(id).as_str());
                r.append(" ");
                r.append(separated(subcommands, " ").as_str());
                r
            },
            ConfigCommand::DefaultOrientation(v) => {
                let mut r = "default_orientation ".to_owned();
                r.append(v.render().as_str());
                r
            },
            ConfigCommand::Include(path) => {
                let mut r = "include ".to_owned();
                r.append(path.as_str());
                r
            },
            ConfigCommand::SwaybgCommand(command) => {
                let mut r = "swaybg_command ".to_owned();
                r.append(command.as_str());
                r
            },
            ConfigCommand::SwaynagCommand(command) => {
                let mut r = "swaynag_command ".to_owned();
                r.append(command.as_str());
                r
            },
            ConfigCommand::WorkspaceLayout(v) => {
                let mut r = "workspace_layout ".to_owned();
                r.append(v.render().as_str());
                r
            },
            ConfigCommand::Xwayland(v) => {
                let mut r = "xwayland ".to_owned();
                r.append(v.render().as_str());
                r
            },
        }
    }
}

/// The default container layout for tiled containers.
pub enum DefaultOrientation {
    Horizontal,
    Vertical,
    Auto,
}

impl Render for DefaultOrientation {
    open spec fn spec_render(&self) -> Seq<char> {
        match self {
            DefaultOrientation::Horizontal => "horizontal"@,
            DefaultOrientation::Vertical => "vertical"@,
            DefaultOrientation::Auto => "auto"@,
        }
    }

    fn render(&self) -> (r: String) {
        match self {
            DefaultOrientation::Horizontal => "horizontal".to_owned(),
            DefaultOrientation::Vertical => "vertical".to_owned(),
            DefaultOrientation::Auto => "auto".to_owned(),
        }
    }
}

/// The initial layout for new containers in an empty workspace.
pub enum WorkspaceLayout {
    Default,
    Stacking,
    Tabbed,
}

impl Render for WorkspaceLayout {
    open spec fn spec_render(&self) -> Seq<char> {
        match self {
            WorkspaceLayout::Default => "default"@,
            WorkspaceLayout::Stacking => "stacking"@,
            WorkspaceLayout::Tabbed => "tabbed"@,
        }
    }

    fn render(&self) -> (r: String) {
        match self {
            WorkspaceLayout::Default => "default".to_owned(),
            WorkspaceLayout::Stacking => "stacking".to_owned(),
            WorkspaceLayout::Tabbed => "tabbed".to_owned(),
        }
    }
}

/// Whether Xwayland support is enabled, disabled, or started eagerly.
pub enum Xwayland {
    Enable,
    Disable,
    Force,
}

impl Render for Xwayland {
    open spec fn spec_render(&self) -> Seq<char> {
        match self {
            Xwayland::Enable => "enable"@,
            Xwayland::Disable => "disable"@,
            Xwayland::Force => "force"@,
        }
    }

    fn render(&self) -> (r: String) {
        match self {
            Xwayland::Enable => "enable".to_owned(),
            Xwayland::Disable => "disable".to_owned(),
            Xwayland::Force => "force".to_owned(),
        }
    }
}

} // verus!
