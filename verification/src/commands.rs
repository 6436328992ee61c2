//! The types for command creation.
use vstd::prelude::*;
use vstd::string::StringExecFns;

use crate::render::Render;

mod config;
mod font;
mod runtime;
mod standalone;

pub use config::{ConfigCommand, DefaultOrientation, WorkspaceLayout, Xwayland};
pub use font::{
    Font, FontDescription, FontGravity, FontSize, FontStretch, FontStyle, FontStyleOptions,
    FontVariant, FontWeight,
};
pub use runtime::{
    Border, Focus, FocusOutput, FullscreenGlobal, GapsModification, GapsWorkspaces, InhibitIdle,
    Layout, LayoutToggle, LayoutToggleOptions, Length, MaxRenderTime, Move, Resize, Split,
    SubCommand, Swap,
};
pub use standalone::{
    vec1_contents, BindFlags, BindswitchFlags, Class, ClientClass, Color, CriterialessCommand,
    DefaultBorder, EdgeBorders, FloatingModifierMode, FocusWrapping, Group, MarkModification,
    Modifiers, MouseFocus, MouseWarping, OpacityModification, PopupDuringFullscreen, Positive,
    SmartBorders, SmartGaps, Switch, SwitchState, SymCode, SymKey, TitleAlign, Urgent,
    WindowActivationFocus,
};

verus! {

/// A workspace a container or the focus can be sent to.
pub enum Workspace {
    Name(WorkspaceName),
    /// Also matches a workspace with the same number, even if it has a
    /// different name.
    Number(WorkspaceName),
    /// The previous workspace on this output, or if no workspaces remain,
    /// the previous output.
    Prev,
    /// The next workspace on this output, or if no workspaces remain, the
    /// next output.
    Next,
    /// The current workspace on this output.
    Current,
    /// The previous workspace on this output, wrapping around if already at
    /// the first or last workspace.
    PrevOnOutput,
    /// The next workspace on this output, wrapping around if already at the
    /// first or last workspace.
    NextOnOutput,
    /// The previously focused workspace.
    BackAndForth,
}

impl Render for Workspace {
    open spec fn spec_render(&self) -> Seq<char> {
        match self {
            Workspace::Name(_) => "_0"@,
            Workspace::Number(v) => "number "@ + v.spec_render(),
            Workspace::Prev => "prev"@,
            Workspace::Next => "next"@,
            Workspace::Current => "current"@,
            Workspace::PrevOnOutput => "prev_on_output"@,
            Workspace::NextOnOutput => "next_on_output"@,
            Workspace::BackAndForth => "back_and_forth"@,
        }
    }

    fn render(&self) -> (r: String) {
        match self {
            Workspace::Name(_) => "_0".to_owned(),
            Workspace::Number(v) => {
                let mut r = "number ".to_owned();
                r.append(v.render().as_str());
                r
            },
            Workspace::Prev => "prev".to_owned(),
            Workspace::Next => "next".to_owned(),
            Workspace::Current => "current".to_owned(),
            Workspace::PrevOnOutput => "prev_on_output".to_owned(),
            Workspace::NextOnOutput => "next_on_output".to_owned(),
            Workspace::BackAndForth => "back_and_forth".to_owned(),
        }
    }
}

/// A workspace name, optionally paired with its number.
pub enum WorkspaceName {
    Simple(String),
    WithNumber(u32, String),
}

impl Render for WorkspaceName {
    open spec fn spec_render(&self) -> Seq<char> {
        match self {
            WorkspaceName::Simple(name) => name@,
            WorkspaceName::WithNumber(number, name) => number.spec_render() + ":"@ + name@,
        }
    }

    fn render(&self) -> (r: String) {
        match self {
            WorkspaceName::Simple(name) => name.clone(),
            WorkspaceName::WithNumber(number, name) => {
                let mut r = number.render();
                r.append(":");
                r.append(name.as_str());
                r
            },
        }
    }
}

/// An output, chosen by direction, by name, or the current one.
pub enum Output {
    /// Next output in the specified direction.
    Up,
    /// Next output in the specified direction.
    Right,
    /// Next output in the specified direction.
    Down,
    /// Next output in the specified direction.
    Left,
    Current,
    /// Named output.
    Name(String),
}

impl Render for Output {
    open spec fn spec_render(&self) -> Seq<char> {
        match self {
            Output::Up => "up"@,
            Output::Right => "right"@,
            Output::Down => "down"@,
            Output::Left => "left"@,
            Output::Current => "current"@,
            Output::Name(name) => name@,
        }
    }

    fn render(&self) -> (r: String) {
        match self {
            Output::Up => "up".to_owned(),
            Output::Right => "right".to_owned(),
            Output::Down => "down".to_owned(),
            Output::Left => "left".to_owned(),
            Output::Current => "current".to_owned(),
            Output::Name(name) => name.clone(),
        }
    }
}

/// Which gaps a gaps command changes.
pub enum GapsDirection {
    Inner,
    Outer,
    Horizontal,
    Vertical,
    Top,
    Right,
    Bottom,
    Left,
}

impl Render for GapsDirection {
    open spec fn spec_render(&self) -> Seq<char> {
        match self {
            GapsDirection::Inner => "inner"@,
            GapsDirection::Outer => "outer"@,
            GapsDirection::Horizontal => "horizontal"@,
            GapsDirection::Vertical => "vertical"@,
            GapsDirection::Top => "top"@,
            GapsDirection::Right => "right"@,
            GapsDirection::Bottom => "bottom"@,
            GapsDirection::Left => "left"@,
        }
    }

    fn render(&self) -> (r: String) {
        match self {
            GapsDirection::Inner => "inner".to_owned(),
            GapsDirection::Outer => "outer".to_owned(),
            GapsDirection::Horizontal => "horizontal".to_owned(),
            GapsDirection::Vertical => "vertical".to_owned(),
            GapsDirection::Top => "top".to_owned(),
            GapsDirection::Right => "right".to_owned(),
            GapsDirection::Bottom => "bottom".to_owned(),
            GapsDirection::Left => "left".to_owned(),
        }
    }
}

/// A yes-or-no setting.
pub enum YesNo {
    Yes,
    No,
}

impl Render for YesNo {
    open spec fn spec_render(&self) -> Seq<char> {
        match self {
            YesNo::Yes => "yes"@,
            YesNo::No => "no"@,
        }
    }

    fn render(&self) -> (r: String) {
        match self {
            YesNo::Yes => "yes".to_owned(),
            YesNo::No => "no".to_owned(),
        }
    }
}

/// A setting that can be enabled or disabled.
pub enum EnDisable {
    Enable,
    Disable,
}

impl Render for EnDisable {
    open spec fn spec_render(&self) -> Seq<char> {
        match self {
            EnDisable::Enable => "enable"@,
            EnDisable::Disable => "disable"@,
        }
    }

    fn render(&self) -> (r: String) {
        match self {
            EnDisable::Enable => "enable".to_owned(),
            EnDisable::Disable => "disable".to_owned(),
        }
    }
}

/// A setting that can be enabled, disabled or toggled.
pub enum EnDisTog {
    Enable,
    Disable,
    Toggle,
}

impl Render for EnDisTog {
    open spec fn spec_render(&self) -> Seq<char> {
        match self {
            EnDisTog::Enable => "enable"@,
            EnDisTog::Disable => "disable"@,
            EnDisTog::Toggle => "toggle"@,
        }
    }

    fn render(&self) -> (r: String) {
        match self {
            EnDisTog::Enable => "enable".to_owned(),
            EnDisTog::Disable => "disable".to_owned(),
            EnDisTog::Toggle => "toggle".to_owned(),
        }
    }
}

} // verus!
