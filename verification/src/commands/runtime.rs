//! Operations applied to a selected target at runtime.
use vstd::prelude::*;
use vstd::string::StringExecFns;

use super::{EnDisable, EnDisTog, GapsDirection, Output, Workspace};
use crate::render::{
    render_i32, render_u32, separated, spec_join, spec_opt_render, spec_renders, spec_when,
    to_string_or_empty, Render,
};

verus! {

/// An operation on a previously selected or focused target.
pub enum SubCommand {
    /// Set border style for the focused window.
    ///
    /// Default is normal with border thickness 2.
    Border(Border),
    /// Exit sway and end the Wayland session.
    Exit,
    /// Make the focused view floating, non-floating, or the opposite of
    /// what it is now.
    Floating(EnDisTog),
    /// Changes the focused node.
    Focus(Focus),
    /// Makes the focused view fullscreen, non-fullscreen, or the opposite
    /// of what it is now. With global, the view is fullscreen across all
    /// outputs.
    Fullscreen(EnDisTog, FullscreenGlobal),
    /// Changes the inner or outer gaps for either all workspaces or the
    /// current workspace.
    Gaps(GapsDirection, GapsWorkspaces, GapsModification, u32),
    /// Set or unset an idle inhibitor for the view.
    InhibitIdle(InhibitIdle),
    /// Sets the layout mode of the focused container.
    Layout(Layout),
    /// Controls when the relevant application is told to render this
    /// window, as a positive number of milliseconds before the next time
    /// sway composites the output.
    MaxRenderTime(MaxRenderTime),
    Move(Move),
    /// A no-operation command that can be used to override default
    /// behaviour. The optional comment argument is ignored, but logged for
    /// debugging purposes.
    Nop(Option<String>),
    /// Reloads the sway config file and applies any changes.
    Reload,
    /// Rename the workspace with the old name to the new name.
    RenameWorkspace(String, String),
    /// Rename the focused workspace to the new name.
    RenameFocusedWorkspace(String),
    Resize(Resize),
    /// Shows a window from the scratchpad.
    ///
    /// Repeatedly using this command will cycle through the windows in the
    /// scratchpad.
    ScratchpadShow,
    /// Enables or disables the ability of clients to inhibit keyboard
    /// shortcuts for a view.
    ShortcutsInhibitor(EnDisable),
    /// Splits the current container, vertically or horizontally.
    Split(Split),
    /// Sticks a floating window to the current output so that it shows up
    /// on all workspaces.
    Sticky(EnDisTog),
    /// Swaps the position, geometry, and fullscreen status of two
    /// containers.
    Swap(Swap),
    /// Sets the format of window titles.
    TitleFormat(String),
}

impl Render for SubCommand {
    open spec fn spec_render(&self) -> Seq<char> {
        match self {
            SubCommand::Border(v) => "border "@ + v.spec_render(),
            SubCommand::Exit => "exit"@,
            SubCommand::Floating(v) => "floating "@ + v.spec_render(),
            SubCommand::Focus(v) => "focus "@ + v.spec_render(),
            SubCommand::Fullscreen(mode, global) => "focus "@ + mode.spec_render() + " "@
                + global.spec_render(),
            SubCommand::Gaps(direction, workspaces, modification, amount) => "gaps "@
                + direction.spec_render() + " "@ + workspaces.spec_render() + " "@
                + modification.spec_render() + ", "@ + amount.spec_render(),
            SubCommand::InhibitIdle(v) => "inhibit_idle "@ + v.spec_render(),
            SubCommand::Layout(v) => "layout "@ + v.spec_render(),
            SubCommand::MaxRenderTime(v) => "max_render_time "@ + v.spec_render(),
            SubCommand::Move(v) => "move "@ + v.spec_render(),
            SubCommand::Nop(comment) => "nop "@ + spec_opt_render(*comment),
            SubCommand::Reload => "reload"@,
            SubCommand::RenameWorkspace(old_name, _) => "rename workspace "@ + old_name@
                + " to "@ + old_name@,
            SubCommand::RenameFocusedWorkspace(new_name) => "rename workspace to "@ + new_name@,
            SubCommand::Resize(_) => "resize"@,
            SubCommand::ScratchpadShow => "scratchpad show"@,
            SubCommand::ShortcutsInhibitor(v) => "shortcuts_inhibitor "@ + v.spec_render(),
            SubCommand::Split(v) => "split "@ + v.spec_render(),
            SubCommand::Sticky(v) => "sticky "@ + v.spec_render(),
            SubCommand::Swap(v) => "sticky "@ + v.spec_render(),
            SubCommand::TitleFormat(format) => "title_format "@ + format@,
        }
    }

    fn render(&self) -> (r: String) {
        match self {
            SubCommand::Border(v) => {
                let mut r = "border ".to_owned();
                r.append(v.render().as_str());
                r
            },
            SubCommand::Exit => "exit".to_owned(),
            SubCommand::Floating(v) => {
                let mut r = "floating ".to_owned();
                r.append(v.render().as_str());
                r
            },
            SubCommand::Focus(v) => {
                let mut r = "focus ".to_owned();
                r.append(v.render().as_str());
                r
            },
            SubCommand::Fullscreen(mode, global) => {
                let mut r = "focus ".to_owned();
                r.append(mode.render().as_str());
                r.append(" ");
                r.append(global.render().as_str());
                r
            },
            SubCommand::Gaps(direction, workspaces, modification, amount) => {
                let mut r = "gaps ".to_owned();
                r.append(direction.render().as_str());
                r.append(" ");
                r.append(workspaces.render().as_str());
                r.append(" ");
                r.append(modification.render().as_str());
                r.append(", ");
                r.append(render_u32(*amount).as_str());
                r
            },
            SubCommand::InhibitIdle(v) => {
                let mut r = "inhibit_idle ".to_owned();
                r.append(v.render().as_str());
                r
            },
            SubCommand::Layout(v) => {
                let mut r = "layout ".to_owned();
                r.append(v.render().as_str());
                r
            },
            SubCommand::MaxRenderTime(v) => {
                let mut r = "max_render_time ".to_owned();
                r.append(v.render().as_str());
                r
            },
            SubCommand::Move(v) => {
                let mut r = "move ".to_owned();
                r.append(v.render().as_str());
                r
            },
            SubCommand::Nop(comment) => {
                let mut r = "nop ".to_owned();
                r.append(to_string_or_empty(comment).as_str());
                r
            },
            SubCommand::Reload => "reload".to_owned(),
            SubCommand::RenameWorkspace(old_name, _) => {
                let mut r = "rename workspace ".to_owned();
                r.append(old_name.as_str());
                r.append(" to ");
                r.append(old_name.as_str());
                r
            },
            SubCommand::RenameFocusedWorkspace(new_name) => {
                let mut r = "rename workspace to ".to_owned();
                r.append(new_name.as_str());
                r
            },
            SubCommand::Resize(_) => "resize".to_owned(),
            SubCommand::ScratchpadShow => "scratchpad show".to_owned(),
            SubCommand::ShortcutsInhibitor(v) => {
                let mut r = "shortcuts_inhibitor ".to_owned();
                r.append(v.render().as_str());
                r
            },
            SubCommand::Split(v) => {
                let mut r = "split ".to_owned();
                r.append(v.render().as_str());
                r
            },
            SubCommand::Sticky(v) => {
                let mut r = "sticky ".to_owned();
                r.append(v.render().as_str());
                r
            },
            SubCommand::Swap(v) => {
                let mut r = "sticky ".to_owned();
                r.append(v.render().as_str());
                r
            },
            SubCommand::TitleFormat(format) => {
                let mut r = "title_format ".to_owned();
                r.append(format.as_str());
                r
            },
        }
    }
}

/// A border style for a window.
pub enum Border {
    NoBorder,
    /// A border of the given thickness and a title bar.
    Normal(Option<u32>),
    /// Allows the client to draw its own decorations.
    ClientSideDecorations,
    /// A border without title bar, the given number of pixels thick.
    Pixel(Option<u32>),
    /// Cycles through the available border styles.
    Toggle,
}

impl Render for Border {
    open spec fn spec_render(&self) -> Seq<char> {
        match self {
            Border::NoBorder => "none"@,
            Border::Normal(thickness) => "normal "@ + spec_opt_render(*thickness),
            Border::ClientSideDecorations => "csd"@,
            Border::Pixel(thickness) => "pixel "@ + spec_opt_render(*thickness),
            Border::Toggle => "toggle"@,
        }
    }

    fn render(&self) -> (r: String) {
        match self {
            Border::NoBorder => "none".to_owned(),
            Border::Normal(thickness) => {
                let mut r = "normal ".to_owned();
                r.append(to_string_or_empty(thickness).as_str());
                r
            },
            Border::ClientSideDecorations => "csd".to_owned(),
            Border::Pixel(thickness) => {
                let mut r = "pixel ".to_owned();
                r.append(to_string_or_empty(thickness).as_str());
                r
            },
            Border::Toggle => "toggle".to_owned(),
        }
    }
}

/// Where the focus moves.
pub enum Focus {
    /// Moves focus to the container that matches the criteria in force.
    This,
    /// Moves focus to the next container in the specified direction.
    Up,
    /// Moves focus to the next container in the specified direction.
    Right,
    /// Moves focus to the next container in the specified direction.
    Down,
    /// Moves focus to the next container in the specified direction.
    Left,
    /// Moves focus to the previous container in the current layout. Pass
    /// `true` to focus the last active child of the newly focused
    /// container instead of the container itself.
    Prev(bool),
    /// Moves focus to the next container in the current layout. Pass
    /// `true` to focus the last active child of the newly focused
    /// container instead of the container itself.
    Next(bool),
    /// Moves focus to the last-focused child of the focused container.
    Child,
    /// Moves focus to the parent of the focused container.
    Parent,
    /// Moves focus to the specified output.
    Output(FocusOutput),
    /// Sets focus to the last focused tiling container.
    Tiling,
    /// Sets focus to the last focused floating container.
    Floating,
    /// Moves focus between the floating and tiled layers.
    ModeToggle,
}

impl Render for Focus {
    open spec fn spec_render(&self) -> Seq<char> {
        match self {
            Focus::This => Seq::empty(),
            Focus::Up => "up"@,
            Focus::Right => "right"@,
            Focus::Down => "down"@,
            Focus::Left => "left"@,
            Focus::Prev(child) => "prev "@ + spec_when(!*child, "sibling"@),
            Focus::Next(child) => "next "@ + spec_when(!*child, "sibling"@),
            Focus::Child => "child"@,
            Focus::Parent => "parent"@,
            Focus::Output(v) => "output "@ + v.spec_render(),
            Focus::Tiling => "tiling"@,
            Focus::Floating => "floating"@,
            Focus::ModeToggle => "mode_toggle"@,
        }
    }

    fn render(&self) -> (r: String) {
        match self {
            Focus::This => {
                let r = String::new();
                r
            },
            Focus::Up => "up".to_owned(),
            Focus::Right => "right".to_owned(),
            Focus::Down => "down".to_owned(),
            Focus::Left => "left".to_owned(),
            Focus::Prev(child) => {
                let mut r = "prev ".to_owned();
                r.append(crate::render::when(!*child, "sibling"));
                r
            },
            Focus::Next(child) => {
                let mut r = "next ".to_owned();
                r.append(crate::render::when(!*child, "sibling"));
                r
            },
            Focus::Child => "child".to_owned(),
            Focus::Parent => "parent".to_owned(),
            Focus::Output(v) => {
                let mut r = "output ".to_owned();
                r.append(v.render().as_str());
                r
            },
            Focus::Tiling => "tiling".to_owned(),
            Focus::Floating => "floating".to_owned(),
            Focus::ModeToggle => "mode_toggle".to_owned(),
        }
    }
}

/// The output the focus moves to.
pub enum FocusOutput {
    /// Next output in the specified direction.
    Up,
    /// Next output in the specified direction.
    Right,
    /// Next output in the specified direction.
    Down,
    /// Next output in the specified direction.
    Left,
    /// Named output.
    Name(String),
}

impl Render for FocusOutput {
    open spec fn spec_render(&self) -> Seq<char> {
        match self {
            FocusOutput::Up => "up"@,
            FocusOutput::Right => "right"@,
            FocusOutput::Down => "down"@,
            FocusOutput::Left => "left"@,
            FocusOutput::Name(name) => name@,
        }
    }

    fn render(&self) -> (r: String) {
        match self {
            FocusOutput::Up => "up".to_owned(),
            FocusOutput::Right => "right".to_owned(),
            FocusOutput::Down => "down".to_owned(),
            FocusOutput::Left => "left".to_owned(),
            FocusOutput::Name(name) => name.clone(),
        }
    }
}

/// Whether fullscreen spans all outputs.
pub enum FullscreenGlobal {
    Global,
    No,
}

impl Render for FullscreenGlobal {
    open spec fn spec_render(&self) -> Seq<char> {
        match self {
            FullscreenGlobal::Global => "global"@,
            FullscreenGlobal::No => Seq::empty(),
        }
    }

    fn render(&self) -> (r: String) {
        match self {
            FullscreenGlobal::Global => "global".to_owned(),
            FullscreenGlobal::No => String::new(),
        }
    }
}

/// Whether a gaps change applies to all workspaces or the current one.
pub enum GapsWorkspaces {
    All,
    Current,
}

impl Render for GapsWorkspaces {
    open spec fn spec_render(&self) -> Seq<char> {
        match self {
            GapsWorkspaces::All => "all"@,
            GapsWorkspaces::Current => "current"@,
        }
    }

    fn render(&self) -> (r: String) {
        match self {
            GapsWorkspaces::All => "all".to_owned(),
            GapsWorkspaces::Current => "current".to_owned(),
        }
    }
}

/// How a gaps amount is applied.
pub enum GapsModification {
    SetTo,
    Plus,
    Minus,
    Toggle,
}

impl Render for GapsModification {
    open spec fn spec_render(&self) -> Seq<char> {
        match self {
            GapsModification::SetTo => "set"@,
            GapsModification::Plus => "plus"@,
            GapsModification::Minus => "minus"@,
            GapsModification::Toggle => "toggle"@,
        }
    }

    fn render(&self) -> (r: String) {
        match self {
            GapsModification::SetTo => "set".to_owned(),
            GapsModification::Plus => "plus".to_owned(),
            GapsModification::Minus => "minus".to_owned(),
            GapsModification::Toggle => "toggle".to_owned(),
        }
    }
}

/// When the view inhibits idle.
pub enum InhibitIdle {
    /// Inhibit idle when the view is focused by any seat.
    Focus,
    /// Inhibit idle when the view is fullscreen (or a descendant of a
    /// fullscreen container) and visible.
    Fullscreen,
    /// Inhibit idle until the view is closed, or the inhibitor is unset or
    /// changed.
    Open,
    /// Remove the inhibitor.
    NoInhibit,
    /// Inhibit idle when the view is visible on any output.
    Visible,
}

impl Render for InhibitIdle {
    open spec fn spec_render(&self) -> Seq<char> {
        match self {
            InhibitIdle::Focus => "focus"@,
            InhibitIdle::Fullscreen => "fullscreen"@,
            InhibitIdle::Open => "open"@,
            InhibitIdle::NoInhibit => "none"@,
            InhibitIdle::Visible => "visible"@,
        }
    }

    fn render(&self) -> (r: String) {
        match self {
            InhibitIdle::Focus => "focus".to_owned(),
            InhibitIdle::Fullscreen => "fullscreen".to_owned(),
            InhibitIdle::Open => "open".to_owned(),
            InhibitIdle::NoInhibit => "none".to_owned(),
            InhibitIdle::Visible => "visible".to_owned(),
        }
    }
}

/// The layout mode of the focused container.
pub enum Layout {
    Default,
    Splith,
    Splitv,
    Stacking,
    Tabbed,
    /// Cycles the layout mode of the focused container through a preset
    /// list of layouts.
    Toggle(LayoutToggle),
}

impl Render for Layout {
    open spec fn spec_render(&self) -> Seq<char> {
        match self {
            Layout::Default => "default"@,
            Layout::Splith => "splith"@,
            Layout::Splitv => "splitv"@,
            Layout::Stacking => "stacking"@,
            Layout::Tabbed => "tabbed"@,
            Layout::Toggle(v) => "toggle "@ + v.spec_render(),
        }
    }

    fn render(&self) -> (r: String) {
        match self {
            Layout::Default => "default".to_owned(),
            Layout::Splith => "splith".to_owned(),
            Layout::Splitv => "splitv".to_owned(),
            Layout::Stacking => "stacking".to_owned(),
            Layout::Tabbed => "tabbed".to_owned(),
            Layout::Toggle(v) => {
                let mut r = "toggle ".to_owned();
                r.append(v.render().as_str());
                r
            },
        }
    }
}

/// Which layouts a layout toggle cycles through.
pub enum LayoutToggle {
    /// Cycles through stacking, tabbed and the last split layout.
    Unset,
    /// Cycles through splith and splitv.
    Split,
    /// Cycles through every layout.
    All,
    /// Cycles through the given list of layouts.
    Options(Vec<LayoutToggleOptions>),
}

impl Render for LayoutToggle {
    open spec fn spec_render(&self) -> Seq<char> {
        match self {
            LayoutToggle::Unset => "None"@,
            LayoutToggle::Split => "split"@,
            LayoutToggle::All => "all"@,
            LayoutToggle::Options(options) => spec_join(spec_renders(options@), " "@),
        }
    }

    fn render(&self) -> (r: String) {
        match self {
            LayoutToggle::Unset => "None".to_owned(),
            LayoutToggle::Split => "split".to_owned(),
            LayoutToggle::All => "all".to_owned(),
            LayoutToggle::Options(options) => separated(options, " "),
        }
    }
}

/// One entry of an explicit layout toggle list.
pub enum LayoutToggleOptions {
    Split,
    Tabbed,
    Stacking,
    Splitv,
    Splith,
}

impl Render for LayoutToggleOptions {
    open spec fn spec_render(&self) -> Seq<char> {
        match self {
            LayoutToggleOptions::Split => "split"@,
            LayoutToggleOptions::Tabbed => "tabbed"@,
            LayoutToggleOptions::Stacking => "stacking"@,
            LayoutToggleOptions::Splitv => "splitv"@,
            LayoutToggleOptions::Splith => "splith"@,
        }
    }

    fn render(&self) -> (r: String) {
        match self {
            LayoutToggleOptions::Split => "split".to_owned(),
            LayoutToggleOptions::Tabbed => "tabbed".to_owned(),
            LayoutToggleOptions::Stacking => "stacking".to_owned(),
            LayoutToggleOptions::Splitv => "splitv".to_owned(),
            LayoutToggleOptions::Splith => "splith".to_owned(),
        }
    }
}

/// The maximum render time of a window, or off.
pub enum MaxRenderTime {
    Off,
    Msec(u32),
}

impl Render for MaxRenderTime {
    open spec fn spec_render(&self) -> Seq<char> {
        match self {
            MaxRenderTime::Off => "off"@,
            MaxRenderTime::Msec(msec) => msec.spec_render(),
        }
    }

    fn render(&self) -> (r: String) {
        match self {
            MaxRenderTime::Off => "off".to_owned(),
            MaxRenderTime::Msec(msec) => render_u32(*msec),
        }
    }
}

/// Where the focused container or workspace moves to.
pub enum Move {
    /// Moves the focused container in the direction specified. Pixels are
    /// ignored when moving tiled containers.
    Left(i32),
    /// Moves the focused container in the direction specified. Pixels are
    /// ignored when moving tiled containers.
    Right(i32),
    /// Moves the focused container in the direction specified. Pixels are
    /// ignored when moving tiled containers.
    Up(i32),
    /// Moves the focused container in the direction specified. Pixels are
    /// ignored when moving tiled containers.
    Down(i32),
    /// Moves the focused container to the specified position in the
    /// workspace, in pixels or percentage points.
    Position(Length, Length),
    /// Moves the focused container to the specified position relative to
    /// all outputs.
    AbsolutePosition(u32, u32),
    /// Moves the focused container to be centered on the workspace.
    PositionCenter,
    /// Moves to the center of all outputs.
    AbsolutePositionCenter,
    /// Moves the focused container to be centered on the cursor.
    PositionCursor,
    /// Moves the focused container to the specified mark.
    Mark(String),
    /// Moves the focused container to the specified workspace.
    Workspace(Workspace),
    /// Moves the focused container to the specified workspace without
    /// switching back and forth.
    WorkspaceNoAutoBackAndForth(Workspace),
    /// Moves the focused container to the scratchpad.
    Scratchpad,
    /// Moves the focused container to the specified output.
    ContainerToOutput(Output),
    /// Moves the focused workspace to the specified output.
    WorkspaceToOutput(Output),
}

impl Render for Move {
    open spec fn spec_render(&self) -> Seq<char> {
        match self {
            Move::Left(px) => "left "@ + px.spec_render() + " px"@,
            Move::Right(px) => "right "@ + px.spec_render() + " px"@,
            Move::Up(px) => "up "@ + px.spec_render() + " px"@,
            Move::Down(px) => "down "@ + px.spec_render() + " px"@,
            Move::Position(x, _) => "position "@ + x.spec_render() + " "@ + x.spec_render(),
            Move::AbsolutePosition(x, _) => "absolute position "@ + x.spec_render() + " px "@
                + x.spec_render() + " px"@,
            Move::PositionCenter => "position center"@,
            Move::AbsolutePositionCenter => "absolute position center"@,
            Move::PositionCursor => "position cursor"@,
            Move::Mark(_) => "container to mark"@,
            Move::Workspace(v) => "container to workspace "@ + v.spec_render(),
            Move::WorkspaceNoAutoBackAndForth(v) => (
            "--no-auto-back-and-forth container to workspace "@ + v.spec_render()),
            Move::Scratchpad => "container to scratchpad"@,
            Move::ContainerToOutput(v) => "container to output "@ + v.spec_render(),
            Move::WorkspaceToOutput(v) => "workspace to output "@ + v.spec_render(),
        }
    }

    fn render(&self) -> (r: String) {
        match self {
            Move::Left(px) => {
                let mut r = "left ".to_owned();
                r.append(render_i32(*px).as_str());
                r.append(" px");
                r
            },
            Move::Right(px) => {
                let mut r = "right ".to_owned();
                r.append(render_i32(*px).as_str());
                r.append(" px");
                r
            },
            Move::Up(px) => {
                let mut r = "up ".to_owned();
                r.append(render_i32(*px).as_str());
                r.append(" px");
                r
            },
            Move::Down(px) => {
                let mut r = "down ".to_owned();
                r.append(render_i32(*px).as_str());
                r.append(" px");
                r
            },
            Move::Position(x, _) => {
                let mut r = "position ".to_owned();
                r.append(x.render().as_str());
                r.append(" ");
                r.append(x.render().as_str());
                r
            },
            Move::AbsolutePosition(x, _) => {
                let mut r = "absolute position ".to_owned();
                r.append(render_u32(*x).as_str());
                r.append(" px ");
                r.append(render_u32(*x).as_str());
                r.append(" px");
                r
            },
            Move::PositionCenter => "position center".to_owned(),
            Move::AbsolutePositionCenter => "absolute position center".to_owned(),
            Move::PositionCursor => "position cursor".to_owned(),
            Move::Mark(_) => "container to mark".to_owned(),
            Move::Workspace(v) => {
                let mut r = "container to workspace ".to_owned();
                r.append(v.render().as_str());
                r
            },
            Move::WorkspaceNoAutoBackAndForth(v) => {
                let mut r = "--no-auto-back-and-forth container to workspace ".to_owned();
                r.append(v.render().as_str());
                r
            },
            Move::Scratchpad => "container to scratchpad".to_owned(),
            Move::ContainerToOutput(v) => {
                let mut r = "container to output ".to_owned();
                r.append(v.render().as_str());
                r
            },
            Move::WorkspaceToOutput(v) => {
                let mut r = "workspace to output ".to_owned();
                r.append(v.render().as_str());
                r
            },
        }
    }
}

/// How the focused container is resized.
pub enum Resize {
    /// Grows the width by the given amount.
    GrowWidth(Length),
    /// Shrinks the width by the given amount.
    ShrinkWidth(Length),
    /// Grows the height by the given amount.
    GrowHeight(Length),
    /// Shrinks the height by the given amount.
    ShrinkHeight(Length),
    /// Sets the height of the container; a height of 0 leaves the container
    /// unresized.
    SetHeight(Length),
    /// Sets the width of the container; a width of 0 leaves the container
    /// unresized.
    SetWidth(Length),
    /// Sets the width and height of the container; a value of 0 leaves that
    /// axis unresized.
    SetBoth(Length, Length),
}

impl Render for Resize {
    open spec fn spec_render(&self) -> Seq<char> {
        match self {
            Resize::GrowWidth(amount) => "grow width "@ + amount.spec_render(),
            Resize::ShrinkWidth(amount) => "shrink width "@ + amount.spec_render(),
            Resize::GrowHeight(amount) => "grow height "@ + amount.spec_render(),
            Resize::ShrinkHeight(amount) => "shrink height "@ + amount.spec_render(),
            Resize::SetHeight(amount) => "set height "@ + amount.spec_render(),
            Resize::SetWidth(amount) => "set width "@ + amount.spec_render(),
            Resize::SetBoth(width, _) => "set width "@ + width.spec_render() + " height "@
                + width.spec_render(),
        }
    }

    fn render(&self) -> (r: String) {
        match self {
            Resize::GrowWidth(amount) => {
                let mut r = "grow width ".to_owned();
                r.append(amount.render().as_str());
                r
            },
            Resize::ShrinkWidth(amount) => {
                let mut r = "shrink width ".to_owned();
                r.append(amount.render().as_str());
                r
            },
            Resize::GrowHeight(amount) => {
                let mut r = "grow height ".to_owned();
                r.append(amount.render().as_str());
                r
            },
            Resize::ShrinkHeight(amount) => {
                let mut r = "shrink height ".to_owned();
                r.append(amount.render().as_str());
                r
            },
            Resize::SetHeight(amount) => {
                let mut r = "set height ".to_owned();
                r.append(amount.render().as_str());
                r
            },
            Resize::SetWidth(amount) => {
                let mut r = "set width ".to_owned();
                r.append(amount.render().as_str());
                r
            },
            Resize::SetBoth(width, _) => {
                let mut r = "set width ".to_owned();
                r.append(width.render().as_str());
                r.append(" height ");
                r.append(width.render().as_str());
                r
            },
        }
    }
}

/// How the current container is split.
pub enum Split {
    Vertical,
    Horizontal,
    /// The effect of a previous split is undone if the current container is
    /// the only child of a split parent.
    NoSplit,
    /// The current container is split opposite to the parent container's
    /// layout.
    Toggle,
}

impl Render for Split {
    open spec fn spec_render(&self) -> Seq<char> {
        match self {
            Split::Vertical => "Vertical"@,
            Split::Horizontal => "Horizontal"@,
            Split::NoSplit => "None"@,
            Split::Toggle => "Toggle"@,
        }
    }

    fn render(&self) -> (r: String) {
        match self {
            Split::Vertical => "Vertical".to_owned(),
            Split::Horizontal => "Horizontal".to_owned(),
            Split::NoSplit => "None".to_owned(),
            Split::Toggle => "Toggle".to_owned(),
        }
    }
}

/// How the second container of a swap is selected.
pub enum Swap {
    /// Can only be used with xwayland views.
    Id(String),
    ConId(String),
    Mark(String),
}

impl Render for Swap {
    open spec fn spec_render(&self) -> Seq<char> {
        match self {
            Swap::Id(id) => "id "@ + id@,
            Swap::ConId(id) => "con_id "@ + id@,
            Swap::Mark(mark) => "mark "@ + mark@,
        }
    }

    fn render(&self) -> (r: String) {
        match self {
            Swap::Id(id) => {
                let mut r = "id ".to_owned();
                r.append(id.as_str());
                r
            },
            Swap::ConId(id) => {
                let mut r = "con_id ".to_owned();
                r.append(id.as_str());
                r
            },
            Swap::Mark(mark) => {
                let mut r = "mark ".to_owned();
                r.append(mark.as_str());
                r
            },
        }
    }
}

/// A length in pixels, percentage points, or the unit left to sway.
pub enum Length {
    Px(u32),
    Ppt(u32),
    Default(u32),
}

impl Render for Length {
    open spec fn spec_render(&self) -> Seq<char> {
        match self {
            Length::Px(amount) => amount.spec_render() + " px"@,
            Length::Ppt(amount) => amount.spec_render() + " ppt"@,
            Length::Default(amount) => amount.spec_render(),
        }
    }

    fn render(&self) -> (r: String) {
        match self {
            Length::Px(amount) => {
                let mut r = render_u32(*amount);
                r.append(" px");
                r
            },
            Length::Ppt(amount) => {
                let mut r = render_u32(*amount);
                r.append(" ppt");
                r
            },
            Length::Default(amount) => render_u32(*amount),
        }
    }
}

} // verus!
