//! Commands that operate without target selection: global settings and key
//! bindings.
use vstd::prelude::*;
use vstd::string::StringExecFns;

use vec1::Vec1;

use super::{EnDisTog, Font, GapsDirection, Output, Workspace, WorkspaceName, YesNo};
use crate::criteria::{Criteria, CriteriaList};
use crate::render::{
    cat2, cat3, cat4, cat6, render_hex_byte, render_u32, separated, spec_hex_byte,
    spec_join, spec_opt_render, spec_renders, spec_when, to_string_or_empty, Render,
};
use crate::Command;

verus! {

/// The vec1 crate's never-empty vector, used for lists the protocol
/// requires to have at least one entry.
#[verifier::external_type_specification]
#[verifier::external_body]
#[verifier::reject_recursive_types(I)]
pub struct ExVec1<I>(Vec1<I>);

/// The texts a never-empty vector of strings holds, in order.
pub uninterp spec fn vec1_contents(v: Vec1<String>) -> Seq<Seq<char>>;

/// Relies on vec1's Vec1::as_vec: hands out the held strings unchanged and
/// in order; a Vec1 holds at least one element.
#[verifier::external_body]
fn vec1_to_vec(v: &Vec1<String>) -> (r: Vec<String>)
    ensures
        spec_renders(r@) == vec1_contents(*v),
        r@.len() >= 1,
{
    v.as_vec().clone()
}

/// A command that does not target a window or container.
pub enum CriterialessCommand {
    /// Assigns views matching the criteria to the workspace.
    AssignWorkspace(CriteriaList, Workspace),
    /// Assigns views matching the criteria to the output.
    AssignOutput(CriteriaList, Output),
    /// Binds a key combo to execute the command when pressed.
    ///
    /// XKB key names may be used. Mouse buttons can either be specified in
    /// the form button1 through button9 or by using the name of the event
    /// code.
    Bindsym(BindFlags, SymKey, Command),
    /// Like [`CriterialessCommand::Bindsym`] but for key/button codes.
    Bindcode(BindFlags, SymCode, Command),
    /// Binds a switch to execute the command on state changes.
    ///
    /// Supported switches are the laptop lid and tablet mode switches.
    Bindswitch(BindswitchFlags, Switch, SwitchState, Command),
    /// This command is ignored and is only present for i3 compatibility.
    ClientBackground(String),
    /// Configures the color of window borders and title bars.
    Client(ClientClass),
    /// Set the default border style for new tiled windows.
    DefaultBorder(DefaultBorder),
    /// Set the default border style for new floating windows.
    ///
    /// This only applies to windows that are spawned in floating mode, not
    /// windows that become floating afterwards.
    DefaultFloatingBorder(DefaultBorder),
    /// Executes a shell command with sh.
    Exec(String),
    /// Like exec, but the shell command will be executed again after
    /// reload.
    ExecAlways(String),
    /// Specifies the maximum size of floating windows.
    ///
    /// -1 x -1 removes the upper limit.
    FloatingMaximumSize(i32, i32),
    /// Specifies the minimum size of floating windows.
    FloatingMinimumSize(i32, i32),
    /// When the modifier key is held down, you may hold left click to move
    /// windows, and right click to resize them.
    FloatingModifier(Option<String>, FloatingModifierMode),
    /// Whether moving the mouse over a window focuses it.
    FocusFollowsMouse(MouseFocus),
    /// What to do when an xwayland client requests window activation.
    FocusOnWindowActivation(WindowActivationFocus),
    /// What to do when attempting to focus over the edge of a container.
    FocusWrapping(FocusWrapping),
    /// Sets the font to use for the title bars.
    Font(Font),
    /// A timeout in milliseconds to delay the urgency hint reset.
    ForceDisplayUrgencyHint(u32),
    /// Thickness of the titlebar border in pixels.
    TitlebarBorderThickness(u32),
    /// Padding of the text in the titlebar. If the vertical value is not
    /// specified it is set to the horizontal value.
    TitlebarPadding(Positive, Option<Positive>),
    /// Whenever a window matching the criteria appears, run the command.
    ForWindow(Criteria, Command),
    /// Sets the default amount of pixels of inner or outer gap.
    Gaps(GapsDirection, u32),
    /// Hides window borders adjacent to the screen edges.
    HideEdgeBorders(EdgeBorders),
    /// The i3-compatible form of [`Self::HideEdgeBorders`]; also hides the
    /// title bar on tabbed and stacked containers with one child.
    HideEdgeBordersI3(EdgeBorders),
    /// An input block: a device name and its subcommands.
    Input(String, Vec<String>),
    /// A seat block: a seat name and its subcommands.
    Seat(String, Vec<String>),
    /// Kills (closes) the currently focused container and all of its
    /// children.
    Kill,
    SmartBorders(SmartBorders),
    SmartGaps(SmartGaps),
    /// Marks are arbitrary labels that can be used to identify certain
    /// windows and then jump to them at a later time.
    Mark(MarkModification, String),
    /// Switches to the specified mode.
    Mode(String),
    /// A mode block: the valid mode subcommands are bindsym, bindcode,
    /// bindswitch, and set.
    ModeCmds(String, Vec<String>),
    /// Like [`Self::ModeCmds`], with the mode name interpreted as pango
    /// markup.
    ModePangoMarkupCmds(String, Vec<String>),
    /// Whether the mouse warps to new outputs or containers on focus
    /// switches.
    MouseWarping(MouseWarping),
    /// Prevents windows matching the criteria from being focused
    /// automatically when they're created.
    NoFocus(Criteria),
    /// An output block: an output name and its subcommands.
    Output(String, Vec<String>),
    /// What to do when a fullscreen view opens a dialog.
    PopupDuringFullscreen(PopupDuringFullscreen),
    /// Sets a variable to a value.
    SetVariable(String, String),
    /// Whether marks are displayed in the window borders.
    ShowMarks(YesNo),
    /// Adjusts the opacity of the window between 0 (completely
    /// transparent) and 1 (completely opaque); the amount is kept as its
    /// decimal text.
    Opacity(OpacityModification, String),
    /// Whether tiling containers can be dragged with the mouse.
    TilingDrag(EnDisTog),
    /// The threshold that must be exceeded for a container to be dragged
    /// by its titlebar.
    TilingDragThreshold(u32),
    /// Sets the title alignment.
    TitleAlign(TitleAlign),
    /// Removes a binding for when the switch changes to the state.
    Unbindswitch(Switch, SwitchState),
    /// Removes the binding for a key combo that was previously bound with
    /// the given flags.
    Unbindsym(BindFlags, SymKey),
    /// Like [`Self::Unbindsym`] but for key/button codes.
    Unbindcode(BindFlags, SymCode),
    /// Removes the identifier from the list of current marks on a window.
    Unmark(String),
    /// Sets, unsets, allows or denies the urgent state of a window.
    Urgent(Urgent),
    /// Switches to the specified workspace.
    Workspace(Workspace),
    /// Specifies that the workspace should have the given gaps settings
    /// when it is created.
    WorkspaceGaps(WorkspaceName, GapsDirection, u32),
    /// Specifies that the workspace should be shown on the specified
    /// outputs; the first available one is used.
    WorkspaceOutput(WorkspaceName, Vec1<String>),
    /// When yes, repeating a workspace switch command switches back to the
    /// prior workspace.
    WorkspaceAutoBackAndForth(YesNo),
}

impl CriterialessCommand {
    /// The canonical protocol text of this command.
    pub open spec fn spec_render(&self) -> Seq<char>
        decreases self,
    {
        match self {
            CriterialessCommand::AssignWorkspace(criteria, _) => "assign "@
                + criteria.spec_render() + " → workspace "@ + criteria.spec_render(),
            CriterialessCommand::AssignOutput(criteria, _) => "assign "@ + criteria.spec_render()
                + " → output "@ + criteria.spec_render(),
            CriterialessCommand::Bindsym(flags, key, command) => "bindsym "@ + flags.spec_render()
                + " "@ + key.spec_render() + " "@ + command.spec_render(),
            CriterialessCommand::Bindcode(flags, code, command) => "bindcode "@
                + flags.spec_render() + " "@ + code.spec_render() + " "@ + command.spec_render(),
            CriterialessCommand::Bindswitch(flags, switch, state, command) => "bindswitch "@
                + flags.spec_render() + " "@ + switch.spec_render() + ":"@ + state.spec_render()
                + " "@ + command.spec_render(),
            CriterialessCommand::ClientBackground(color) => "client.background "@ + color@,
            CriterialessCommand::Client(class) => "client."@ + class.spec_render(),
            CriterialessCommand::DefaultBorder(border) => "default_border "@
                + border.spec_render(),
            CriterialessCommand::DefaultFloatingBorder(border) => "default_floating_border "@
                + border.spec_render(),
            CriterialessCommand::Exec(command) => "exec "@ + command@,
            CriterialessCommand::ExecAlways(command) => "exec_always "@ + command@,
            CriterialessCommand::FloatingMaximumSize(width, height) => "floating_maximum_size "@
                + width.spec_render() + " x "@ + height.spec_render(),
            CriterialessCommand::FloatingMinimumSize(width, height) => "floating_minimum_size "@
                + width.spec_render() + " x "@ + height.spec_render(),
            CriterialessCommand::FloatingModifier(modifier, mode) => "floating_modifier "@
                + spec_opt_render(*modifier) + " x "@ + mode.spec_render(),
            CriterialessCommand::FocusFollowsMouse(v) => "focus_follows_mouse "@
                + v.spec_render(),
            CriterialessCommand::FocusOnWindowActivation(v) => "focus_on_window_activation "@
                + v.spec_render(),
            CriterialessCommand::FocusWrapping(v) => "focus_wrapping "@ + v.spec_render(),
            CriterialessCommand::Font(font) => "font "@ + font.spec_render(),
            CriterialessCommand::ForceDisplayUrgencyHint(timeout) => (
            "force_display_urgency_hint "@ + timeout.spec_render() + " ms"@),
            CriterialessCommand::TitlebarBorderThickness(thickness) => (
            "titlebar_border_thickness "@ + thickness.spec_render()),
            CriterialessCommand::TitlebarPadding(horizontal, vertical) => "titlebar_padding "@
                + horizontal.spec_render() + " "@ + spec_opt_render(*vertical),
            CriterialessCommand::ForWindow(criteria, command) => "for_window "@
                + criteria.spec_render() + " "@ + command.spec_render(),
            CriterialessCommand::Gaps(direction, amount) => "gaps "@ + direction.spec_render()
                + " "@ + amount.spec_render(),
            CriterialessCommand::HideEdgeBorders(v) => "hide_edge_borders "@ + v.spec_render(),
            CriterialessCommand::HideEdgeBordersI3(v) => "hide_edge_borders --i3 "@
                + v.spec_render(),
            CriterialessCommand::Input(device, subcommands) => "input "@ + device@ + " "@
                + spec_join(spec_renders(subcommands@), " "@),
            CriterialessCommand::Seat(seat, subcommands) => "seat "@ + seat@ + " "@
                + spec_join(spec_renders(subcommands@), " "@),
            CriterialessCommand::Kill => "kill"@,
            CriterialessCommand::SmartBorders(v) => "smart_borders "@ + v.spec_render(),
            CriterialessCommand::SmartGaps(v) => "smart_gaps "@ + v.spec_render(),
            CriterialessCommand::Mark(modification, mark) => "mark "@
                + modification.spec_render() + " "@ + mark@,
            CriterialessCommand::Mode(_) => "mode"@,
            CriterialessCommand::ModeCmds(mode, subcommands) => "mode "@ + mode@ + " "@
                + spec_join(spec_renders(subcommands@), " "@),
            CriterialessCommand::ModePangoMarkupCmds(mode, subcommands) => "mode --pango_markup "@
                + mode@ + " "@ + spec_join(spec_renders(subcommands@), " "@),
            CriterialessCommand::MouseWarping(v) => "mouse_warping "@ + v.spec_render(),
            CriterialessCommand::NoFocus(criteria) => "no_focus "@ + criteria.spec_render(),
            CriterialessCommand::Output(output, subcommands) => "output "@ + output@ + " "@
                + spec_join(spec_renders(subcommands@), " "@),
            CriterialessCommand::PopupDuringFullscreen(v) => "popup_during_fullscreen "@
                + v.spec_render(),
            CriterialessCommand::SetVariable(name, value) => "set $"@ + name@ + " "@ + value@,
            CriterialessCommand::ShowMarks(v) => "show_marks "@ + v.spec_render(),
            CriterialessCommand::Opacity(modification, amount) => "opacity "@
                + modification.spec_render() + " "@ + amount@,
            CriterialessCommand::TilingDrag(v) => "tiling_drag "@ + v.spec_render(),
            CriterialessCommand::TilingDragThreshold(threshold) => "tiling_drag_threshold "@
                + threshold.spec_render(),
            CriterialessCommand::TitleAlign(v) => "title_align "@ + v.spec_render(),
            CriterialessCommand::Unbindswitch(switch, state) => "unbindswitch "@
                + switch.spec_render() + ":"@ + state.spec_render(),
            CriterialessCommand::Unbindsym(flags, key) => "unbindsym "@ + flags.spec_render()
                + " "@ + key.spec_render(),
            CriterialessCommand::Unbindcode(flags, code) => "unbindcode "@ + flags.spec_render()
                + " "@ + code.spec_render(),
            CriterialessCommand::Unmark(mark) => "unmark "@ + mark@,
            CriterialessCommand::Urgent(v) => "unmark "@ + v.spec_render(),
            CriterialessCommand::Workspace(workspace) => "workspace "@ + workspace.spec_render(),
            CriterialessCommand::WorkspaceGaps(name, direction, amount) => "workspace "@
                + name.spec_render() + " gaps "@ + direction.spec_render() + " "@
                + amount.spec_render(),
            CriterialessCommand::WorkspaceOutput(name, outputs) => "workspace "@
                + name.spec_render() + " output "@ + spec_join(vec1_contents(*outputs), " "@),
            CriterialessCommand::WorkspaceAutoBackAndForth(v) => (
            "workspace_auto_back_and_forth "@ + v.spec_render()),
        }
    }

    /// Renders this command to its protocol text.
    pub fn render(&self) -> (r: String)
        ensures
            r@ == self.spec_render(),
        decreases self,
    {
        match self {
            CriterialessCommand::AssignWorkspace(criteria, _) => cat4(
                "assign ",
                criteria.render().as_str(),
                " → workspace ",
                criteria.render().as_str(),
            ),
            CriterialessCommand::AssignOutput(criteria, _) => cat4(
                "assign ",
                criteria.render().as_str(),
                " → output ",
                criteria.render().as_str(),
            ),
            CriterialessCommand::Bindsym(flags, key, command) => cat6(
                "bindsym ",
                flags.render().as_str(),
                " ",
                key.render().as_str(),
                " ",
                command.render().as_str(),
            ),
            CriterialessCommand::Bindcode(flags, code, command) => cat6(
                "bindcode ",
                flags.render().as_str(),
                " ",
                code.render().as_str(),
                " ",
                command.render().as_str(),
            ),
            CriterialessCommand::Bindswitch(flags, switch, state, command) => {
                let mut r = "bindswitch ".to_owned();
                r.append(flags.render().as_str());
                r.append(" ");
                r.append(switch.render().as_str());
                r.append(":");
                r.append(state.render().as_str());
                r.append(" ");
                r.append(command.render().as_str());
                r
            },
            CriterialessCommand::ClientBackground(color) => cat2(
                "client.background ",
                color.as_str(),
            ),
            CriterialessCommand::Client(class) => cat2("client.", class.render().as_str()),
            CriterialessCommand::DefaultBorder(border) => cat2(
                "default_border ",
                border.render().as_str(),
            ),
            CriterialessCommand::DefaultFloatingBorder(border) => cat2(
                "default_floating_border ",
                border.render().as_str(),
            ),
            CriterialessCommand::Exec(command) => cat2("exec ", command.as_str()),
            CriterialessCommand::ExecAlways(command) => cat2("exec_always ", command.as_str()),
            CriterialessCommand::FloatingMaximumSize(width, height) => cat4(
                "floating_maximum_size ",
                width.render().as_str(),
                " x ",
                height.render().as_str(),
            ),
            CriterialessCommand::FloatingMinimumSize(width, height) => cat4(
                "floating_minimum_size ",
                width.render().as_str(),
                " x ",
                height.render().as_str(),
            ),
            CriterialessCommand::FloatingModifier(modifier, mode) => cat4(
                "floating_modifier ",
                to_string_or_empty(modifier).as_str(),
                " x ",
                mode.render().as_str(),
            ),
            CriterialessCommand::FocusFollowsMouse(v) => cat2(
                "focus_follows_mouse ",
                v.render().as_str(),
            ),
            CriterialessCommand::FocusOnWindowActivation(v) => cat2(
                "focus_on_window_activation ",
                v.render().as_str(),
            ),
            CriterialessCommand::FocusWrapping(v) => cat2(
                "focus_wrapping ",
                v.render().as_str(),
            ),
            CriterialessCommand::Font(font) => cat2("font ", font.render().as_str()),
            CriterialessCommand::ForceDisplayUrgencyHint(timeout) => cat3(
                "force_display_urgency_hint ",
                render_u32(*timeout).as_str(),
                " ms",
            ),
            CriterialessCommand::TitlebarBorderThickness(thickness) => cat2(
                "titlebar_border_thickness ",
                render_u32(*thickness).as_str(),
            ),
            CriterialessCommand::TitlebarPadding(horizontal, vertical) => cat4(
                "titlebar_padding ",
                horizontal.render().as_str(),
                " ",
                to_string_or_empty(vertical).as_str(),
            ),
            CriterialessCommand::ForWindow(criteria, command) => cat4(
                "for_window ",
                criteria.render().as_str(),
                " ",
                command.render().as_str(),
            ),
            CriterialessCommand::Gaps(direction, amount) => cat4(
                "gaps ",
                direction.render().as_str(),
                " ",
                render_u32(*amount).as_str(),
            ),
            CriterialessCommand::HideEdgeBorders(v) => cat2(
                "hide_edge_borders ",
                v.render().as_str(),
            ),
            CriterialessCommand::HideEdgeBordersI3(v) => cat2(
                "hide_edge_borders --i3 ",
                v.render().as_str(),
            ),
            CriterialessCommand::Input(device, subcommands) => cat4(
                "input ",
                device.as_str(),
                " ",
                separated(subcommands, " ").as_str(),
            ),
            CriterialessCommand::Seat(seat, subcommands) => cat4(
                "seat ",
                seat.as_str(),
                " ",
                separated(subcommands, " ").as_str(),
            ),
            CriterialessCommand::Kill => "kill".to_owned(),
            CriterialessCommand::SmartBorders(v) => cat2("smart_borders ", v.render().as_str()),
            CriterialessCommand::SmartGaps(v) => cat2("smart_gaps ", v.render().as_str()),
            CriterialessCommand::Mark(modification, mark) => cat4(
                "mark ",
                modification.render().as_str(),
                " ",
                mark.as_str(),
            ),
            CriterialessCommand::Mode(_) => "mode".to_owned(),
            CriterialessCommand::ModeCmds(mode, subcommands) => cat4(
                "mode ",
                mode.as_str(),
                " ",
                separated(subcommands, " ").as_str(),
            ),
            CriterialessCommand::ModePangoMarkupCmds(mode, subcommands) => cat4(
                "mode --pango_markup ",
                mode.as_str(),
                " ",
                separated(subcommands, " ").as_str(),
            ),
            CriterialessCommand::MouseWarping(v) => cat2("mouse_warping ", v.render().as_str()),
            CriterialessCommand::NoFocus(criteria) => cat2(
                "no_focus ",
                criteria.render().as_str(),
            ),
            CriterialessCommand::Output(output, subcommands) => cat4(
                "output ",
                output.as_str(),
                " ",
                separated(subcommands, " ").as_str(),
            ),
            CriterialessCommand::PopupDuringFullscreen(v) => cat2(
                "popup_during_fullscreen ",
                v.render().as_str(),
            ),
            CriterialessCommand::SetVariable(name, value) => cat4(
                "set $",
                name.as_str(),
                " ",
                value.as_str(),
            ),
            CriterialessCommand::ShowMarks(v) => cat2("show_marks ", v.render().as_str()),
            CriterialessCommand::Opacity(modification, amount) => cat4(
                "opacity ",
                modification.render().as_str(),
                " ",
                amount.as_str(),
            ),
            CriterialessCommand::TilingDrag(v) => cat2("tiling_drag ", v.render().as_str()),
            CriterialessCommand::TilingDragThreshold(threshold) => cat2(
                "tiling_drag_threshold ",
                render_u32(*threshold).as_str(),
            ),
            CriterialessCommand::TitleAlign(v) => cat2("title_align ", v.render().as_str()),
            CriterialessCommand::Unbindswitch(switch, state) => cat4(
                "unbindswitch ",
                switch.render().as_str(),
                ":",
                state.render().as_str(),
            ),
            CriterialessCommand::Unbindsym(flags, key) => cat4(
                "unbindsym ",
                flags.render().as_str(),
                " ",
                key.render().as_str(),
            ),
            CriterialessCommand::Unbindcode(flags, code) => cat4(
                "unbindcode ",
                flags.render().as_str(),
                " ",
                code.render().as_str(),
            ),
            CriterialessCommand::Unmark(mark) => cat2("unmark ", mark.as_str()),
            CriterialessCommand::Urgent(v) => cat2("unmark ", v.render().as_str()),
            CriterialessCommand::Workspace(workspace) => cat2(
                "workspace ",
                workspace.render().as_str(),
            ),
            CriterialessCommand::WorkspaceGaps(name, direction, amount) => cat6(
                "workspace ",
                name.render().as_str(),
                " gaps ",
                direction.render().as_str(),
                " ",
                render_u32(*amount).as_str(),
            ),
            CriterialessCommand::WorkspaceOutput(name, outputs) => {
                let items = vec1_to_vec(outputs);
                cat4(
                    "workspace ",
                    name.render().as_str(),
                    " output ",
                    separated(&items, " ").as_str(),
                )
            },
            CriterialessCommand::WorkspaceAutoBackAndForth(v) => cat2(
                "workspace_auto_back_and_forth ",
                v.render().as_str(),
            ),
        }
    }
}

/// The flags of a key or button binding, each rendered as its option text
/// when set.
pub struct BindFlags {
    /// The cursor can be anywhere over a window including the title,
    /// border, and content.
    pub whole_window: bool,
    /// The border of the window is included in the trigger region.
    pub border: bool,
    /// Excludes the titlebar from the trigger region.
    pub exclude_title_bar: bool,
    /// The command is executed when the key combo is released.
    pub release: bool,
    /// Run the command even when a screen locking program is active.
    pub locked: bool,
    /// Translate keysyms into the corresponding keycodes in the first
    /// configured layout, making the binding layout-independent.
    pub to_code: bool,
    /// The binding is only executed for this input device.
    pub input_device: Option<String>,
    /// Silence the warning when overwriting a binding.
    pub no_warn: bool,
    /// Do not run the command repeatedly when the key is held.
    pub no_repeat: bool,
    /// Run the command even when a keyboard shortcuts inhibitor is active.
    pub inhibited: bool,
}

impl Default for BindFlags {
    /// No flag set.
    fn default() -> (r: BindFlags)
        ensures
            r == (BindFlags {
                whole_window: false,
                border: false,
                exclude_title_bar: false,
                release: false,
                locked: false,
                to_code: false,
                input_device: Option::None,
                no_warn: false,
                no_repeat: false,
                inhibited: false,
            }),
    {
        BindFlags {
            whole_window: false,
            border: false,
            exclude_title_bar: false,
            release: false,
            locked: false,
            to_code: false,
            input_device: Option::None,
            no_warn: false,
            no_repeat: false,
            inhibited: false,
        }
    }
}

/// The text of the input-device flag: the option with the device name, or
/// empty when no device is named.
pub open spec fn spec_input_device(device: Option<String>) -> Seq<char> {
    match device {
        Option::Some(name) => "--input-device="@ + name@,
        Option::None => Seq::empty(),
    }
}

impl Render for BindFlags {
    open spec fn spec_render(&self) -> Seq<char> {
        spec_when(self.whole_window, "--whole-window"@) + " "@ + spec_when(
            self.border,
            "--border"@,
        ) + " "@ + spec_when(self.exclude_title_bar, "--exclude-title-bar"@) + " "@ + spec_when(
            self.release,
            "--release"@,
        ) + " "@ + spec_when(self.locked, "--locked"@) + " "@ + spec_when(
            self.to_code,
            "--to-code"@,
        ) + " "@ + spec_input_device(self.input_device) + " "@ + spec_when(
            self.no_warn,
            "--no-warn"@,
        ) + " "@ + spec_when(self.no_repeat, "--no-repeat"@) + " "@ + spec_when(
            self.inhibited,
            "--inhibited"@,
        )
    }

    #[verifier::rlimit(40)]
    fn render(&self) -> (r: String) {
        let mut r = crate::render::when(self.whole_window, "--whole-window").to_owned();
        r.append(" ");
        r.append(crate::render::when(self.border, "--border"));
        r.append(" ");
        r.append(crate::render::when(self.exclude_title_bar, "--exclude-title-bar"));
        r.append(" ");
        r.append(crate::render::when(self.release, "--release"));
        r.append(" ");
        r.append(crate::render::when(self.locked, "--locked"));
        r.append(" ");
        r.append(crate::render::when(self.to_code, "--to-code"));
        r.append(" ");
        let ghost before_device = r@;
        match &self.input_device {
            Option::Some(name) => {
                r.append("--input-device=");
                r.append(name.as_str());
            },
            Option::None => {},
        }
        proof {
            assert(r@ =~= before_device + spec_input_device(self.input_device));
        }
        r.append(" ");
        r.append(crate::render::when(self.no_warn, "--no-warn"));
        r.append(" ");
        r.append(crate::render::when(self.no_repeat, "--no-repeat"));
        r.append(" ");
        r.append(crate::render::when(self.inhibited, "--inhibited"));
        r
    }
}

/// A key binding target: an optional group, modifiers, then the key name.
pub struct SymKey {
    group: Group,
    modifiers: Modifiers,
    key: String,
}

impl SymKey {
    /// The group, as specifications see it.
    pub closed spec fn spec_group(&self) -> Group {
        self.group
    }

    /// The modifiers, as specifications see them.
    pub closed spec fn spec_modifiers(&self) -> Modifiers {
        self.modifiers
    }

    /// The key name, as specifications see it.
    pub closed spec fn spec_key(&self) -> Seq<char> {
        self.key@
    }

    /// A binding for a bare key: no group and no modifier.
    pub fn key(key: &str) -> (r: SymKey)
        ensures
            r.spec_group() == Group::NoGroup,
            r.spec_modifiers() == (Modifiers {
                mod1: false,
                mod2: false,
                mod3: false,
                mod4: false,
                shift: false,
                control: false,
            }),
            r.spec_key() == key@,
    {
        SymKey { group: Group::default(), modifiers: Modifiers::default(), key: key.to_owned() }
    }
}

impl Render for SymKey {
    open spec fn spec_render(&self) -> Seq<char> {
        self.spec_group().spec_render() + self.spec_modifiers().spec_render() + self.spec_key()
    }

    fn render(&self) -> (r: String) {
        let mut r = self.group.render();
        r.append(self.modifiers.render().as_str());
        r.append(self.key.as_str());
        r
    }
}

/// A key binding target by key code: modifiers, then the code.
pub struct SymCode {
    modifiers: Modifiers,
    key: u32,
}

impl SymCode {
    /// The modifiers, as specifications see them.
    pub closed spec fn spec_modifiers(&self) -> Modifiers {
        self.modifiers
    }

    /// The key code, as specifications see it.
    pub closed spec fn spec_key(&self) -> u32 {
        self.key
    }

    /// A binding target for the given modifiers and key code.
    pub fn new(modifiers: Modifiers, key: u32) -> (r: SymCode)
        ensures
            r.spec_modifiers() == modifiers,
            r.spec_key() == key,
    {
        SymCode { modifiers, key }
    }
}

impl Render for SymCode {
    open spec fn spec_render(&self) -> Seq<char> {
        self.spec_modifiers().spec_render() + self.spec_key().spec_render()
    }

    fn render(&self) -> (r: String) {
        let mut r = self.modifiers.render();
        r.append(render_u32(self.key).as_str());
        r
    }
}

/// The group of a key binding; each group renders with a trailing plus
/// sign, and no group renders as nothing.
#[derive(Clone, Copy)]
pub enum Group {
    NoGroup,
    Group1,
    Group2,
    Group3,
    Group4,
}

impl Default for Group {
    /// No group.
    fn default() -> (r: Group)
        ensures
            r == Group::NoGroup,
    {
        Group::NoGroup
    }
}

impl Render for Group {
    open spec fn spec_render(&self) -> Seq<char> {
        match self {
            Group::NoGroup => Seq::empty(),
            Group::Group1 => "Group1+"@,
            Group::Group2 => "Group2+"@,
            Group::Group3 => "Group3+"@,
            Group::Group4 => "Group4+"@,
        }
    }

    fn render(&self) -> (r: String) {
        match self {
            Group::NoGroup => String::new(),
            Group::Group1 => "Group1+".to_owned(),
            Group::Group2 => "Group2+".to_owned(),
            Group::Group3 => "Group3+".to_owned(),
            Group::Group4 => "Group4+".to_owned(),
        }
    }
}

/// The modifier keys of a binding, rendered as the concatenation of each
/// set modifier's token in a fixed order; the tokens self-delimit with
/// their trailing plus signs.
#[derive(Clone, Copy)]
pub struct Modifiers {
    pub mod1: bool,
    pub mod2: bool,
    pub mod3: bool,
    pub mod4: bool,
    pub shift: bool,
    pub control: bool,
}

impl Default for Modifiers {
    /// No modifier set.
    fn default() -> (r: Modifiers)
        ensures
            r == (Modifiers {
                mod1: false,
                mod2: false,
                mod3: false,
                mod4: false,
                shift: false,
                control: false,
            }),
    {
        Modifiers { mod1: false, mod2: false, mod3: false, mod4: false, shift: false, control: false }
    }
}

impl Render for Modifiers {
    open spec fn spec_render(&self) -> Seq<char> {
        spec_when(self.mod1, "Mod1+"@) + spec_when(self.mod2, "Mod2+"@) + spec_when(
            self.mod3,
            "Mod3+"@,
        ) + spec_when(self.mod4, "Mod4+"@) + spec_when(self.shift, "Shift+"@) + spec_when(
            self.control,
            "Control+"@,
        )
    }

    fn render(&self) -> (r: String) {
        let mut r = crate::render::when(self.mod1, "Mod1+").to_owned();
        r.append(crate::render::when(self.mod2, "Mod2+"));
        r.append(crate::render::when(self.mod3, "Mod3+"));
        r.append(crate::render::when(self.mod4, "Mod4+"));
        r.append(crate::render::when(self.shift, "Shift+"));
        r.append(crate::render::when(self.control, "Control+"));
        r
    }
}

/// The flags of a switch binding, each rendered as its option text when
/// set.
pub struct BindswitchFlags {
    /// Run the command even when a screen locking program is active.
    pub locked: bool,
    /// Silence the warning when overwriting a binding.
    pub no_warn: bool,
    /// Also execute the binding when the config is reloaded.
    pub reload: bool,
}

impl Default for BindswitchFlags {
    /// No flag set.
    fn default() -> (r: BindswitchFlags)
        ensures
            r == (BindswitchFlags { locked: false, no_warn: false, reload: false }),
    {
        BindswitchFlags { locked: false, no_warn: false, reload: false }
    }
}

impl Render for BindswitchFlags {
    open spec fn spec_render(&self) -> Seq<char> {
        spec_when(self.locked, "--locked"@) + " "@ + spec_when(self.no_warn, "--no-warn"@) + " "@
            + spec_when(self.reload, "--reload"@)
    }

    fn render(&self) -> (r: String) {
        let mut r = crate::render::when(self.locked, "--locked").to_owned();
        r.append(" ");
        r.append(crate::render::when(self.no_warn, "--no-warn"));
        r.append(" ");
        r.append(crate::render::when(self.reload, "--reload"));
        r
    }
}

/// A switch whose state changes can be bound.
pub enum Switch {
    /// The laptop lid.
    Lid,
    /// Tablet mode.
    Tablet,
}

impl Render for Switch {
    open spec fn spec_render(&self) -> Seq<char> {
        match self {
            Switch::Lid => "lid"@,
            Switch::Tablet => "tablet"@,
        }
    }

    fn render(&self) -> (r: String) {
        match self {
            Switch::Lid => "lid".to_owned(),
            Switch::Tablet => "tablet".to_owned(),
        }
    }
}

/// The state of a switch a binding reacts to.
pub enum SwitchState {
    On,
    Off,
    Toggle,
}

impl Render for SwitchState {
    open spec fn spec_render(&self) -> Seq<char> {
        match self {
            SwitchState::On => "on"@,
            SwitchState::Off => "off"@,
            SwitchState::Toggle => "toggle"@,
        }
    }

    fn render(&self) -> (r: String) {
        match self {
            SwitchState::On => "on".to_owned(),
            SwitchState::Off => "off".to_owned(),
            SwitchState::Toggle => "toggle".to_owned(),
        }
    }
}

/// The colors of one window class.
///
/// The indicator color is optional, and the child border color only
/// renders when the indicator is present.
pub struct ClientClass {
    pub class: Class,
    /// The border around the title bar.
    pub border: Color,
    /// The background of the title bar.
    pub background: Color,
    /// The text color of the title bar.
    pub text: Color,
    /// The color used to indicate where a new view will open.
    pub indicator: Option<Color>,
    /// The border around the view itself; requires the indicator to be
    /// set.
    pub child_border: Option<Color>,
}

impl Render for ClientClass {
    open spec fn spec_render(&self) -> Seq<char> {
        self.class.spec_render() + " "@ + self.border.spec_render() + " "@
            + self.background.spec_render() + " "@ + self.text.spec_render() + " "@
            + spec_opt_render(self.indicator) + " "@ + (match (self.indicator, self.child_border) {
            (Option::Some(_), Option::Some(child)) => child.spec_render(),
            _ => Seq::empty(),
        })
    }

    fn render(&self) -> (r: String) {
        let mut r = self.class.render();
        r.append(" ");
        r.append(self.border.render().as_str());
        r.append(" ");
        r.append(self.background.render().as_str());
        r.append(" ");
        r.append(self.text.render().as_str());
        r.append(" ");
        r.append(to_string_or_empty(&self.indicator).as_str());
        r.append(" ");
        match (&self.indicator, &self.child_border) {
            (Option::Some(_), Option::Some(child)) => {
                r.append(child.render().as_str());
            },
            _ => {},
        }
        r
    }
}

/// A color of three byte components and an optional alpha component.
#[derive(Clone, Copy)]
pub struct Color {
    red: u8,
    green: u8,
    blue: u8,
    alpha: Option<u8>,
}

impl Color {
    pub closed spec fn spec_red(&self) -> u8 {
        self.red
    }

    pub closed spec fn spec_green(&self) -> u8 {
        self.green
    }

    pub closed spec fn spec_blue(&self) -> u8 {
        self.blue
    }

    pub closed spec fn spec_alpha(&self) -> Option<u8> {
        self.alpha
    }

    /// A color from its components.
    pub fn new(red: u8, green: u8, blue: u8, alpha: Option<u8>) -> (r: Color)
        ensures
            r.spec_red() == red,
            r.spec_green() == green,
            r.spec_blue() == blue,
            r.spec_alpha() == alpha,
    {
        Color { red, green, blue, alpha }
    }
}

impl Render for Color {
    /// A number sign, then each component as exactly two uppercase
    /// hexadecimal digits, the alpha component only when present.
    open spec fn spec_render(&self) -> Seq<char> {
        "#"@ + spec_hex_byte(self.spec_red() as nat) + spec_hex_byte(self.spec_green() as nat)
            + spec_hex_byte(self.spec_blue() as nat) + (match self.spec_alpha() {
            Option::Some(alpha) => spec_hex_byte(alpha as nat),
            Option::None => Seq::empty(),
        })
    }

    fn render(&self) -> (r: String) {
        let mut r = "#".to_owned();
        r.append(render_hex_byte(self.red).as_str());
        r.append(render_hex_byte(self.green).as_str());
        r.append(render_hex_byte(self.blue).as_str());
        match self.alpha {
            Option::Some(alpha) => {
                r.append(render_hex_byte(alpha).as_str());
            },
            Option::None => {},
        }
        r
    }
}

/// The window class a client color setting applies to.
pub enum Class {
    /// The window that has focus.
    Focused,
    /// The most recently focused view within a container which is not
    /// focused.
    FocusedInactive,
    /// A view that has a focused descendant container.
    FocusedTabTitle,
    /// Ignored (present for i3 compatibility).
    Placeholder,
    /// A view that does not have focus.
    Unfocused,
    /// A view with an urgency hint.
    Urgent,
}

impl Render for Class {
    open spec fn spec_render(&self) -> Seq<char> {
        match self {
            Class::Focused => "focused"@,
            Class::FocusedInactive => "focused_inactive"@,
            Class::FocusedTabTitle => "focused_tab_title"@,
            Class::Placeholder => "placeholder"@,
            Class::Unfocused => "unfocused"@,
            Class::Urgent => "urgent"@,
        }
    }

    fn render(&self) -> (r: String) {
        match self {
            Class::Focused => "focused".to_owned(),
            Class::FocusedInactive => "focused_inactive".to_owned(),
            Class::FocusedTabTitle => "focused_tab_title".to_owned(),
            Class::Placeholder => "placeholder".to_owned(),
            Class::Unfocused => "unfocused".to_owned(),
            Class::Urgent => "urgent".to_owned(),
        }
    }
}

/// A strictly positive number of pixels.
#[derive(Clone, Copy)]
pub struct Positive {
    value: u32,
}

impl Positive {
    /// The value, as specifications see it.
    pub closed spec fn spec_value(&self) -> u32 {
        self.value
    }

    /// The value is never zero.
    pub open spec fn wf(&self) -> bool {
        self.spec_value() > 0
    }

    /// Some for any value above zero, None for zero exactly.
    pub fn new(value: u32) -> (r: Option<Positive>)
        ensures
            value > 0 ==> (r matches Some(p) && p.spec_value() == value && p.wf()),
            value == 0 ==> r is None,
    {
        if value > 0 {
            Option::Some(Positive { value })
        } else {
            Option::None
        }
    }

    /// The held value.
    pub fn get(&self) -> (r: u32)
        ensures
            r == self.spec_value(),
    {
        self.value
    }
}

impl Render for Positive {
    open spec fn spec_render(&self) -> Seq<char> {
        self.spec_value().spec_render()
    }

    fn render(&self) -> (r: String) {
        render_u32(self.value)
    }
}

/// The default border style for new windows.
pub enum DefaultBorder {
    NoBorder,
    /// A border of the given thickness and a title bar.
    Normal(Option<u32>),
    /// A border without title bar, the given number of pixels thick.
    Pixel(Option<u32>),
}

impl Render for DefaultBorder {
    open spec fn spec_render(&self) -> Seq<char> {
        match self {
            DefaultBorder::NoBorder => "none"@,
            DefaultBorder::Normal(thickness) => "normal "@ + spec_opt_render(*thickness),
            DefaultBorder::Pixel(thickness) => "pixel "@ + spec_opt_render(*thickness),
        }
    }

    fn render(&self) -> (r: String) {
        match self {
            DefaultBorder::NoBorder => "none".to_owned(),
            DefaultBorder::Normal(thickness) => cat2(
                "normal ",
                to_string_or_empty(thickness).as_str(),
            ),
            DefaultBorder::Pixel(thickness) => cat2(
                "pixel ",
                to_string_or_empty(thickness).as_str(),
            ),
        }
    }
}

/// Which mouse button moves and which resizes floating windows.
pub enum FloatingModifierMode {
    /// Left click moves and right click resizes.
    Normal,
    /// Left click resizes and right click moves.
    Inverse,
}

impl Render for FloatingModifierMode {
    open spec fn spec_render(&self) -> Seq<char> {
        match self {
            FloatingModifierMode::Normal => "normal"@,
            FloatingModifierMode::Inverse => "inverse"@,
        }
    }

    fn render(&self) -> (r: String) {
        match self {
            FloatingModifierMode::Normal => "normal".to_owned(),
            FloatingModifierMode::Inverse => "inverse".to_owned(),
        }
    }
}

/// Whether moving the mouse over a window focuses it.
pub enum MouseFocus {
    /// Moving the mouse over a window focuses that window.
    Yes,
    No,
    /// The window under the cursor is always focused, even after switching
    /// between workspaces.
    Always,
}

impl Render for MouseFocus {
    open spec fn spec_render(&self) -> Seq<char> {
        match self {
            MouseFocus::Yes => "yes"@,
            MouseFocus::No => "no"@,
            MouseFocus::Always => "always"@,
        }
    }

    fn render(&self) -> (r: String) {
        match self {
            MouseFocus::Yes => "yes".to_owned(),
            MouseFocus::No => "no".to_owned(),
            MouseFocus::Always => "always".to_owned(),
        }
    }
}

/// What happens when an xwayland window requests activation.
pub enum WindowActivationFocus {
    /// The window becomes focused only if it is already visible, otherwise
    /// the urgent state is set.
    Smart,
    /// The urgent state is set for that window.
    Urgent,
    /// The window becomes focused.
    Focus,
    NoActivation,
}

impl Render for WindowActivationFocus {
    open spec fn spec_render(&self) -> Seq<char> {
        match self {
            WindowActivationFocus::Smart => "Smart"@,
            WindowActivationFocus::Urgent => "Urgent"@,
            WindowActivationFocus::Focus => "Focus"@,
            WindowActivationFocus::NoActivation => "None"@,
        }
    }

    fn render(&self) -> (r: String) {
        match self {
            WindowActivationFocus::Smart => "Smart".to_owned(),
            WindowActivationFocus::Urgent => "Urgent".to_owned(),
            WindowActivationFocus::Focus => "Focus".to_owned(),
            WindowActivationFocus::NoActivation => "None".to_owned(),
        }
    }
}

/// What happens when focusing over the edge of a container.
pub enum FocusWrapping {
    /// Focus wraps to the opposite edge of the container when there are no
    /// other containers in the direction.
    Yes,
    /// The focused container retains focus when there are no other
    /// containers in the direction.
    No,
    /// Focus wraps to the opposite edge of the container even if there are
    /// other containers in the direction.
    Force,
    /// Focus wraps as with yes, and additionally wraps when moving outside
    /// of workspace boundaries.
    Workspace,
}

impl Render for FocusWrapping {
    open spec fn spec_render(&self) -> Seq<char> {
        match self {
            FocusWrapping::Yes => "yes"@,
            FocusWrapping::No => "no"@,
            FocusWrapping::Force => "force"@,
            FocusWrapping::Workspace => "workspace"@,
        }
    }

    fn render(&self) -> (r: String) {
        match self {
            FocusWrapping::Yes => "yes".to_owned(),
            FocusWrapping::No => "no".to_owned(),
            FocusWrapping::Force => "force".to_owned(),
            FocusWrapping::Workspace => "workspace".to_owned(),
        }
    }
}

/// Which window borders adjacent to the screen edges are hidden.
pub enum EdgeBorders {
    NoBorders,
    Vertical,
    Horizontal,
    Both,
    Smart,
    SmartNoGaps,
}

impl Render for EdgeBorders {
    open spec fn spec_render(&self) -> Seq<char> {
        match self {
            EdgeBorders::NoBorders => "none"@,
            EdgeBorders::Vertical => "vertical"@,
            EdgeBorders::Horizontal => "horizontal"@,
            EdgeBorders::Both => "both"@,
            EdgeBorders::Smart => "smart"@,
            EdgeBorders::SmartNoGaps => "smart_no_gaps"@,
        }
    }

    fn render(&self) -> (r: String) {
        match self {
            EdgeBorders::NoBorders => "none".to_owned(),
            EdgeBorders::Vertical => "vertical".to_owned(),
            EdgeBorders::Horizontal => "horizontal".to_owned(),
            EdgeBorders::Both => "both".to_owned(),
            EdgeBorders::Smart => "smart".to_owned(),
            EdgeBorders::SmartNoGaps => "smart_no_gaps".to_owned(),
        }
    }
}

/// When borders are drawn at all.
pub enum SmartBorders {
    /// Borders are only enabled when the workspace has more than one
    /// visible child.
    On,
    /// Borders are only enabled when the workspace has more than one
    /// visible child and gaps equal to zero.
    NoGaps,
    Off,
}

impl Render for SmartBorders {
    open spec fn spec_render(&self) -> Seq<char> {
        match self {
            SmartBorders::On => "on"@,
            SmartBorders::NoGaps => "no_gaps"@,
            SmartBorders::Off => "off"@,
        }
    }

    fn render(&self) -> (r: String) {
        match self {
            SmartBorders::On => "on".to_owned(),
            SmartBorders::NoGaps => "no_gaps".to_owned(),
            SmartBorders::Off => "off".to_owned(),
        }
    }
}

/// When gaps are drawn at all.
pub enum SmartGaps {
    /// Gaps are only enabled when a workspace has more than one child.
    On,
    Off,
    Toggle,
    /// Outer gaps are only enabled when a workspace has exactly one child.
    InverseOuter,
}

impl Render for SmartGaps {
    open spec fn spec_render(&self) -> Seq<char> {
        match self {
            SmartGaps::On => "on"@,
            SmartGaps::Off => "off"@,
            SmartGaps::Toggle => "toggle"@,
            SmartGaps::InverseOuter => "inverse_outer"@,
        }
    }

    fn render(&self) -> (r: String) {
        match self {
            SmartGaps::On => "on".to_owned(),
            SmartGaps::Off => "off".to_owned(),
            SmartGaps::Toggle => "toggle".to_owned(),
            SmartGaps::InverseOuter => "inverse_outer".to_owned(),
        }
    }
}

/// How a mark is added to a window's marks.
pub enum MarkModification {
    /// Adds the identifier to the list of current marks.
    Add,
    /// Adds the identifier, or removes it if it is already marked.
    AddToggle,
    /// Sets the identifier as the only mark on a window.
    Replace,
    /// Sets the identifier as the only mark, or removes it if it is
    /// already marked.
    ReplaceToggle,
}

impl Render for MarkModification {
    open spec fn spec_render(&self) -> Seq<char> {
        match self {
            MarkModification::Add => "Add"@,
            MarkModification::AddToggle => "AddToggle"@,
            MarkModification::Replace => "Replace"@,
            MarkModification::ReplaceToggle => "ReplaceToggle"@,
        }
    }

    fn render(&self) -> (r: String) {
        match self {
            MarkModification::Add => "Add".to_owned(),
            MarkModification::AddToggle => "AddToggle".to_owned(),
            MarkModification::Replace => "Replace".to_owned(),
            MarkModification::ReplaceToggle => "ReplaceToggle".to_owned(),
        }
    }
}

/// Where the mouse warps on focus switches.
pub enum MouseWarping {
    /// The mouse is moved to new outputs as focus moves between them.
    Output,
    /// The mouse is moved to the middle of the container on switch.
    Container,
    NoWarping,
}

impl Render for MouseWarping {
    open spec fn spec_render(&self) -> Seq<char> {
        match self {
            MouseWarping::Output => "output"@,
            MouseWarping::Container => "container"@,
            MouseWarping::NoWarping => "none"@,
        }
    }

    fn render(&self) -> (r: String) {
        match self {
            MouseWarping::Output => "output".to_owned(),
            MouseWarping::Container => "container".to_owned(),
            MouseWarping::NoWarping => "none".to_owned(),
        }
    }
}

/// What to do when a fullscreen view opens a dialog.
pub enum PopupDuringFullscreen {
    /// The dialog is displayed.
    Smart,
    /// The dialog is not rendered.
    Ignore,
    /// The view exits fullscreen mode and the dialog is rendered.
    LeaveFullscreen,
}

impl Render for PopupDuringFullscreen {
    open spec fn spec_render(&self) -> Seq<char> {
        match self {
            PopupDuringFullscreen::Smart => "Smart"@,
            PopupDuringFullscreen::Ignore => "Ignore"@,
            PopupDuringFullscreen::LeaveFullscreen => "LeaveFullscreen"@,
        }
    }

    fn render(&self) -> (r: String) {
        match self {
            PopupDuringFullscreen::Smart => "Smart".to_owned(),
            PopupDuringFullscreen::Ignore => "Ignore".to_owned(),
            PopupDuringFullscreen::LeaveFullscreen => "LeaveFullscreen".to_owned(),
        }
    }
}

/// How an opacity amount is applied.
pub enum OpacityModification {
    SetTo,
    Plus,
    Minus,
}

impl Render for OpacityModification {
    open spec fn spec_render(&self) -> Seq<char> {
        match self {
            OpacityModification::SetTo => "set"@,
            OpacityModification::Plus => "plus"@,
            OpacityModification::Minus => "minus"@,
        }
    }

    fn render(&self) -> (r: String) {
        match self {
            OpacityModification::SetTo => "set".to_owned(),
            OpacityModification::Plus => "plus".to_owned(),
            OpacityModification::Minus => "minus".to_owned(),
        }
    }
}

/// The title alignment.
pub enum TitleAlign {
    Left,
    Center,
    Right,
}

impl Render for TitleAlign {
    open spec fn spec_render(&self) -> Seq<char> {
        match self {
            TitleAlign::Left => "left"@,
            TitleAlign::Center => "center"@,
            TitleAlign::Right => "right"@,
        }
    }

    fn render(&self) -> (r: String) {
        match self {
            TitleAlign::Left => "left".to_owned(),
            TitleAlign::Center => "center".to_owned(),
            TitleAlign::Right => "right".to_owned(),
        }
    }
}

/// Manual control of a window's urgent state.
pub enum Urgent {
    /// Sets the window's urgent state.
    Enable,
    /// Unsets the window's urgent state.
    Disable,
    /// Allows the window to set itself as urgent.
    Allow,
    /// Denies the window the ability to set itself as urgent.
    Deny,
}

impl Render for Urgent {
    open spec fn spec_render(&self) -> Seq<char> {
        match self {
            Urgent::Enable => "enable"@,
            Urgent::Disable => "disable"@,
            Urgent::Allow => "allow"@,
            Urgent::Deny => "deny"@,
        }
    }

    fn render(&self) -> (r: String) {
        match self {
            Urgent::Enable => "enable".to_owned(),
            Urgent::Disable => "disable".to_owned(),
            Urgent::Allow => "allow".to_owned(),
            Urgent::Deny => "deny".to_owned(),
        }
    }
}

} // verus!
