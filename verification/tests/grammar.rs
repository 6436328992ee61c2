use sway_command::commands::{
    Border, EnDisTog, EnDisable, Focus, FocusOutput, FullscreenGlobal, GapsDirection,
    GapsModification, GapsWorkspaces, InhibitIdle, Layout, LayoutToggle, LayoutToggleOptions,
    Length, MaxRenderTime, Move, Output, Resize, Split, SubCommand, Swap, Workspace,
    WorkspaceName,
};
use sway_command::render::Render;

#[test]
fn absent_optional_argument_keeps_its_position() {
    assert_eq!("normal ", Border::Normal(None).render());
    assert_eq!("pixel ", Border::Pixel(None).render());
}

#[test]
fn present_optional_argument_renders_in_decimal() {
    assert_eq!("normal 2", Border::Normal(Some(2)).render());
    assert_eq!("pixel 10", Border::Pixel(Some(10)).render());
}

#[test]
fn border_sub_command_prefixes_keyword() {
    assert_eq!("border none", SubCommand::Border(Border::NoBorder).render());
    assert_eq!("border csd", SubCommand::Border(Border::ClientSideDecorations).render());
    assert_eq!("border toggle", SubCommand::Border(Border::Toggle).render());
}

#[test]
fn focus_this_renders_with_trailing_space() {
    assert_eq!("focus ", SubCommand::Focus(Focus::This).render());
}

#[test]
fn focus_sibling_flag_inverts_the_bool() {
    assert_eq!("prev sibling", Focus::Prev(false).render());
    assert_eq!("prev ", Focus::Prev(true).render());
    assert_eq!("next sibling", Focus::Next(false).render());
    assert_eq!("next ", Focus::Next(true).render());
}

#[test]
fn focus_output_takes_a_name() {
    assert_eq!(
        "focus output DP-1",
        SubCommand::Focus(Focus::Output(FocusOutput::Name("DP-1".to_string()))).render()
    );
}

#[test]
fn fullscreen_renders_under_the_focus_keyword() {
    assert_eq!(
        "focus enable global",
        SubCommand::Fullscreen(EnDisTog::Enable, FullscreenGlobal::Global).render()
    );
    assert_eq!(
        "focus toggle ",
        SubCommand::Fullscreen(EnDisTog::Toggle, FullscreenGlobal::No).render()
    );
}

#[test]
fn gaps_sub_command_has_a_comma_before_the_amount() {
    assert_eq!(
        "gaps inner all set, 12",
        SubCommand::Gaps(
            GapsDirection::Inner,
            GapsWorkspaces::All,
            GapsModification::SetTo,
            12
        )
        .render()
    );
}

#[test]
fn inhibit_idle_renders_its_keyword() {
    assert_eq!("inhibit_idle open", SubCommand::InhibitIdle(InhibitIdle::Open).render());
    assert_eq!("inhibit_idle none", SubCommand::InhibitIdle(InhibitIdle::NoInhibit).render());
}

#[test]
fn layout_toggle_joins_options_with_spaces() {
    assert_eq!(
        "layout toggle split tabbed splitv",
        SubCommand::Layout(Layout::Toggle(LayoutToggle::Options(vec![
            LayoutToggleOptions::Split,
            LayoutToggleOptions::Tabbed,
            LayoutToggleOptions::Splitv,
        ])))
        .render()
    );
    assert_eq!("toggle None", Layout::Toggle(LayoutToggle::Unset).render());
}

#[test]
fn max_render_time_renders_off_or_milliseconds() {
    assert_eq!("max_render_time off", SubCommand::MaxRenderTime(MaxRenderTime::Off).render());
    assert_eq!("max_render_time 7", SubCommand::MaxRenderTime(MaxRenderTime::Msec(7)).render());
}

#[test]
fn directional_moves_render_signed_pixels() {
    assert_eq!("move left -5 px", SubCommand::Move(Move::Left(-5)).render());
    assert_eq!("move right 0 px", SubCommand::Move(Move::Right(0)).render());
    assert_eq!("move up 2147483647 px", SubCommand::Move(Move::Up(i32::MAX)).render());
    assert_eq!(
        "move down -2147483648 px",
        SubCommand::Move(Move::Down(i32::MIN)).render()
    );
}

#[test]
fn move_position_repeats_the_first_length() {
    assert_eq!(
        "position 10 px 10 px",
        Move::Position(Length::Px(10), Length::Ppt(20)).render()
    );
    assert_eq!(
        "absolute position 3 px 3 px",
        Move::AbsolutePosition(3, 9).render()
    );
}

#[test]
fn move_mark_drops_the_mark_text() {
    assert_eq!("container to mark", Move::Mark("anything".to_string()).render());
}

#[test]
fn move_to_workspace_spells_the_full_phrase() {
    assert_eq!(
        "container to workspace number 3:mail",
        Move::Workspace(Workspace::Number(WorkspaceName::WithNumber(3, "mail".to_string())))
            .render()
    );
    assert_eq!(
        "--no-auto-back-and-forth container to workspace prev",
        Move::WorkspaceNoAutoBackAndForth(Workspace::Prev).render()
    );
    assert_eq!("container to scratchpad", Move::Scratchpad.render());
    assert_eq!("container to output up", Move::ContainerToOutput(Output::Up).render());
    assert_eq!(
        "workspace to output current",
        Move::WorkspaceToOutput(Output::Current).render()
    );
}

#[test]
fn workspace_name_variant_renders_the_placeholder_text() {
    assert_eq!("_0", Workspace::Name(WorkspaceName::Simple("web".to_string())).render());
}

#[test]
fn workspace_directions_render_their_keywords() {
    assert_eq!("prev_on_output", Workspace::PrevOnOutput.render());
    assert_eq!("next_on_output", Workspace::NextOnOutput.render());
    assert_eq!("back_and_forth", Workspace::BackAndForth.render());
    assert_eq!("current", Workspace::Current.render());
}

#[test]
fn nop_keeps_the_argument_position() {
    assert_eq!("nop ", SubCommand::Nop(None).render());
    assert_eq!("nop why not", SubCommand::Nop(Some("why not".to_string())).render());
}

#[test]
fn rename_repeats_the_old_name() {
    assert_eq!(
        "rename workspace a to a",
        SubCommand::RenameWorkspace("a".to_string(), "b".to_string()).render()
    );
    assert_eq!(
        "rename workspace to c",
        SubCommand::RenameFocusedWorkspace("c".to_string()).render()
    );
}

#[test]
fn resize_sub_command_drops_its_argument() {
    assert_eq!(
        "resize",
        SubCommand::Resize(Resize::GrowWidth(Length::Px(5))).render()
    );
}

#[test]
fn resize_variants_render_their_lengths() {
    assert_eq!("grow width 5 px", Resize::GrowWidth(Length::Px(5)).render());
    assert_eq!("shrink height 8 ppt", Resize::ShrinkHeight(Length::Ppt(8)).render());
    assert_eq!("set width 15", Resize::SetWidth(Length::Default(15)).render());
    assert_eq!(
        "set width 1 px height 1 px",
        Resize::SetBoth(Length::Px(1), Length::Px(2)).render()
    );
}

#[test]
fn split_renders_its_variant_name() {
    assert_eq!("Vertical", Split::Vertical.render());
    assert_eq!("Horizontal", Split::Horizontal.render());
    assert_eq!("None", Split::NoSplit.render());
    assert_eq!("Toggle", Split::Toggle.render());
}

#[test]
fn swap_renders_under_the_sticky_keyword() {
    assert_eq!("sticky mark m", SubCommand::Swap(Swap::Mark("m".to_string())).render());
    assert_eq!("sticky id 77", SubCommand::Swap(Swap::Id("77".to_string())).render());
    assert_eq!("sticky con_id 8", SubCommand::Swap(Swap::ConId("8".to_string())).render());
}

#[test]
fn shortcuts_inhibitor_enables_and_disables() {
    assert_eq!(
        "shortcuts_inhibitor enable",
        SubCommand::ShortcutsInhibitor(EnDisable::Enable).render()
    );
    assert_eq!(
        "shortcuts_inhibitor disable",
        SubCommand::ShortcutsInhibitor(EnDisable::Disable).render()
    );
}

#[test]
fn title_format_keeps_the_text() {
    assert_eq!(
        "title_format <b>%title</b>",
        SubCommand::TitleFormat("<b>%title</b>".to_string()).render()
    );
}

#[test]
fn gaps_direction_renders_every_keyword() {
    assert_eq!("inner", GapsDirection::Inner.render());
    assert_eq!("outer", GapsDirection::Outer.render());
    assert_eq!("horizontal", GapsDirection::Horizontal.render());
    assert_eq!("vertical", GapsDirection::Vertical.render());
    assert_eq!("top", GapsDirection::Top.render());
    assert_eq!("right", GapsDirection::Right.render());
    assert_eq!("bottom", GapsDirection::Bottom.render());
    assert_eq!("left", GapsDirection::Left.render());
}
