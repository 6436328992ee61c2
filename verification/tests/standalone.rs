use sway_command::commands::{
    BindFlags, BindswitchFlags, Class, ClientClass, Color, ConfigCommand, CriterialessCommand,
    DefaultBorder, DefaultOrientation, EdgeBorders, Font, FontDescription, FontSize, FontStyle,
    FontStyleOptions, FontWeight, Group, MarkModification, Modifiers, MouseWarping,
    OpacityModification, Positive, SubCommand, Switch, SwitchState, SymCode, SymKey, Urgent,
    WorkspaceLayout, WorkspaceName, Xwayland,
};
use sway_command::criteria::{Criteria, OrFocused};
use sway_command::render::Render;
use sway_command::{normalize_whitespace, Command};

#[test]
fn modifiers_concatenate_in_fixed_order() {
    let composite = Modifiers { mod4: true, shift: true, ..Modifiers::default() };
    assert_eq!("Mod4+Shift+", composite.render());
}

#[test]
fn all_modifiers_follow_the_documented_order() {
    let all = Modifiers {
        mod1: true,
        mod2: true,
        mod3: true,
        mod4: true,
        shift: true,
        control: true,
    };
    assert_eq!("Mod1+Mod2+Mod3+Mod4+Shift+Control+", all.render());
    assert_eq!("", Modifiers::default().render());
}

#[test]
fn color_renders_two_uppercase_digits_per_byte() {
    assert_eq!("#FF0010", Color::new(255, 0, 16, None).render());
}

#[test]
fn color_with_alpha_appends_its_byte() {
    assert_eq!("#FF001001", Color::new(255, 0, 16, Some(1)).render());
}

#[test]
fn client_colors_render_with_optional_tail() {
    let colors = ClientClass {
        class: Class::Focused,
        border: Color::new(0, 0, 0, None),
        background: Color::new(255, 255, 255, None),
        text: Color::new(10, 11, 12, None),
        indicator: None,
        child_border: Some(Color::new(1, 2, 3, None)),
    };
    assert_eq!("focused #000000 #FFFFFF #0A0B0C  ", colors.render());
    let with_indicator = ClientClass {
        indicator: Some(Color::new(4, 5, 6, None)),
        ..colors
    };
    assert_eq!(
        "client.focused #000000 #FFFFFF #0A0B0C #040506 #010203",
        CriterialessCommand::Client(with_indicator).render()
    );
}

#[test]
fn sym_key_holds_a_bare_key() {
    assert_eq!("a", SymKey::key("a").render());
}

#[test]
fn sym_code_prefixes_modifiers() {
    let code = SymCode::new(Modifiers { control: true, ..Modifiers::default() }, 64);
    assert_eq!("Control+64", code.render());
}

#[test]
fn group_renders_with_trailing_plus() {
    assert_eq!("", Group::NoGroup.render());
    assert_eq!("Group2+", Group::Group2.render());
}

#[test]
fn bindsym_with_flags_normalizes_to_the_protocol_form() {
    let flags = BindFlags { release: true, to_code: true, ..BindFlags::default() };
    let command = CriterialessCommand::Bindsym(
        flags,
        SymKey::key("q"),
        Command::from(SubCommand::Exit),
    );
    assert_eq!(
        "bindsym --release --to-code q exit",
        normalize_whitespace(&command.render())
    );
}

#[test]
fn bindsym_names_the_input_device() {
    let flags = BindFlags {
        input_device: Some("kb0".to_string()),
        ..BindFlags::default()
    };
    let command = CriterialessCommand::Bindsym(
        flags,
        SymKey::key("x"),
        Command::from(SubCommand::Reload),
    );
    assert_eq!(
        "bindsym --input-device=kb0 x reload",
        normalize_whitespace(&command.render())
    );
}

#[test]
fn bindswitch_joins_switch_and_state_with_a_colon() {
    let command = CriterialessCommand::Bindswitch(
        BindswitchFlags { reload: true, ..BindswitchFlags::default() },
        Switch::Lid,
        SwitchState::Off,
        Command::from("exec poweroff"),
    );
    assert_eq!(
        "bindswitch --reload lid:off exec poweroff",
        normalize_whitespace(&command.render())
    );
    assert_eq!(
        "unbindswitch tablet:toggle",
        CriterialessCommand::Unbindswitch(Switch::Tablet, SwitchState::Toggle).render()
    );
}

#[test]
fn assign_renders_the_criteria_twice() {
    let list = sway_command::criteria::CriteriaList::new(Criteria::Floating);
    assert_eq!(
        "assign [floating] → workspace [floating]",
        CriterialessCommand::AssignWorkspace(
            list,
            sway_command::commands::Workspace::Prev
        )
        .render()
    );
}

#[test]
fn for_window_renders_the_bare_criterion() {
    let command = CriterialessCommand::ForWindow(
        Criteria::Class(OrFocused::Value("mpv".to_string())),
        Command::from(SubCommand::Sticky(sway_command::commands::EnDisTog::Enable)),
    );
    assert_eq!("for_window class=\"mpv\" sticky enable", command.render());
}

#[test]
fn set_variable_prefixes_a_dollar_sign() {
    assert_eq!(
        "set $term alacritty",
        CriterialessCommand::SetVariable("term".to_string(), "alacritty".to_string()).render()
    );
}

#[test]
fn urgent_command_renders_under_the_unmark_keyword() {
    assert_eq!("unmark enable", CriterialessCommand::Urgent(Urgent::Enable).render());
    assert_eq!("unmark deny", CriterialessCommand::Urgent(Urgent::Deny).render());
}

#[test]
fn mode_drops_its_name_but_mode_blocks_keep_it() {
    assert_eq!("mode", CriterialessCommand::Mode("resize".to_string()).render());
    assert_eq!(
        "mode resize bindsym h exec left",
        CriterialessCommand::ModeCmds(
            "resize".to_string(),
            vec!["bindsym h exec left".to_string()]
        )
        .render()
    );
}

#[test]
fn floating_sizes_render_signed_pairs() {
    assert_eq!(
        "floating_maximum_size -1 x -1",
        CriterialessCommand::FloatingMaximumSize(-1, -1).render()
    );
    assert_eq!(
        "floating_minimum_size 75 x 50",
        CriterialessCommand::FloatingMinimumSize(75, 50).render()
    );
}

#[test]
fn workspace_outputs_join_with_spaces() {
    let mut outputs = vec1::Vec1::new("HDMI-A-1".to_string());
    outputs.push("DP-1".to_string());
    let command = CriterialessCommand::WorkspaceOutput(
        WorkspaceName::Simple("main".to_string()),
        outputs,
    );
    assert_eq!("workspace main output HDMI-A-1 DP-1", command.render());
}

#[test]
fn single_workspace_output_has_no_trailing_separator() {
    let command = CriterialessCommand::WorkspaceOutput(
        WorkspaceName::Simple("video".to_string()),
        vec1::Vec1::new("eDP-1".to_string()),
    );
    assert_eq!("workspace video output eDP-1", command.render());
}

#[test]
fn titlebar_padding_needs_positive_values() {
    assert!(Positive::new(0).is_none());
    let horizontal = Positive::new(4).unwrap();
    assert_eq!(4, horizontal.get());
    assert_eq!(
        "titlebar_padding 4 ",
        CriterialessCommand::TitlebarPadding(horizontal, None).render()
    );
    let vertical = Positive::new(2).unwrap();
    assert_eq!(
        "titlebar_padding 4 2",
        CriterialessCommand::TitlebarPadding(horizontal, Some(vertical)).render()
    );
}

#[test]
fn opacity_renders_its_decimal_text() {
    assert_eq!(
        "opacity set 0.5",
        CriterialessCommand::Opacity(OpacityModification::SetTo, "0.5".to_string()).render()
    );
}

#[test]
fn default_border_keeps_the_optional_thickness_position() {
    assert_eq!(
        "default_border normal ",
        CriterialessCommand::DefaultBorder(DefaultBorder::Normal(None)).render()
    );
    assert_eq!(
        "default_floating_border pixel 3",
        CriterialessCommand::DefaultFloatingBorder(DefaultBorder::Pixel(Some(3))).render()
    );
}

#[test]
fn edge_border_commands_render_their_forms() {
    assert_eq!(
        "hide_edge_borders smart_no_gaps",
        CriterialessCommand::HideEdgeBorders(EdgeBorders::SmartNoGaps).render()
    );
    assert_eq!(
        "hide_edge_borders --i3 none",
        CriterialessCommand::HideEdgeBordersI3(EdgeBorders::NoBorders).render()
    );
}

#[test]
fn mark_commands_render_variant_names_for_the_modification() {
    assert_eq!(
        "mark AddToggle todo",
        CriterialessCommand::Mark(MarkModification::AddToggle, "todo".to_string()).render()
    );
    assert_eq!("unmark todo", CriterialessCommand::Unmark("todo".to_string()).render());
}

#[test]
fn mouse_warping_none_renders_lowercase() {
    assert_eq!(
        "mouse_warping none",
        CriterialessCommand::MouseWarping(MouseWarping::NoWarping).render()
    );
}

#[test]
fn config_commands_render_their_keywords() {
    assert_eq!(
        "default_orientation auto",
        ConfigCommand::DefaultOrientation(DefaultOrientation::Auto).render()
    );
    assert_eq!(
        "workspace_layout stacking",
        ConfigCommand::WorkspaceLayout(WorkspaceLayout::Stacking).render()
    );
    assert_eq!("xwayland force", ConfigCommand::Xwayland(Xwayland::Force).render());
    assert_eq!("include ~/.config/sway/extra", ConfigCommand::Include(
        "~/.config/sway/extra".to_string()
    ).render());
}

#[test]
fn bar_block_joins_its_subcommands() {
    assert_eq!(
        "bar main position top",
        normalize_whitespace(
            &ConfigCommand::Bar(
                Some("main".to_string()),
                vec!["position".to_string(), "top".to_string()]
            )
            .render()
        )
    );
    assert_eq!("bar  ", ConfigCommand::Bar(None, vec![]).render());
}

#[test]
fn input_block_joins_its_subcommands() {
    assert_eq!(
        "input * xkb_layout de",
        CriterialessCommand::Input(
            "*".to_string(),
            vec!["xkb_layout".to_string(), "de".to_string()]
        )
        .render()
    );
}

#[test]
fn font_description_keeps_every_argument_position() {
    let description = FontDescription::new(
        vec!["monospace".to_string()],
        FontStyleOptions::default(),
        Some(FontSize::Pt("10".to_string())),
        vec![],
    );
    assert_eq!("monospace      10 ", Font::Normal(description).render());
}

#[test]
fn pango_font_renders_with_prefix_and_styles() {
    let styles = FontStyleOptions::new(
        Some(FontStyle::Italic),
        None,
        Some(FontWeight::SemiBold),
        None,
        None,
    );
    let description = FontDescription::new(
        vec!["Fira Sans".to_string(), "monospace".to_string()],
        styles,
        Some(FontSize::Px("11.5".to_string())),
        vec![("wght".to_string(), "650".to_string())],
    );
    assert_eq!(
        "font pango:Fira Sans,monospace Italic Semi-Bold 11.5 px `wght`=650",
        normalize_whitespace(&CriterialessCommand::Font(Font::Pango(description)).render())
    );
}

#[test]
fn floating_modifier_keeps_the_stray_x() {
    assert_eq!(
        "floating_modifier Mod4 x normal",
        CriterialessCommand::FloatingModifier(
            Some("Mod4".to_string()),
            sway_command::commands::FloatingModifierMode::Normal
        )
        .render()
    );
}
