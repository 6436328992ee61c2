use sway_command::commands::{
    BindFlags, Border, CriterialessCommand, EnDisTog, SubCommand, SymKey,
};
use sway_command::criteria::Criteria;
use sway_command::render::Render;
use sway_command::{normalize_whitespace, Command, CommandList, CriteriaCommand};

#[test]
fn list_joins_entries_with_semicolons() {
    let list = CommandList::default()
        .command(Command::from("workspace 5"))
        .command(Command::from(SubCommand::Border(Border::NoBorder)))
        .command(Command::from(
            CriteriaCommand::default()
                .criteria(Criteria::Floating)
                .command(SubCommand::Floating(EnDisTog::Disable)),
        ));
    assert_eq!(
        "workspace 5;border none;[floating]floating disable",
        list.as_str()
    );
}

#[test]
fn list_accepts_bindings_after_raw_entries() {
    let list = CommandList::default()
        .command(Command::from("workspace 5"))
        .command(Command::from(SubCommand::Border(Border::NoBorder)))
        .command(Command::from(
            CriteriaCommand::default()
                .criteria(Criteria::Floating)
                .command(SubCommand::Floating(EnDisTog::Disable)),
        ))
        .command(Command::from(CriterialessCommand::Bindsym(
            BindFlags::default(),
            SymKey::key("a"),
            Command::from(SubCommand::Exit),
        )));
    assert_eq!(
        "workspace 5;border none;[floating]floating disable;bindsym a exit",
        normalize_whitespace(list.as_str())
    );
}

#[test]
fn appended_sub_commands_keep_their_order() {
    let unit = CriteriaCommand::default()
        .command(SubCommand::Border(Border::NoBorder))
        .command(SubCommand::Floating(EnDisTog::Enable))
        .command(SubCommand::Sticky(EnDisTog::Toggle));
    let expected = format!(
        "{},{},{}",
        SubCommand::Border(Border::NoBorder).render(),
        SubCommand::Floating(EnDisTog::Enable).render(),
        SubCommand::Sticky(EnDisTog::Toggle).render()
    );
    assert_eq!(expected, unit.as_str());
    assert_eq!(3, unit.get_commands().len());
}

#[test]
fn criteria_first_and_criteria_last_render_identically() {
    let criteria_first = CriteriaCommand::default()
        .criteria(Criteria::Floating)
        .criteria(Criteria::Tiling)
        .command(SubCommand::Border(Border::NoBorder))
        .command(SubCommand::Reload);
    let criteria_last = CriteriaCommand::default()
        .command(SubCommand::Border(Border::NoBorder))
        .command(SubCommand::Reload)
        .criteria(Criteria::Floating)
        .criteria(Criteria::Tiling);
    assert_eq!(criteria_first.as_str(), criteria_last.as_str());
    assert_eq!(
        "[floating tiling]border none,reload",
        criteria_first.as_str()
    );
}

#[test]
fn unit_cache_matches_recomputed_render_after_every_append() {
    let unit = CriteriaCommand::default();
    assert_eq!(unit.render(), unit.as_str());
    let unit = unit.criteria(Criteria::Floating);
    assert_eq!(unit.render(), unit.as_str());
    let unit = unit.command(SubCommand::Reload);
    assert_eq!(unit.render(), unit.as_str());
    let unit = unit.command(SubCommand::Exit);
    assert_eq!(unit.render(), unit.as_str());
    let unit = unit.criteria(Criteria::Tiling);
    assert_eq!(unit.render(), unit.as_str());
    assert_eq!("[floating tiling]reload,exit", unit.as_str());
}

#[test]
fn list_cache_matches_recomputed_render_after_every_append() {
    let list = CommandList::default();
    assert_eq!(list.render(), list.as_str());
    let list = list.command(Command::from("mode default"));
    assert_eq!(list.render(), list.as_str());
    let list = list.command(Command::from(SubCommand::Reload));
    assert_eq!(list.render(), list.as_str());
    assert_eq!("mode default;reload", list.as_str());
    assert_eq!(2, list.get_commands().len());
}

#[test]
fn first_criterion_after_commands_rebuilds_the_prefix() {
    let unit = CriteriaCommand::default()
        .command(SubCommand::Border(Border::NoBorder))
        .criteria(Criteria::Floating);
    assert_eq!("[floating]border none", unit.as_str());
}

#[test]
fn unit_from_sub_command_holds_it_alone() {
    let unit = CriteriaCommand::from(SubCommand::Exit);
    assert_eq!("exit", unit.as_str());
    assert_eq!(1, unit.get_commands().len());
}

#[test]
fn raw_command_text_is_kept_verbatim() {
    let command = Command::from("for_window [class=\".*\"]  kill".to_string());
    assert_eq!("for_window [class=\".*\"]  kill", command.render());
}

#[test]
fn empty_list_renders_as_empty_text() {
    let list = CommandList::default();
    assert_eq!("", list.as_str());
    assert_eq!(0, list.get_commands().len());
}

#[test]
fn normalize_collapses_whitespace_runs() {
    assert_eq!("a b", normalize_whitespace("  a \t\n b  "));
    assert_eq!("", normalize_whitespace("   "));
    assert_eq!("", normalize_whitespace(""));
    assert_eq!("one", normalize_whitespace("one"));
    assert_eq!("a b c", normalize_whitespace("a\u{A0}b\u{2003}c"));
}
