use sway_command::criteria::{Criteria, CriteriaList, OrFocused, Urgent, WindowType};
use sway_command::render::Render;

#[test]
fn test() {
    assert_eq!("first", Urgent::First.render());
}

#[test]
fn urgent_renders_every_keyword() {
    assert_eq!("last", Urgent::Last.render());
    assert_eq!("latest", Urgent::Latest.render());
    assert_eq!("newest", Urgent::Newest.render());
    assert_eq!("oldest", Urgent::Oldest.render());
    assert_eq!("recent", Urgent::Recent.render());
}

#[test]
fn window_type_renders_snake_case() {
    assert_eq!("normal", WindowType::Normal.render());
    assert_eq!("dropdown_menu", WindowType::DropdownMenu.render());
    assert_eq!("popup_menu", WindowType::PopupMenu.render());
    assert_eq!("notification", WindowType::Notification.render());
}

#[test]
fn criterion_value_is_quoted() {
    let c = Criteria::AppId(OrFocused::Value("firefox".to_string()));
    assert_eq!("app_id=\"firefox\"", c.render());
}

#[test]
fn focused_sentinel_renders_as_token() {
    let c = Criteria::Title(OrFocused::Focused);
    assert_eq!("title=\"__focused__\"", c.render());
}

#[test]
fn or_focused_from_wraps_value() {
    let v: OrFocused<u32> = OrFocused::from(17);
    assert_eq!("17", v.render());
}

#[test]
fn numeric_criteria_render_in_decimal() {
    assert_eq!("con_id=\"42\"", Criteria::ConId(OrFocused::Value(42)).render());
    assert_eq!("id=\"0\"", Criteria::Id(0).render());
    assert_eq!("Pid=\"4294967295\"", Criteria::Pid(u32::MAX).render());
}

#[test]
fn bare_criteria_render_as_keywords() {
    assert_eq!("floating", Criteria::Floating.render());
    assert_eq!("tiling", Criteria::Tiling.render());
}

#[test]
fn new_group_is_bracketed() {
    let list = CriteriaList::new(Criteria::Floating);
    assert_eq!("[floating]", list.as_str());
    assert_eq!(1, list.get_criteria().len());
}

#[test]
fn appended_criteria_are_space_separated() {
    let mut list = CriteriaList::new(Criteria::Floating);
    list.criteria(Criteria::Tiling);
    list.criteria(Criteria::ConMark("work".to_string()));
    assert_eq!("[floating tiling con_mark=\"work\"]", list.as_str());
    assert_eq!(3, list.get_criteria().len());
}

#[test]
fn group_cache_matches_recomputed_render() {
    let mut list = CriteriaList::new(Criteria::Urgent(Urgent::First));
    assert_eq!(list.render(), list.as_str());
    list.criteria(Criteria::WindowType(WindowType::Dialog));
    assert_eq!(list.render(), list.as_str());
    list.criteria(Criteria::Workspace(OrFocused::Focused));
    assert_eq!(list.render(), list.as_str());
    assert_eq!(
        "[urgent=\"first\" window_type=\"dialog\" workspace=\"__focused__\"]",
        list.as_str()
    );
}
