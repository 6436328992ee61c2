//! Criteria narrow which windows or containers a command applies to.
use vstd::prelude::*;
use vstd::string::StringExecFns;

use crate::render::{
    lemma_join_push, lemma_renders_push, separated, spec_join, spec_renders, string_pop, Render,
};

verus! {

/// An ordered, never-empty group of criteria with its cached bracketed
/// render.
///
/// The cached text always equals [`CriteriaList::spec_render`]; appending a
/// criterion patches the cache in place instead of rebuilding it.
#[derive(Clone)]
pub struct CriteriaList {
    rep: String,
    criteria: Vec<Criteria>,
}

impl View for CriteriaList {
    type V = Seq<Criteria>;

    /// A group is abstractly the sequence of its criteria in append order.
    closed spec fn view(&self) -> Seq<Criteria> {
        self.criteria@
    }
}

impl CriteriaList {
    /// The cached text, as specifications see it.
    pub closed spec fn spec_cached(&self) -> Seq<char> {
        self.rep@
    }

    /// The canonical render: the criteria joined by single spaces, inside
    /// one pair of brackets.
    pub open spec fn spec_render(&self) -> Seq<char> {
        "["@ + spec_join(spec_renders(self@), " "@) + "]"@
    }

    /// The group is never empty and its cached text equals its render.
    pub open spec fn wf(&self) -> bool {
        &&& self@.len() >= 1
        &&& self.spec_cached() == self.spec_render()
    }

    /// The criteria in append order.
    pub fn get_criteria(&self) -> (r: &[Criteria])
        ensures
            r@ == self@,
    {
        self.criteria.as_slice()
    }

    /// Appends one criterion.
    ///
    /// The cached text is patched in place: the closing bracket is removed
    /// and `" " + criterion + "]"` is appended, so the cost is proportional
    /// to the new criterion's text alone.
    pub fn criteria(&mut self, criteria: Criteria)
        requires
            old(self).wf(),
        ensures
            final(self).wf(),
            final(self)@ == old(self)@.push(criteria),
    {
        let ghost old_parts = spec_renders(self.criteria@);
        let ghost joined = spec_join(old_parts, " "@);
        let ctext = criteria.render();
        let _ = string_pop(&mut self.rep);
        proof {
            reveal_strlit("]");
            assert(("["@ + joined + "]"@).drop_last() =~= "["@ + joined);
        }
        self.rep.append(" ");
        self.rep.append(ctext.as_str());
        self.rep.append("]");
        self.criteria.push(criteria);
        proof {
            lemma_renders_push(old(self).criteria@, criteria);
            lemma_join_push(old_parts, " "@, criteria.spec_render());
            assert(self.rep@ =~= "["@ + spec_join(spec_renders(self.criteria@), " "@) + "]"@);
        }
    }

    /// Creates a group holding exactly the given criterion.
    pub fn new(criteria: Criteria) -> (r: CriteriaList)
        ensures
            r.wf(),
            r@ == seq![criteria],
    {
        let mut rep = "[".to_owned();
        rep.append(criteria.render().as_str());
        rep.append("]");
        let mut list: Vec<Criteria> = Vec::new();
        proof {
            assert(list@.push(criteria) =~= seq![criteria]);
            assert(spec_renders(seq![criteria]) =~= seq![criteria.spec_render()]);
        }
        list.push(criteria);
        CriteriaList { rep, criteria: list }
    }

    /// Recomputes the render from the structured criteria alone.
    pub fn render(&self) -> (r: String)
        ensures
            r@ == self.spec_render(),
    {
        let mut r = "[".to_owned();
        r.append(separated(&self.criteria, " ").as_str());
        r.append("]");
        r
    }

    /// The cached render.
    pub fn as_str(&self) -> (r: &str)
        requires
            self.wf(),
        ensures
            r@ == self.spec_render(),
    {
        self.rep.as_str()
    }
}

/// One matching condition used to select targets.
#[derive(Clone)]
pub enum Criteria {
    /// Compare value against the app id. Can be a regular expression. If
    /// value is the focused sentinel, the app id must be the same as that of
    /// the currently focused window. App ids are specific to Wayland
    /// applications.
    AppId(OrFocused<String>),
    /// Compare value against the window class. Can be a regular expression.
    /// If value is the focused sentinel, the window class must be the same
    /// as that of the currently focused window. Classes are specific to X11
    /// applications.
    Class(OrFocused<String>),
    /// Compare against the internal container ID, which you can find via
    /// IPC. If value is the focused sentinel, the id must be the same as
    /// that of the currently focused window.
    ConId(OrFocused<u32>),
    /// Compare against the window marks. Can be a regular expression.
    ConMark(String),
    /// Matches floating windows.
    Floating,
    /// Compare value against the X11 window ID. Must be numeric.
    Id(u32),
    /// Compare value against the window instance. Can be a regular
    /// expression. If value is the focused sentinel, the window instance
    /// must be the same as that of the currently focused window.
    Instance(OrFocused<String>),
    /// Compare value against the window's process ID. Must be numeric.
    Pid(u32),
    /// Compare value against the window shell, such as "xdg_shell" or
    /// "xwayland". Can be a regular expression. If value is the focused
    /// sentinel, the shell must be the same as that of the currently
    /// focused window.
    Shell(OrFocused<String>),
    /// Matches tiling windows.
    Tiling,
    /// Compare against the window title. Can be a regular expression. If
    /// value is the focused sentinel, the window title must be the same as
    /// that of the currently focused window.
    Title(OrFocused<String>),
    /// Compares the urgent state of the window.
    Urgent(Urgent),
    /// Compare against the window role (WM_WINDOW_ROLE). Can be a regular
    /// expression. If value is the focused sentinel, the window role must
    /// be the same as that of the currently focused window.
    WindowRole(OrFocused<String>),
    /// Compare against the window type (_NET_WM_WINDOW_TYPE).
    WindowType(WindowType),
    /// Compare against the workspace name for this view. Can be a regular
    /// expression. If the value is the focused sentinel, all the views on
    /// the currently focused workspace match.
    Workspace(OrFocused<String>),
}

impl Render for Criteria {
    open spec fn spec_render(&self) -> Seq<char> {
        match self {
            Criteria::AppId(v) => "app_id=\""@ + v.spec_render() + "\""@,
            Criteria::Class(v) => "class=\""@ + v.spec_render() + "\""@,
            Criteria::ConId(v) => "con_id=\""@ + v.spec_render() + "\""@,
            Criteria::ConMark(v) => "con_mark=\""@ + v@ + "\""@,
            Criteria::Floating => "floating"@,
            Criteria::Id(v) => "id=\""@ + v.spec_render() + "\""@,
            Criteria::Instance(v) => "instance=\""@ + v.spec_render() + "\""@,
            Criteria::Pid(v) => "Pid=\""@ + v.spec_render() + "\""@,
            Criteria::Shell(v) => "shell=\""@ + v.spec_render() + "\""@,
            Criteria::Tiling => "tiling"@,
            Criteria::Title(v) => "title=\""@ + v.spec_render() + "\""@,
            Criteria::Urgent(v) => "urgent=\""@ + v.spec_render() + "\""@,
            Criteria::WindowRole(v) => "window_role=\""@ + v.spec_render() + "\""@,
            Criteria::WindowType(v) => "window_type=\""@ + v.spec_render() + "\""@,
            Criteria::Workspace(v) => "workspace=\""@ + v.spec_render() + "\""@,
        }
    }

    fn render(&self) -> (r: String) {
        match self {
            Criteria::Floating => "floating".to_owned(),
            Criteria::Tiling => "tiling".to_owned(),
            Criteria::AppId(v) => quoted("app_id=\"", v.render()),
            Criteria::Class(v) => quoted("class=\"", v.render()),
            Criteria::ConId(v) => quoted("con_id=\"", v.render()),
            Criteria::ConMark(v) => quoted("con_mark=\"", v.clone()),
            Criteria::Id(v) => quoted("id=\"", v.render()),
            Criteria::Instance(v) => quoted("instance=\"", v.render()),
            Criteria::Pid(v) => quoted("Pid=\"", v.render()),
            Criteria::Shell(v) => quoted("shell=\"", v.render()),
            Criteria::Title(v) => quoted("title=\"", v.render()),
            Criteria::Urgent(v) => quoted("urgent=\"", v.render()),
            Criteria::WindowRole(v) => quoted("window_role=\"", v.render()),
            Criteria::WindowType(v) => quoted("window_type=\"", v.render()),
            Criteria::Workspace(v) => quoted("workspace=\"", v.render()),
        }
    }
}

/// The opening text, then the value, then the closing double quote.
fn quoted(key: &str, value: String) -> (r: String)
    ensures
        r@ == key@ + value@ + "\""@,
{
    let mut r = key.to_owned();
    r.append(value.as_str());
    r.append("\"");
    r
}

/// A value compared literally, or the sentinel meaning "the same as the
/// currently focused target".
#[derive(Debug, Clone)]
pub enum OrFocused<T> {
    /// Compare against the currently focused target.
    Focused,
    /// Compare against this value.
    Value(T),
}

impl<T> From<T> for OrFocused<T> {
    /// Wraps a value as a literal comparison.
    fn from(value: T) -> (r: OrFocused<T>) {
        OrFocused::Value(value)
    }
}

impl<T> vstd::std_specs::convert::FromSpecImpl<T> for OrFocused<T> {
    open spec fn obeys_from_spec() -> bool {
        true
    }

    open spec fn from_spec(value: T) -> OrFocused<T> {
        OrFocused::Value(value)
    }
}

impl<T: Render> Render for OrFocused<T> {
    open spec fn spec_render(&self) -> Seq<char> {
        match self {
            OrFocused::Focused => "__focused__"@,
            OrFocused::Value(v) => v.spec_render(),
        }
    }

    fn render(&self) -> (r: String) {
        match self {
            OrFocused::Focused => "__focused__".to_owned(),
            OrFocused::Value(v) => v.render(),
        }
    }
}

/// The urgent states a window can be matched by.
#[derive(Clone)]
pub enum Urgent {
    First,
    Last,
    Latest,
    Newest,
    Oldest,
    Recent,
}

impl Render for Urgent {
    open spec fn spec_render(&self) -> Seq<char> {
        match self {
            Urgent::First => "first"@,
            Urgent::Last => "last"@,
            Urgent::Latest => "latest"@,
            Urgent::Newest => "newest"@,
            Urgent::Oldest => "oldest"@,
            Urgent::Recent => "recent"@,
        }
    }

    fn render(&self) -> (r: String) {
        match self {
            Urgent::First => "first".to_owned(),
            Urgent::Last => "last".to_owned(),
            Urgent::Latest => "latest".to_owned(),
            Urgent::Newest => "newest".to_owned(),
            Urgent::Oldest => "oldest".to_owned(),
            Urgent::Recent => "recent".to_owned(),
        }
    }
}

/// The window types a window can be matched by.
#[derive(Clone)]
pub enum WindowType {
    Normal,
    Dialog,
    Utility,
    Toolbar,
    Splash,
    Menu,
    DropdownMenu,
    PopupMenu,
    Tooltip,
    Notification,
}

impl Render for WindowType {
    open spec fn spec_render(&self) -> Seq<char> {
        match self {
            WindowType::Normal => "normal"@,
            WindowType::Dialog => "dialog"@,
            WindowType::Utility => "utility"@,
            WindowType::Toolbar => "toolbar"@,
            WindowType::Splash => "splash"@,
            WindowType::Menu => "menu"@,
            WindowType::DropdownMenu => "dropdown_menu"@,
            WindowType::PopupMenu => "popup_menu"@,
            WindowType::Tooltip => "tooltip"@,
            WindowType::Notification => "notification"@,
        }
    }

    fn render(&self) -> (r: String) {
        match self {
            WindowType::Normal => "normal".to_owned(),
            WindowType::Dialog => "dialog".to_owned(),
            WindowType::Utility => "utility".to_owned(),
            WindowType::Toolbar => "toolbar".to_owned(),
            WindowType::Splash => "splash".to_owned(),
            WindowType::Menu => "menu".to_owned(),
            WindowType::DropdownMenu => "dropdown_menu".to_owned(),
            WindowType::PopupMenu => "popup_menu".to_owned(),
            WindowType::Tooltip => "tooltip".to_owned(),
            WindowType::Notification => "notification".to_owned(),
        }
    }
}

} // verus!
