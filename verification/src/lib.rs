//! A typed builder for the sway window manager's command protocol.
//!
//! Commands are constructed as structured values and rendered to the exact
//! textual syntax the protocol expects. Builders keep a cached rendering
//! that is proved equal, at every step, to the canonical render of the
//! structured data.
use vstd::prelude::*;
use vstd::string::StringExecFns;

pub mod commands;
pub mod criteria;
pub mod render;

use commands::{CriterialessCommand, SubCommand};
use criteria::{Criteria, CriteriaList};
use render::{
    lemma_join_push, lemma_renders_push, separated, spec_join, spec_renders, string_pop,
    string_push, Render,
};
use vstd::string::StrSliceExecFns;

verus! {

/// The characters std's char::is_whitespace accepts: the Unicode
/// White_Space set.
pub open spec fn spec_is_whitespace(c: char) -> bool {
    let n = c as u32;
    ||| n == 0x20
    ||| (0x09 <= n && n <= 0x0D)
    ||| n == 0x85
    ||| n == 0xA0
    ||| n == 0x1680
    ||| (0x2000 <= n && n <= 0x200A)
    ||| n == 0x2028
    ||| n == 0x2029
    ||| n == 0x202F
    ||| n == 0x205F
    ||| n == 0x3000
}

fn is_whitespace_char(c: char) -> (r: bool)
    ensures
        r == spec_is_whitespace(c),
{
    let n = c as u32;
    n == 0x20 || (0x09 <= n && n <= 0x0D) || n == 0x85 || n == 0xA0 || n == 0x1680 || (0x2000 <= n
        && n <= 0x200A) || n == 0x2028 || n == 0x2029 || n == 0x202F || n == 0x205F || n == 0x3000
}

/// The space written before a word character: one space when a word was
/// already written and whitespace has been seen since.
pub open spec fn spec_word_sep(emitted: bool, gap: bool) -> Seq<char> {
    if emitted && gap {
        " "@
    } else {
        Seq::empty()
    }
}

/// One left-to-right pass over the text: whitespace is dropped, and each
/// word after the first is preceded by a single space. `emitted` says
/// whether a word character was already written, `gap` whether whitespace
/// was seen since then.
pub open spec fn spec_normalize_from(s: Seq<char>, emitted: bool, gap: bool) -> Seq<char>
    decreases s.len(),
{
    if s.len() == 0 {
        Seq::empty()
    } else if spec_is_whitespace(s[0]) {
        spec_normalize_from(s.drop_first(), emitted, true)
    } else {
        spec_word_sep(emitted, gap) + seq![s[0]] + spec_normalize_from(s.drop_first(), true, false)
    }
}

/// The text with every run of whitespace collapsed to a single space and
/// leading and trailing whitespace removed.
pub open spec fn spec_normalize(s: Seq<char>) -> Seq<char> {
    spec_normalize_from(s, false, true)
}

/// Collapses every run of whitespace to a single space and removes
/// leading and trailing whitespace.
pub fn normalize_whitespace(value: &str) -> (r: String)
    ensures
        r@ == spec_normalize(value@),
{
    let mut r = String::new();
    let mut emitted = false;
    let mut gap = true;
    let length = value.unicode_len();
    let mut i: usize = 0;
    proof {
        assert(value@.skip(0) =~= value@);
        assert(r@ + spec_normalize_from(value@, false, true) =~= spec_normalize_from(
            value@,
            false,
            true,
        ));
    }
    while i < length
        invariant
            i <= length,
            length == value@.len(),
            spec_normalize(value@) == r@ + spec_normalize_from(
                value@.skip(i as int),
                emitted,
                gap,
            ),
        decreases length - i,
    {
        let ghost rest = value@.skip(i as int);
        let ghost before = r@;
        let ghost was_emitted = emitted;
        let ghost was_gap = gap;
        let c = value.get_char(i);
        proof {
            assert(rest[0] == c);
            assert(rest.drop_first() =~= value@.skip(i + 1));
        }
        if is_whitespace_char(c) {
            gap = true;
        } else {
            if emitted && gap {
                r.append(" ");
            }
            string_push(&mut r, c);
            proof {
                assert(r@ =~= before + spec_word_sep(emitted, gap) + seq![c]);
            }
            emitted = true;
            gap = false;
        }
        proof {
            assert(r@ + spec_normalize_from(value@.skip(i + 1), emitted, gap) =~= before
                + spec_normalize_from(rest, was_emitted, was_gap));
        }
        i = i + 1;
    }
    proof {
        assert(value@.skip(length as int) =~= Seq::<char>::empty());
    }
    r
}

/// A command batch able to be sent over the sway IPC channel, with its
/// cached semicolon-joined render.
pub struct CommandList {
    rep: String,
    commands: Vec<Command>,
}

/// The renders of a sequence of commands, element by element.
pub open spec fn spec_command_renders(commands: Seq<Command>) -> Seq<Seq<char>> {
    commands.map(|i: int, c: Command| c.spec_render())
}

proof fn lemma_command_renders_push(commands: Seq<Command>, command: Command)
    ensures
        spec_command_renders(commands.push(command)) == spec_command_renders(commands).push(
            command.spec_render(),
        ),
{
    assert(spec_command_renders(commands.push(command)) =~= spec_command_renders(commands).push(
        command.spec_render(),
    ));
}

impl Default for CommandList {
    /// An empty batch with an empty cached render.
    fn default() -> (r: CommandList)
        ensures
            r.wf(),
            r.spec_commands() == Seq::<Command>::empty(),
    {
        let r = CommandList { rep: String::new(), commands: Vec::new() };
        r
    }
}

impl CommandList {
    /// The cached text, as specifications see it.
    pub closed spec fn spec_cached(&self) -> Seq<char> {
        self.rep@
    }

    /// The commands in append order, as specifications see them.
    pub closed spec fn spec_commands(&self) -> Seq<Command> {
        self.commands@
    }

    /// The canonical render: every command's render in append order,
    /// joined by semicolons.
    pub open spec fn spec_render(&self) -> Seq<char> {
        spec_join(spec_command_renders(self.spec_commands()), ";"@)
    }

    /// The cached text always equals the canonical render.
    pub open spec fn wf(&self) -> bool {
        self.spec_cached() == self.spec_render()
    }

    /// The commands in append order.
    pub fn get_commands(&self) -> (r: &[Command])
        ensures
            r@ == self.spec_commands(),
    {
        self.commands.as_slice()
    }

    /// Appends one command.
    ///
    /// A semicolon separator is emitted first when the batch was
    /// non-empty; the cost is proportional to the new command's text
    /// alone.
    pub fn command(self, command: Command) -> (r: CommandList)
        requires
            self.wf(),
        ensures
            r.wf(),
            r.spec_commands() == self.spec_commands().push(command),
    {
        let ghost orig = self;
        let mut this = self;
        if this.commands.len() > 0 {
            this.rep.append(";");
        }
        this.rep.append(command.render().as_str());
        this.commands.push(command);
        proof {
            lemma_command_renders_push(orig.spec_commands(), command);
            lemma_join_push(
                spec_command_renders(orig.spec_commands()),
                ";"@,
                command.spec_render(),
            );
            assert(this.rep@ =~= spec_join(spec_command_renders(this.commands@), ";"@));
        }
        this
    }

    /// Recomputes the render from the structured commands alone.
    pub fn render(&self) -> (r: String)
        ensures
            r@ == self.spec_render(),
    {
        let mut r = String::new();
        let mut i: usize = 0;
        while i < self.commands.len()
            invariant
                i <= self.commands.len(),
                r@ == spec_join(spec_command_renders(self.commands@.take(i as int)), ";"@),
            decreases self.commands.len() - i,
        {
            if i > 0 {
                r.append(";");
            }
            r.append(self.commands[i].render().as_str());
            proof {
                let prefix = self.commands@.take(i as int);
                assert(prefix.push(self.commands@[i as int]) =~= self.commands@.take(i + 1));
                lemma_command_renders_push(prefix, self.commands@[i as int]);
                lemma_join_push(
                    spec_command_renders(prefix),
                    ";"@,
                    self.commands@[i as int].spec_render(),
                );
            }
            i = i + 1;
        }
        proof {
            assert(self.commands@.take(self.commands@.len() as int) =~= self.commands@);
        }
        r
    }

    /// The cached render, ready to be handed to the IPC transport.
    pub fn as_str(&self) -> (r: &str)
        requires
            self.wf(),
        ensures
            r@ == self.spec_render(),
    {
        self.rep.as_str()
    }
}

/// The cached text of a command list always equals the render recomputed
/// from its structured commands.
pub proof fn lemma_command_list_cache_consistent(list: CommandList)
    requires
        list.wf(),
    ensures
        list.spec_cached() == spec_join(spec_command_renders(list.spec_commands()), ";"@),
{
}

/// A command that can be added to a [`CommandList`] or run directly.
pub enum Command {
    /// A command with criteria.
    Criteria(CriteriaCommand),
    /// A command without criteria.
    Criterialess(Box<CriterialessCommand>),
    /// An untyped command: its render is exactly the stored text,
    /// unescaped and unvalidated.
    Raw(String),
}

impl Command {
    /// The canonical protocol text of this command.
    pub open spec fn spec_render(&self) -> Seq<char>
        decreases self,
    {
        match self {
            Command::Criteria(command) => command.spec_render(),
            Command::Criterialess(command) => command.spec_render(),
            Command::Raw(text) => text@,
        }
    }

    /// Renders this command to its protocol text.
    pub fn render(&self) -> (r: String)
        ensures
            r@ == self.spec_render(),
        decreases self,
    {
        match self {
            Command::Criteria(command) => command.render(),
            Command::Criterialess(command) => command.render(),
            Command::Raw(text) => text.clone(),
        }
    }
}

impl From<CriteriaCommand> for Command {
    /// Wraps a command unit as a batch entry.
    fn from(command: CriteriaCommand) -> (r: Command) {
        Command::Criteria(command)
    }
}

impl vstd::std_specs::convert::FromSpecImpl<CriteriaCommand> for Command {
    open spec fn obeys_from_spec() -> bool {
        true
    }

    open spec fn from_spec(command: CriteriaCommand) -> Command {
        Command::Criteria(command)
    }
}

impl From<CriterialessCommand> for Command {
    /// Boxes a criteria-less command as a batch entry.
    fn from(command: CriterialessCommand) -> (r: Command)
        ensures
            r matches Command::Criterialess(inner) && *inner == command,
    {
        Command::Criterialess(Box::new(command))
    }
}

impl vstd::std_specs::convert::FromSpecImpl<CriterialessCommand> for Command {
    open spec fn obeys_from_spec() -> bool {
        false
    }

    open spec fn from_spec(command: CriterialessCommand) -> Command {
        arbitrary()
    }
}

impl From<SubCommand> for Command {
    /// Wraps a sub-command as a unit without criteria.
    fn from(command: SubCommand) -> (r: Command)
        ensures
            r matches Command::Criteria(unit) && unit.wf() && unit.spec_commands() == seq![
                command,
            ] && unit.spec_criteria() is None,
    {
        Command::Criteria(CriteriaCommand::from(command))
    }
}

impl vstd::std_specs::convert::FromSpecImpl<SubCommand> for Command {
    open spec fn obeys_from_spec() -> bool {
        false
    }

    open spec fn from_spec(command: SubCommand) -> Command {
        arbitrary()
    }
}

impl From<String> for Command {
    /// Wraps raw text as a batch entry.
    fn from(text: String) -> (r: Command) {
        Command::Raw(text)
    }
}

impl vstd::std_specs::convert::FromSpecImpl<String> for Command {
    open spec fn obeys_from_spec() -> bool {
        true
    }

    open spec fn from_spec(text: String) -> Command {
        Command::Raw(text)
    }
}

impl<'a> From<&'a str> for Command {
    /// Copies raw text as a batch entry.
    fn from(text: &'a str) -> (r: Command)
        ensures
            r matches Command::Raw(copied) && copied@ == text@,
    {
        Command::Raw(text.to_owned())
    }
}

impl<'a> vstd::std_specs::convert::FromSpecImpl<&'a str> for Command {
    open spec fn obeys_from_spec() -> bool {
        false
    }

    open spec fn from_spec(text: &'a str) -> Command {
        arbitrary()
    }
}

/// A command unit: an optional criteria group, an ordered sequence of
/// sub-commands, and a cached render of the two.
pub struct CriteriaCommand {
    rep: String,
    criteria: Option<CriteriaList>,
    commands: Vec<SubCommand>,
}

impl From<SubCommand> for CriteriaCommand {
    /// A unit holding exactly the given sub-command and no criteria.
    fn from(command: SubCommand) -> (r: CriteriaCommand)
        ensures
            r.wf(),
            r.spec_commands() == seq![command],
            r.spec_criteria() is None,
    {
        let ghost c = command;
        let r = CriteriaCommand::default().command(command);
        proof {
            assert(r.spec_commands() =~= seq![c]);
        }
        r
    }
}

impl vstd::std_specs::convert::FromSpecImpl<SubCommand> for CriteriaCommand {
    open spec fn obeys_from_spec() -> bool {
        false
    }

    open spec fn from_spec(command: SubCommand) -> CriteriaCommand {
        arbitrary()
    }
}

impl Default for CriteriaCommand {
    /// No criteria, no sub-command, an empty cached render.
    fn default() -> (r: CriteriaCommand)
        ensures
            r.wf(),
            r.spec_criteria() is None,
            r.spec_commands() == Seq::<SubCommand>::empty(),
    {
        let r = CriteriaCommand {
            rep: String::new(),
            criteria: Option::None,
            commands: Vec::new(),
        };
        r
    }
}

impl CriteriaCommand {
    /// The cached text, as specifications see it.
    pub closed spec fn spec_cached(&self) -> Seq<char> {
        self.rep@
    }

    /// The criteria group, as specifications see it.
    pub closed spec fn spec_criteria(&self) -> Option<CriteriaList> {
        self.criteria
    }

    /// The sub-commands in append order, as specifications see them.
    pub closed spec fn spec_commands(&self) -> Seq<SubCommand> {
        self.commands@
    }

    /// The criteria in append order: empty when no group exists yet.
    pub open spec fn criteria_seq(&self) -> Seq<Criteria> {
        match self.spec_criteria() {
            Option::Some(list) => list@,
            Option::None => Seq::empty(),
        }
    }

    /// The canonical render: the bracketed criteria group (when present)
    /// immediately followed by the comma-joined sub-commands.
    pub open spec fn spec_render(&self) -> Seq<char> {
        (match self.spec_criteria() {
            Option::Some(list) => list.spec_render(),
            Option::None => Seq::empty(),
        }) + spec_join(spec_renders(self.spec_commands()), ","@)
    }

    /// The cached text always equals the canonical render, and the group,
    /// when present, is itself well-formed.
    pub open spec fn wf(&self) -> bool {
        &&& self.spec_cached() == self.spec_render()
        &&& (self.spec_criteria() matches Some(list) ==> list.wf())
    }

    /// The sub-commands in append order.
    pub fn get_commands(&self) -> (r: &[SubCommand])
        ensures
            r@ == self.spec_commands(),
    {
        self.commands.as_slice()
    }

    /// Appends one sub-command.
    ///
    /// A comma separator is emitted first when a sub-command already
    /// exists; the cost is proportional to the new sub-command's text
    /// alone.
    pub fn command(self, command: SubCommand) -> (r: CriteriaCommand)
        requires
            self.wf(),
        ensures
            r.wf(),
            r.spec_commands() == self.spec_commands().push(command),
            r.spec_criteria() == self.spec_criteria(),
    {
        let ghost orig = self;
        let mut this = self;
        if this.commands.len() > 0 {
            this.rep.append(",");
        }
        this.rep.append(command.render().as_str());
        this.commands.push(command);
        proof {
            lemma_renders_push(orig.spec_commands(), command);
            lemma_join_push(spec_renders(orig.spec_commands()), ","@, command.spec_render());
            assert(this.rep@ =~= this.spec_render());
        }
        this
    }

    /// Appends one criterion.
    ///
    /// While no sub-command has been added the cached text is patched in
    /// place; once sub-commands exist the whole cached text is rebuilt,
    /// a deliberate performance cliff — supply criteria before
    /// sub-commands whenever possible.
    pub fn criteria(self, criteria: Criteria) -> (r: CriteriaCommand)
        requires
            self.wf(),
        ensures
            r.wf(),
            r.spec_commands() == self.spec_commands(),
            r.criteria_seq() == self.criteria_seq().push(criteria),
    {
        let ghost orig = self;
        let CriteriaCommand { mut rep, criteria: existing, commands } = self;
        let updated: CriteriaList;
        match existing {
            Option::Some(mut list) => {
                let ghost old_list = list;
                if commands.len() == 0 {
                    let ctext = criteria.render();
                    list.criteria(criteria);
                    let _ = string_pop(&mut rep);
                    proof {
                        reveal_strlit("]");
                        let joined = spec_join(spec_renders(old_list@), " "@);
                        assert(orig.spec_render() == old_list.spec_render() + spec_join(
                            spec_renders(orig.spec_commands()),
                            ","@,
                        ));
                        assert(spec_renders(orig.spec_commands()) =~= Seq::<Seq<char>>::empty());
                        assert(orig.spec_render() =~= "["@ + joined + "]"@);
                        assert(rep@ =~= "["@ + joined);
                    }
                    rep.append(" ");
                    rep.append(ctext.as_str());
                    rep.append("]");
                    proof {
                        lemma_renders_push(old_list@, criteria);
                        lemma_join_push(
                            spec_renders(old_list@),
                            " "@,
                            criteria.spec_render(),
                        );
                        assert(rep@ =~= list.spec_render() + spec_join(
                            spec_renders(commands@),
                            ","@,
                        ));
                    }
                } else {
                    list.criteria(criteria);
                    rep = rebuild(&list, &commands);
                }
                updated = list;
            },
            Option::None => {
                let list = CriteriaList::new(criteria);
                updated = list;
                rep = rebuild(&updated, &commands);
            },
        }
        let r = CriteriaCommand { rep, criteria: Option::Some(updated), commands };
        proof {
            assert(orig.criteria_seq().push(criteria) =~= r.criteria_seq());
        }
        r
    }

    /// Recomputes the render from the structured criteria and
    /// sub-commands alone.
    pub fn render(&self) -> (r: String)
        ensures
            r@ == self.spec_render(),
    {
        let mut r = match &self.criteria {
            Option::Some(list) => list.render(),
            Option::None => String::new(),
        };
        r.append(separated(&self.commands, ",").as_str());
        r
    }

    /// The cached render.
    pub fn as_str(&self) -> (r: &str)
        requires
            self.wf(),
        ensures
            r@ == self.spec_render(),
    {
        self.rep.as_str()
    }
}

/// The cached render of the given criteria group followed by the
/// comma-joined renders of the given sub-commands.
fn rebuild(list: &CriteriaList, commands: &Vec<SubCommand>) -> (r: String)
    requires
        list.wf(),
    ensures
        r@ == list.spec_render() + spec_join(spec_renders(commands@), ","@),
{
    let mut r = list.as_str().to_owned();
    proof {
        assert(r@ + spec_join(spec_renders(commands@.take(0)), ","@) =~= r@);
    }
    let mut i: usize = 0;
    while i < commands.len()
        invariant
            i <= commands.len(),
            list.wf(),
            r@ == list.spec_render() + spec_join(spec_renders(commands@.take(i as int)), ","@),
        decreases commands.len() - i,
    {
        if i > 0 {
            r.append(",");
        }
        r.append(commands[i].render().as_str());
        proof {
            let prefix = commands@.take(i as int);
            assert(prefix.push(commands@[i as int]) =~= commands@.take(i + 1));
            lemma_renders_push(prefix, commands@[i as int]);
            lemma_join_push(spec_renders(prefix), ","@, commands@[i as int].spec_render());
            assert(r@ =~= list.spec_render() + spec_join(
                spec_renders(commands@.take(i + 1)),
                ","@,
            ));
        }
        i = i + 1;
    }
    proof {
        assert(commands@.take(commands@.len() as int) =~= commands@);
    }
    r
}

/// For a unit without criteria, the cached text is exactly the
/// comma-join of the sub-commands' independently computed renders, in
/// append order.
pub proof fn lemma_append_order_preserved(unit: CriteriaCommand)
    requires
        unit.wf(),
        unit.spec_criteria() is None,
    ensures
        unit.spec_cached() == spec_join(spec_renders(unit.spec_commands()), ","@),
{
    assert(Seq::<char>::empty() + spec_join(spec_renders(unit.spec_commands()), ","@)
        =~= spec_join(spec_renders(unit.spec_commands()), ","@));
}

/// Two well-formed units holding the same criteria in the same order and
/// the same sub-commands in the same order render identically, whatever
/// order of appends built each of them.
pub proof fn lemma_render_depends_on_structure_alone(a: CriteriaCommand, b: CriteriaCommand)
    requires
        a.wf(),
        b.wf(),
        a.criteria_seq() == b.criteria_seq(),
        a.spec_commands() == b.spec_commands(),
    ensures
        a.spec_cached() == b.spec_cached(),
{
    match (a.spec_criteria(), b.spec_criteria()) {
        (Option::Some(list_a), Option::Some(list_b)) => {
            assert(list_a.spec_render() == list_b.spec_render());
        },
        (Option::Some(list_a), Option::None) => {
            assert(list_a@.len() >= 1);
            assert(b.criteria_seq().len() == 0);
        },
        (Option::None, Option::Some(list_b)) => {
            assert(list_b@.len() >= 1);
            assert(a.criteria_seq().len() == 0);
        },
        (Option::None, Option::None) => {},
    }
}

/// The cached text of a command unit always equals the render recomputed
/// from its structured criteria and sub-commands.
pub proof fn lemma_unit_cache_consistent(unit: CriteriaCommand)
    requires
        unit.wf(),
    ensures
        unit.spec_cached() == unit.spec_render(),
{
}

/// The cached text of a criteria group always equals its recomputed
/// bracketed render.
pub proof fn lemma_criteria_cache_consistent(list: CriteriaList)
    requires
        list.wf(),
    ensures
        list.spec_cached() == "["@ + spec_join(spec_renders(list@), " "@) + "]"@,
{
}

} // verus!
