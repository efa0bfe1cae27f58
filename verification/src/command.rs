//! Command descriptors: what is registered with the platform for each
//! declared command, and the declarations they are built from.

use vstd::prelude::*;

verus! {

/// Fields shared by the option kinds that carry no predefined choices.
#[derive(Debug, PartialEq)]
pub struct BaseCommandOptionData {
    pub description: String,
    pub name: String,
    pub required: bool,
}

/// One predefined integer choice offered for an option.
#[derive(Debug, PartialEq)]
pub struct CommandOptionChoice {
    pub name: String,
    pub value: i64,
}

/// Fields of the option kinds that may carry predefined choices.
#[derive(Debug, PartialEq)]
pub struct ChoiceCommandOptionData {
    pub choices: Vec<CommandOptionChoice>,
    pub description: String,
    pub name: String,
    pub required: bool,
}

/// The kind of value a command option accepts.
pub enum CommandOptionKind {
    String,
    Integer,
    Boolean,
    User,
    Channel,
    Role,
    Mentionable,
}

/// The mathematical content of one option descriptor: its kind, its
/// predefined choices as name/value pairs, its name, its description and
/// whether the user must fill it in.
pub struct CommandOptionView {
    pub kind: CommandOptionKind,
    pub choices: Seq<(Seq<char>, i64)>,
    pub name: Seq<char>,
    pub description: Seq<char>,
    pub required: bool,
}

impl CommandOptionView {
    /// The same option with its `required` flag replaced.
    pub open spec fn with_required(self, required: bool) -> CommandOptionView {
        CommandOptionView { required, ..self }
    }
}

/// One option of a slash command, as registered with the platform.
#[derive(Debug, PartialEq)]
pub enum CommandOption {
    String(ChoiceCommandOptionData),
    Integer(ChoiceCommandOptionData),
    Boolean(BaseCommandOptionData),
    User(BaseCommandOptionData),
    Channel(BaseCommandOptionData),
    Role(BaseCommandOptionData),
    Mentionable(BaseCommandOptionData),
}

/// The name/value pairs of a choice list.
pub open spec fn spec_choices_view(choices: Seq<CommandOptionChoice>) -> Seq<(Seq<char>, i64)> {
    choices.map_values(|c: CommandOptionChoice| (c.name@, c.value))
}

impl View for CommandOption {
    type V = CommandOptionView;

    open spec fn view(&self) -> CommandOptionView {
        match self {
            CommandOption::String(d) => CommandOptionView {
                kind: CommandOptionKind::String,
                choices: spec_choices_view(d.choices@),
                name: d.name@,
                description: d.description@,
                required: d.required,
            },
            CommandOption::Integer(d) => CommandOptionView {
                kind: CommandOptionKind::Integer,
                choices: spec_choices_view(d.choices@),
                name: d.name@,
                description: d.description@,
                required: d.required,
            },
            CommandOption::Boolean(d) => CommandOptionView {
                kind: CommandOptionKind::Boolean,
                choices: Seq::empty(),
                name: d.name@,
                description: d.description@,
                required: d.required,
            },
            CommandOption::User(d) => CommandOptionView {
                kind: CommandOptionKind::User,
                choices: Seq::empty(),
                name: d.name@,
                description: d.description@,
                required: d.required,
            },
            CommandOption::Channel(d) => CommandOptionView {
                kind: CommandOptionKind::Channel,
                choices: Seq::empty(),
                name: d.name@,
                description: d.description@,
                required: d.required,
            },
            CommandOption::Role(d) => CommandOptionView {
                kind: CommandOptionKind::Role,
                choices: Seq::empty(),
                name: d.name@,
                description: d.description@,
                required: d.required,
            },
            CommandOption::Mentionable(d) => CommandOptionView {
                kind: CommandOptionKind::Mentionable,
                choices: Seq::empty(),
                name: d.name@,
                description: d.description@,
                required: d.required,
            },
        }
    }
}

/// The views of a list of option descriptors, in order.
pub open spec fn spec_options_view(options: Seq<CommandOption>) -> Seq<CommandOptionView> {
    options.map_values(|o: CommandOption| o@)
}

impl CommandOptionChoice {
    /// A copy equal to this choice.
    pub fn duplicate(&self) -> (r: Self)
        ensures
            r == *self,
    {
        CommandOptionChoice { name: self.name.clone(), value: self.value }
    }
}

impl ChoiceCommandOptionData {
    /// A copy whose choice list holds the same values.
    pub fn duplicate(&self) -> (r: Self)
        ensures
            r.choices@ == self.choices@,
            r.description@ == self.description@,
            r.name@ == self.name@,
            r.required == self.required,
    {
        let mut choices: Vec<CommandOptionChoice> = Vec::new();
        let n: usize = self.choices.len();
        let mut i: usize = 0;
        while i < n
            invariant
                0 <= i <= n,
                n == self.choices@.len(),
                choices@ =~= self.choices@.take(i as int),
            decreases n - i,
        {
            choices.push(self.choices[i].duplicate());
            proof {
                assert(choices@ =~= self.choices@.take(i + 1));
            }
            i = i + 1;
        }
        proof {
            assert(self.choices@.take(n as int) =~= self.choices@);
        }
        ChoiceCommandOptionData {
            choices,
            description: self.description.clone(),
            name: self.name.clone(),
            required: self.required,
        }
    }
}

impl BaseCommandOptionData {
    /// A copy equal in every field.
    pub fn duplicate(&self) -> (r: Self)
        ensures
            r.description@ == self.description@,
            r.name@ == self.name@,
            r.required == self.required,
    {
        BaseCommandOptionData {
            description: self.description.clone(),
            name: self.name.clone(),
            required: self.required,
        }
    }
}

impl CommandOption {
    /// A copy with the same view.
    pub fn duplicate(&self) -> (r: Self)
        ensures
            r@ == self@,
    {
        match self {
            CommandOption::String(d) => CommandOption::String(d.duplicate()),
            CommandOption::Integer(d) => CommandOption::Integer(d.duplicate()),
            CommandOption::Boolean(d) => CommandOption::Boolean(d.duplicate()),
            CommandOption::User(d) => CommandOption::User(d.duplicate()),
            CommandOption::Channel(d) => CommandOption::Channel(d.duplicate()),
            CommandOption::Role(d) => CommandOption::Role(d.duplicate()),
            CommandOption::Mentionable(d) => CommandOption::Mentionable(d.duplicate()),
        }
    }
}

/// A copy of an option list whose views are unchanged, element for element.
pub fn duplicate_options(options: &Vec<CommandOption>) -> (r: Vec<CommandOption>)
    ensures
        spec_options_view(r@) == spec_options_view(options@),
{
    let mut out: Vec<CommandOption> = Vec::new();
    let n: usize = options.len();
    let mut i: usize = 0;
    while i < n
        invariant
            0 <= i <= n,
            n == options@.len(),
            out@.len() == i,
            forall|j: int| 0 <= j < i ==> #[trigger] out@[j]@ == options@[j]@,
        decreases n - i,
    {
        out.push(options[i].duplicate());
        i = i + 1;
    }
    proof {
        assert(spec_options_view(out@) =~= spec_options_view(options@));
    }
    out
}

/// What a registered command is: a chat-input (slash) command, a command
/// on a message, or a command on a user.
#[derive(Debug, PartialEq)]
pub enum CommandType {
    ChatInput,
    Message,
    User,
}

/// A command descriptor as registered with the platform.
#[derive(Debug, PartialEq)]
pub struct Command {
    pub name: String,
    pub description: String,
    pub options: Vec<CommandOption>,
    pub kind: CommandType,
}

/// The kind of handler a command declaration calls for.
#[derive(Debug, PartialEq)]
pub enum CommandKind {
    Slash,
    Message,
    User,
}

/// A declared command: a slash command with its description and typed
/// options, a message command, or a user command. The code run for the
/// command is registered beside this declaration by the caller.
#[derive(Debug, PartialEq)]
pub enum CommandDecl {
    Slash { description: String, options: Vec<CommandOption> },
    Message,
    User,
}

/// Whether `c` is the descriptor that registering `decl` under `name`
/// produces: the name itself; the declared description, options and the
/// chat-input type for a slash command; an empty description, no options
/// and the message or user type otherwise.
pub open spec fn spec_describes(c: Command, name: Seq<char>, decl: CommandDecl) -> bool {
    &&& c.name@ == name
    &&& c.description@ == (match decl {
        CommandDecl::Slash { description, .. } => description@,
        _ => Seq::<char>::empty(),
    })
    &&& spec_options_view(c.options@) == (match decl {
        CommandDecl::Slash { options, .. } => spec_options_view(options@),
        _ => Seq::<CommandOptionView>::empty(),
    })
    &&& c.kind == (match decl {
        CommandDecl::Slash { .. } => CommandType::ChatInput,
        CommandDecl::Message => CommandType::Message,
        CommandDecl::User => CommandType::User,
    })
}

impl CommandDecl {
    /// The kind of handler this declaration calls for.
    pub open spec fn spec_kind(&self) -> CommandKind {
        match self {
            CommandDecl::Slash { .. } => CommandKind::Slash,
            CommandDecl::Message => CommandKind::Message,
            CommandDecl::User => CommandKind::User,
        }
    }

    /// The kind of handler this declaration calls for.
    pub fn kind(&self) -> (r: CommandKind)
        ensures
            r == self.spec_kind(),
    {
        match self {
            CommandDecl::Slash { .. } => CommandKind::Slash,
            CommandDecl::Message => CommandKind::Message,
            CommandDecl::User => CommandKind::User,
        }
    }

    /// The descriptor registered with the platform for this declaration
    /// under the given name: slash commands carry their description and
    /// options, message and user commands have an empty description, no
    /// options and their own command type.
    pub fn description(&self, name: String) -> (c: Command)
        ensures
            spec_describes(c, name@, *self),
    {
        let description: String = match self {
            CommandDecl::Slash { description, .. } => description.clone(),
            _ => String::new(),
        };
        let options: Vec<CommandOption> = match self {
            CommandDecl::Slash { options, .. } => duplicate_options(options),
            _ => Vec::new(),
        };
        proof {
            if !(self matches CommandDecl::Slash { .. }) {
                assert(spec_options_view(options@) =~= Seq::<CommandOptionView>::empty());
            }
        }
        let kind = match self {
            CommandDecl::Slash { .. } => CommandType::ChatInput,
            CommandDecl::Message => CommandType::Message,
            CommandDecl::User => CommandType::User,
        };
        Command { name, description, options, kind }
    }
}

} // verus!
