//! Incoming interaction events: what the platform delivers when a user
//! invokes a command or clicks a component, with the fields the library
//! reads held as plain values.

use vstd::prelude::*;

verus! {

use twilight_model::channel::Message;

/// A user attached to an interaction, with the fields the library reads.
#[derive(Debug, PartialEq)]
pub struct User {
    pub id: u64,
    pub name: String,
}

/// A guild role attached to an interaction.
#[derive(Debug, PartialEq)]
pub struct Role {
    pub id: u64,
    pub name: String,
}

/// A channel attached to an interaction.
#[derive(Debug, PartialEq)]
pub struct InteractionChannel {
    pub id: u64,
    pub name: String,
}

impl User {
    /// A copy equal to this user.
    pub fn duplicate(&self) -> (r: Self)
        ensures
            r == *self,
    {
        User { id: self.id, name: self.name.clone() }
    }
}

impl Role {
    /// A copy equal to this role.
    pub fn duplicate(&self) -> (r: Self)
        ensures
            r == *self,
    {
        Role { id: self.id, name: self.name.clone() }
    }
}

impl InteractionChannel {
    /// A copy equal to this channel.
    pub fn duplicate(&self) -> (r: Self)
        ensures
            r == *self,
    {
        InteractionChannel { id: self.id, name: self.name.clone() }
    }
}

/// One option a user filled in when invoking a slash command.
#[derive(Debug, PartialEq)]
pub enum CommandDataOption {
    String { name: String, value: String },
    Integer { name: String, value: i64 },
    Boolean { name: String, value: bool },
}

impl CommandDataOption {
    /// The name under which this option was filled in.
    pub open spec fn spec_name(&self) -> Seq<char> {
        match self {
            CommandDataOption::String { name, .. } => name@,
            CommandDataOption::Integer { name, .. } => name@,
            CommandDataOption::Boolean { name, .. } => name@,
        }
    }

    /// The name under which this option was filled in.
    pub fn name(&self) -> (r: &String)
        ensures
            r@ == self.spec_name(),
    {
        match self {
            CommandDataOption::String { name, .. } => name,
            CommandDataOption::Integer { name, .. } => name,
            CommandDataOption::Boolean { name, .. } => name,
        }
    }

    /// A copy equal to this option.
    pub fn duplicate(&self) -> (r: Self)
        ensures
            r == *self,
    {
        match self {
            CommandDataOption::String { name, value } => CommandDataOption::String {
                name: name.clone(),
                value: value.clone(),
            },
            CommandDataOption::Integer { name, value } => CommandDataOption::Integer {
                name: name.clone(),
                value: *value,
            },
            CommandDataOption::Boolean { name, value } => CommandDataOption::Boolean {
                name: name.clone(),
                value: *value,
            },
        }
    }
}

/// The users, roles, channels and messages the platform resolved for the
/// options of a command. Messages are carried through to the handler
/// unread, so they keep the platform SDK's own type.
#[derive(Debug, PartialEq)]
pub struct CommandInteractionDataResolved {
    pub channels: Vec<InteractionChannel>,
    pub messages: Vec<Message>,
    pub roles: Vec<Role>,
    pub users: Vec<User>,
}

/// The first user in `users` whose ID is `id`.
pub open spec fn spec_find_user(users: Seq<User>, id: u64) -> Option<User>
    decreases users.len(),
{
    if users.len() == 0 {
        None
    } else if users.first().id == id {
        Some(users.first())
    } else {
        spec_find_user(users.drop_first(), id)
    }
}

/// The first role in `roles` whose ID is `id`.
pub open spec fn spec_find_role(roles: Seq<Role>, id: u64) -> Option<Role>
    decreases roles.len(),
{
    if roles.len() == 0 {
        None
    } else if roles.first().id == id {
        Some(roles.first())
    } else {
        spec_find_role(roles.drop_first(), id)
    }
}

/// The first channel in `channels` whose ID is `id`.
pub open spec fn spec_find_channel(channels: Seq<InteractionChannel>, id: u64) -> Option<
    InteractionChannel,
>
    decreases channels.len(),
{
    if channels.len() == 0 {
        None
    } else if channels.first().id == id {
        Some(channels.first())
    } else {
        spec_find_channel(channels.drop_first(), id)
    }
}

/// Look up the first user with the given ID.
pub fn find_user(users: &Vec<User>, id: u64) -> (r: Option<User>)
    ensures
        r == spec_find_user(users@, id),
{
    let n: usize = users.len();
    let mut i: usize = 0;
    proof {
        assert(users@.skip(0) =~= users@);
    }
    while i < n
        invariant
            0 <= i <= n,
            n == users@.len(),
            spec_find_user(users@, id) == spec_find_user(users@.skip(i as int), id),
        decreases n - i,
    {
        if users[i].id == id {
            proof {
                assert(users@.skip(i as int).first() == users@[i as int]);
            }
            return Some(users[i].duplicate());
        }
        proof {
            assert(users@.skip(i as int).drop_first() =~= users@.skip(i + 1));
        }
        i = i + 1;
    }
    proof {
        assert(users@.skip(n as int).len() == 0);
    }
    None
}

/// Look up the first role with the given ID.
pub fn find_role(roles: &Vec<Role>, id: u64) -> (r: Option<Role>)
    ensures
        r == spec_find_role(roles@, id),
{
    let n: usize = roles.len();
    let mut i: usize = 0;
    proof {
        assert(roles@.skip(0) =~= roles@);
    }
    while i < n
        invariant
            0 <= i <= n,
            n == roles@.len(),
            spec_find_role(roles@, id) == spec_find_role(roles@.skip(i as int), id),
        decreases n - i,
    {
        if roles[i].id == id {
            proof {
                assert(roles@.skip(i as int).first() == roles@[i as int]);
            }
            return Some(roles[i].duplicate());
        }
        proof {
            assert(roles@.skip(i as int).drop_first() =~= roles@.skip(i + 1));
        }
        i = i + 1;
    }
    proof {
        assert(roles@.skip(n as int).len() == 0);
    }
    None
}

/// Look up the first channel with the given ID.
pub fn find_channel(channels: &Vec<InteractionChannel>, id: u64) -> (r: Option<InteractionChannel>)
    ensures
        r == spec_find_channel(channels@, id),
{
    let n: usize = channels.len();
    let mut i: usize = 0;
    proof {
        assert(channels@.skip(0) =~= channels@);
    }
    while i < n
        invariant
            0 <= i <= n,
            n == channels@.len(),
            spec_find_channel(channels@, id) == spec_find_channel(channels@.skip(i as int), id),
        decreases n - i,
    {
        if channels[i].id == id {
            proof {
                assert(channels@.skip(i as int).first() == channels@[i as int]);
            }
            return Some(channels[i].duplicate());
        }
        proof {
            assert(channels@.skip(i as int).drop_first() =~= channels@.skip(i + 1));
        }
        i = i + 1;
    }
    proof {
        assert(channels@.skip(n as int).len() == 0);
    }
    None
}

/// What a user submitted when invoking a command: the registered command's
/// ID and name, the filled-in options, and the resolved values.
#[derive(Debug, PartialEq)]
pub struct CommandData {
    pub id: u64,
    pub name: String,
    pub options: Vec<CommandDataOption>,
    pub resolved: Option<CommandInteractionDataResolved>,
}

/// What arrives when a user interacts with a message component.
#[derive(Debug, PartialEq)]
pub struct MessageComponentInteractionData {
    pub custom_id: String,
    pub values: Vec<String>,
}

/// An interaction event delivered by the platform: a liveness check, an
/// invoked command, or a component interaction.
#[derive(Debug, PartialEq)]
pub enum Interaction {
    Ping { id: u64, token: String },
    ApplicationCommand { id: u64, token: String, data: CommandData },
    MessageComponent {
        id: u64,
        token: String,
        message: Message,
        data: MessageComponentInteractionData,
    },
}

impl Interaction {
    /// The interaction's ID.
    pub open spec fn spec_id(&self) -> u64 {
        match self {
            Interaction::Ping { id, .. } => *id,
            Interaction::ApplicationCommand { id, .. } => *id,
            Interaction::MessageComponent { id, .. } => *id,
        }
    }

    /// The interaction's one-time token, used to answer it.
    pub open spec fn spec_token(&self) -> String {
        match self {
            Interaction::Ping { token, .. } => *token,
            Interaction::ApplicationCommand { token, .. } => *token,
            Interaction::MessageComponent { token, .. } => *token,
        }
    }
}

} // verus!
