//! Routing: matching incoming interactions to the registered commands and
//! deciding the reply, and the builder that registers commands.

use vstd::prelude::*;

use crate::command::{CommandDecl, CommandKind};
use crate::interaction::{
    CommandDataOption, CommandInteractionDataResolved, Interaction,
    MessageComponentInteractionData,
};
use crate::{Callback, CallbackData, ephemeral_text, spec_is_ephemeral_text};

verus! {

use twilight_model::channel::Message;

/// What the library decided for one interaction: either a finished wire
/// answer, or which registered handler the caller must run, with the data
/// it needs.
#[derive(Debug, PartialEq)]
pub enum Action {
    /// The answer is complete; no handler runs.
    Complete(Callback),
    /// Run the slash handler registered at `index` on these options.
    InvokeSlash {
        index: usize,
        options: Vec<CommandDataOption>,
        resolved: Option<CommandInteractionDataResolved>,
    },
    /// Run the message-command handler registered at `index` on this message.
    InvokeMessage { index: usize, message: Message },
    /// Run the user-command handler registered at `index` on this user.
    InvokeUser { index: usize, user: crate::interaction::User },
    /// Run the registered component handler on this message and component data.
    InvokeComponent { message: Message, data: MessageComponentInteractionData },
}

/// The decision for an interaction: the action to carry out, together with
/// the interaction's ID and token, which address the response.
#[derive(Debug, PartialEq)]
pub struct Response {
    pub action: Action,
    pub id: u64,
    pub token: String,
}

/// The index of the first registered command with the given command ID.
pub open spec fn spec_find_command(commands: Seq<(u64, CommandKind)>, id: u64) -> Option<int>
    decreases commands.len(),
{
    if commands.len() == 0 {
        None
    } else if commands.first().0 == id {
        Some(0int)
    } else {
        match spec_find_command(commands.drop_first(), id) {
            Some(j) => Some(j + 1),
            None => None,
        }
    }
}

proof fn lemma_find_command_at(commands: Seq<(u64, CommandKind)>, id: u64, i: int)
    requires
        0 <= i < commands.len(),
        commands[i].0 == id,
        forall|j: int| 0 <= j < i ==> (#[trigger] commands[j]).0 != id,
    ensures
        spec_find_command(commands, id) == Some(i),
    decreases commands.len(),
{
    if i > 0 {
        lemma_find_command_at(commands.drop_first(), id, i - 1);
    }
}

proof fn lemma_find_command_none(commands: Seq<(u64, CommandKind)>, id: u64)
    requires
        forall|j: int| 0 <= j < commands.len() ==> (#[trigger] commands[j]).0 != id,
    ensures
        spec_find_command(commands, id) is None,
    decreases commands.len(),
{
    if commands.len() > 0 {
        lemma_find_command_none(commands.drop_first(), id);
    }
}

/// Whether `action` is the finished error reply telling the invoker that a
/// message command arrived without exactly one resolved message.
pub open spec fn spec_invalid_message_reply(action: Action) -> bool {
    action matches Action::Complete(Callback::ChannelMessageWithSource(d))
        && spec_is_ephemeral_text(d, "Invalid message command recieved"@)
}

/// Whether `action` is the finished error reply telling the invoker that a
/// user command arrived without exactly one resolved user.
pub open spec fn spec_invalid_user_reply(action: Action) -> bool {
    action matches Action::Complete(Callback::ChannelMessageWithSource(d))
        && spec_is_ephemeral_text(d, "Invalid user command recieved"@)
}

/// What a message command dispatches to: the handler at `index` on the one
/// resolved message, or the error reply when the resolved data does not
/// hold exactly one message.
pub open spec fn spec_message_dispatch(
    action: Action,
    index: int,
    resolved: Option<CommandInteractionDataResolved>,
) -> bool {
    match resolved {
        Some(res) => if res.messages@.len() == 1 {
            action == (Action::InvokeMessage {
                index: index as usize,
                message: res.messages@.last(),
            })
        } else {
            spec_invalid_message_reply(action)
        },
        None => spec_invalid_message_reply(action),
    }
}

/// What a user command dispatches to: the handler at `index` on the one
/// resolved user, or the error reply when the resolved data does not hold
/// exactly one user.
pub open spec fn spec_user_dispatch(
    action: Action,
    index: int,
    resolved: Option<CommandInteractionDataResolved>,
) -> bool {
    match resolved {
        Some(res) => if res.users@.len() == 1 {
            action == (Action::InvokeUser { index: index as usize, user: res.users@.last() })
        } else {
            spec_invalid_user_reply(action)
        },
        None => spec_invalid_user_reply(action),
    }
}

/// Whether `action` is the finished reply for a command ID that matches no
/// registered command, naming the command the user tried.
pub open spec fn spec_unknown_command_reply(action: Action, name: Seq<char>) -> bool {
    action matches Action::Complete(Callback::ChannelMessageWithSource(d))
        && spec_is_ephemeral_text(d, "Unknown command '/"@ + name + "'"@)
}

/// Whether `action` is the finished reply for a component interaction that
/// arrived while no component handler is registered.
pub open spec fn spec_no_component_handler_reply(action: Action) -> bool {
    action matches Action::Complete(Callback::ChannelMessageWithSource(d))
        && spec_is_ephemeral_text(d, "Error: no message component handler registered"@)
}

/// The router: which registered commands exist, under the IDs the platform
/// assigned them, and whether a component handler is registered. The code
/// run for each command lives with the caller, side by side with this
/// table, in the same order.
pub struct Handler {
    pub commands: Vec<(u64, CommandKind)>,
    pub has_component_handler: bool,
}

impl Handler {
    /// An empty builder to declare commands on.
    pub fn builder() -> (r: HandlerBuilder)
        ensures
            r.global_commands@.len() == 0,
            r.guild_commands@.len() == 0,
            !r.has_component_handler,
    {
        HandlerBuilder {
            global_commands: Vec::new(),
            guild_commands: Vec::new(),
            has_component_handler: false,
        }
    }

    /// Decide the response to one interaction. A liveness check is answered
    /// with a pong; an invoked command is matched against the registered
    /// command IDs, in order, and dispatched to the matching handler once
    /// its resolved data is checked, or answered with an error reply naming
    /// the unknown command; a component interaction goes to the component
    /// handler, or to an error reply when none is registered.
    #[verifier::loop_isolation(false)]
    pub fn handle(&self, interaction: Interaction) -> (r: Response)
        ensures
            r.id == interaction.spec_id(),
            r.token == interaction.spec_token(),
            match interaction {
                Interaction::Ping { .. } => r.action == Action::Complete(Callback::Pong),
                Interaction::ApplicationCommand { data, .. } => match spec_find_command(
                    self.commands@,
                    data.id,
                ) {
                    Some(i) => match self.commands@[i].1 {
                        CommandKind::Slash => r.action == (Action::InvokeSlash {
                            index: i as usize,
                            options: data.options,
                            resolved: data.resolved,
                        }),
                        CommandKind::Message => spec_message_dispatch(r.action, i, data.resolved),
                        CommandKind::User => spec_user_dispatch(r.action, i, data.resolved),
                    },
                    None => spec_unknown_command_reply(r.action, data.name@),
                },
                Interaction::MessageComponent { message, data, .. } => if self
                    .has_component_handler {
                    r.action == (Action::InvokeComponent { message, data })
                } else {
                    spec_no_component_handler_reply(r.action)
                },
            },
    {
        match interaction {
            Interaction::Ping { id, token } => Response {
                action: Action::Complete(Callback::Pong),
                id,
                token,
            },
            Interaction::ApplicationCommand { id, token, data } => {
                let n: usize = self.commands.len();
                let mut i: usize = 0;
                while i < n
                    invariant
                        0 <= i <= n,
                        n == self.commands@.len(),
                        forall|j: int| 0 <= j < i ==> (#[trigger] self.commands@[j]).0 != data.id,
                    decreases n - i,
                {
                    if self.commands[i].0 == data.id {
                        proof {
                            lemma_find_command_at(self.commands@, data.id, i as int);
                        }
                        let action = match self.commands[i].1 {
                            CommandKind::Slash => Action::InvokeSlash {
                                index: i,
                                options: data.options,
                                resolved: data.resolved,
                            },
                            CommandKind::Message => Self::dispatch_message(i, data.resolved),
                            CommandKind::User => Self::dispatch_user(i, data.resolved),
                        };
                        return Response { action, id, token };
                    }
                    i = i + 1;
                }
                proof {
                    lemma_find_command_none(self.commands@, data.id);
                }
                let content = String::from_str("Unknown command '/").concat(data.name.as_str())
                    .concat("'");
                Response {
                    action: Action::Complete(
                        Callback::ChannelMessageWithSource(ephemeral_text(content)),
                    ),
                    id,
                    token,
                }
            },
            Interaction::MessageComponent { id, token, message, data } => {
                if self.has_component_handler {
                    Response { action: Action::InvokeComponent { message, data }, id, token }
                } else {
                    let content = String::from_str(
                        "Error: no message component handler registered",
                    );
                    Response {
                        action: Action::Complete(
                            Callback::ChannelMessageWithSource(ephemeral_text(content)),
                        ),
                        id,
                        token,
                    }
                }
            },
        }
    }

    /// The dispatch for a matched message command: the one resolved message
    /// goes to the handler; anything else is answered with an error reply.
    fn dispatch_message(index: usize, resolved: Option<CommandInteractionDataResolved>) -> (action:
        Action)
        ensures
            spec_message_dispatch(action, index as int, resolved),
    {
        match resolved {
            Some(res) => {
                let mut res = res;
                if res.messages.len() == 1 {
                    let message = res.messages.pop().unwrap();
                    Action::InvokeMessage { index, message }
                } else {
                    Self::invalid_message_reply()
                }
            },
            None => Self::invalid_message_reply(),
        }
    }

    /// The dispatch for a matched user command: the one resolved user goes
    /// to the handler; anything else is answered with an error reply.
    fn dispatch_user(index: usize, resolved: Option<CommandInteractionDataResolved>) -> (action:
        Action)
        ensures
            spec_user_dispatch(action, index as int, resolved),
    {
        match resolved {
            Some(res) => {
                let mut res = res;
                if res.users.len() == 1 {
                    let user = res.users.pop().unwrap();
                    Action::InvokeUser { index, user }
                } else {
                    Self::invalid_user_reply()
                }
            },
            None => Self::invalid_user_reply(),
        }
    }

    /// The error reply for a malformed message command.
    fn invalid_message_reply() -> (action: Action)
        ensures
            spec_invalid_message_reply(action),
    {
        let content = String::from_str("Invalid message command recieved");
        Action::Complete(Callback::ChannelMessageWithSource(ephemeral_text(content)))
    }

    /// The error reply for a malformed user command.
    fn invalid_user_reply() -> (action: Action)
        ensures
            spec_invalid_user_reply(action),
    {
        let content = String::from_str("Invalid user command recieved");
        Action::Complete(Callback::ChannelMessageWithSource(ephemeral_text(content)))
    }
}

/// The reply sent back when a submitted option cannot be matched or
/// parsed, naming the offending option.
pub fn invalid_option_reply(err: &str) -> (r: CallbackData)
    ensures
        spec_is_ephemeral_text(r, "Invalid option '"@ + err@ + "'"@),
{
    let content = String::from_str("Invalid option '").concat(err).concat("'");
    ephemeral_text(content)
}

/// Whether the name of `o` appears among the expected argument names.
pub open spec fn spec_name_known(expected: Seq<Seq<char>>, o: CommandDataOption) -> bool {
    exists|j: int| 0 <= j < expected.len() && expected[j] == o.spec_name()
}

/// The first expected index carrying the given name.
pub open spec fn spec_first_name_index(expected: Seq<Seq<char>>, name: Seq<char>) -> Option<int>
    decreases expected.len(),
{
    if expected.len() == 0 {
        None
    } else if expected.first() == name {
        Some(0int)
    } else {
        match spec_first_name_index(expected.drop_first(), name) {
            Some(j) => Some(j + 1),
            None => None,
        }
    }
}

proof fn lemma_first_name_index_at(expected: Seq<Seq<char>>, name: Seq<char>, i: int)
    requires
        0 <= i < expected.len(),
        expected[i] == name,
        forall|j: int| 0 <= j < i ==> #[trigger] expected[j] != name,
    ensures
        spec_first_name_index(expected, name) == Some(i),
    decreases expected.len(),
{
    if i > 0 {
        lemma_first_name_index_at(expected.drop_first(), name, i - 1);
    }
}

proof fn lemma_first_name_index_le(expected: Seq<Seq<char>>, name: Seq<char>, i: int)
    requires
        0 <= i < expected.len(),
        expected[i] == name,
    ensures
        spec_first_name_index(expected, name) matches Some(f) && 0 <= f <= i,
    decreases expected.len(),
{
    if expected.first() != name {
        lemma_first_name_index_le(expected.drop_first(), name, i - 1);
    }
}

/// The last submitted option with the given name.
pub open spec fn spec_last_match(name: Seq<char>, options: Seq<CommandDataOption>) -> Option<
    CommandDataOption,
>
    decreases options.len(),
{
    if options.len() == 0 {
        None
    } else if options.last().spec_name() == name {
        Some(options.last())
    } else {
        spec_last_match(name, options.drop_last())
    }
}

/// What the argument slot at `j` receives: the last submitted option named
/// `expected[j]`; when the same name is expected more than once, only its
/// first slot is filled.
pub open spec fn spec_slot(
    expected: Seq<Seq<char>>,
    options: Seq<CommandDataOption>,
    j: int,
) -> Option<CommandDataOption> {
    if spec_first_name_index(expected, expected[j]) == Some(j) {
        spec_last_match(expected[j], options)
    } else {
        None
    }
}

/// The expected argument names, as character sequences.
pub open spec fn spec_names_view(expected: Seq<String>) -> Seq<Seq<char>> {
    expected.map_values(|s: String| s@)
}

/// Sort the submitted options into the declared argument slots, by name.
/// Every submitted option must be named by some slot; the first one that
/// is not stops the marshalling and is reported by name. Each slot then
/// receives the last submitted option carrying its name, or nothing.
#[verifier::loop_isolation(false)]
pub fn match_options(expected: &Vec<String>, options: &Vec<CommandDataOption>) -> (r: Result<
    Vec<Option<CommandDataOption>>,
    String,
>)
    ensures
        match r {
            Ok(slots) => {
                &&& forall|k: int|
                    0 <= k < options@.len() ==> spec_name_known(
                        spec_names_view(expected@),
                        #[trigger] options@[k],
                    )
                &&& slots@.len() == expected@.len()
                &&& forall|j: int|
                    0 <= j < expected@.len() ==> #[trigger] slots@[j] == spec_slot(
                        spec_names_view(expected@),
                        options@,
                        j,
                    )
            },
            Err(e) => exists|k: int|
                {
                    &&& 0 <= k < options@.len()
                    &&& !spec_name_known(spec_names_view(expected@), #[trigger] options@[k])
                    &&& (forall|k2: int|
                        0 <= k2 < k ==> spec_name_known(
                            spec_names_view(expected@),
                            options@[k2],
                        ))
                    &&& e@ == options@[k].spec_name()
                },
        },
{
    let ghost evs = spec_names_view(expected@);
    let n: usize = options.len();
    let en: usize = expected.len();
    let mut k: usize = 0;
    while k < n
        invariant
            0 <= k <= n,
            forall|k2: int| 0 <= k2 < k ==> spec_name_known(evs, #[trigger] options@[k2]),
        decreases n - k,
    {
        let name = options[k].name();
        let mut j: usize = 0;
        let mut found = false;
        while j < en
            invariant
                0 <= j <= en,
                found ==> spec_name_known(evs, options@[k as int]),
                !found ==> forall|j2: int| 0 <= j2 < j ==> #[trigger] evs[j2] != name@,
            decreases en - j,
        {
            if expected[j] == *name {
                proof {
                    assert(evs[j as int] == options@[k as int].spec_name());
                }
                found = true;
            }
            j = j + 1;
        }
        if !found {
            proof {
                assert(!spec_name_known(evs, options@[k as int]));
            }
            return Err(options[k].name().clone());
        }
        k = k + 1;
    }
    let mut slots: Vec<Option<CommandDataOption>> = Vec::new();
    let mut j: usize = 0;
    while j < en
        invariant
            0 <= j <= en,
            slots@.len() == j,
            forall|j2: int| 0 <= j2 < j ==> #[trigger] slots@[j2] == spec_slot(evs, options@, j2),
        decreases en - j,
    {
        let mut j2: usize = 0;
        let mut dup = false;
        while j2 < j
            invariant
                0 <= j2 <= j,
                dup ==> exists|j3: int| 0 <= j3 < j && #[trigger] evs[j3] == evs[j as int],
                !dup ==> forall|j3: int| 0 <= j3 < j2 ==> #[trigger] evs[j3] != evs[j as int],
            decreases j - j2,
        {
            if expected[j2] == expected[j] {
                proof {
                    assert(evs[j2 as int] == evs[j as int]);
                }
                dup = true;
            }
            j2 = j2 + 1;
        }
        if dup {
            proof {
                let j3 = choose|j3: int| 0 <= j3 < j && #[trigger] evs[j3] == evs[j as int];
                lemma_first_name_index_le(evs, evs[j as int], j3);
                assert(spec_first_name_index(evs, evs[j as int]) != Some(j as int));
            }
            slots.push(None);
        } else {
            proof {
                lemma_first_name_index_at(evs, evs[j as int], j as int);
            }
            let mut m: usize = options.len();
            let mut res: Option<CommandDataOption> = None;
            proof {
                assert(options@.take(n as int) =~= options@);
            }
            while m > 0 && res.is_none()
                invariant
                    0 <= m <= n,
                    res is None ==> spec_last_match(evs[j as int], options@) == spec_last_match(
                        evs[j as int],
                        options@.take(m as int),
                    ),
                    res matches Some(o) ==> spec_last_match(evs[j as int], options@) == Some(o),
                decreases m, (if res is None { 1int } else { 0int }),
            {
                if *options[m - 1].name() == expected[j] {
                    proof {
                        assert(options@.take(m as int).last() == options@[m - 1]);
                    }
                    res = Some(options[m - 1].duplicate());
                } else {
                    proof {
                        assert(options@.take(m as int).drop_last() =~= options@.take(m - 1));
                    }
                    m = m - 1;
                }
            }
            slots.push(res);
        }
        j = j + 1;
    }
    Ok(slots)
}

/// Declares the commands to register with the platform: global commands,
/// commands grouped under each guild's ID in first-use order, and whether
/// a component handler will be registered. The platform assigns each
/// registered command an ID; `build` pairs those IDs with the
/// declarations to form the router.
pub struct HandlerBuilder {
    pub global_commands: Vec<(String, CommandDecl)>,
    pub guild_commands: Vec<(u64, Vec<(String, CommandDecl)>)>,
    pub has_component_handler: bool,
}

/// The index of the first guild entry with the given guild ID.
pub open spec fn spec_find_guild(
    guilds: Seq<(u64, Vec<(String, CommandDecl)>)>,
    id: u64,
) -> Option<int>
    decreases guilds.len(),
{
    if guilds.len() == 0 {
        None
    } else if guilds.first().0 == id {
        Some(0int)
    } else {
        match spec_find_guild(guilds.drop_first(), id) {
            Some(j) => Some(j + 1),
            None => None,
        }
    }
}

proof fn lemma_find_guild_at(guilds: Seq<(u64, Vec<(String, CommandDecl)>)>, id: u64, i: int)
    requires
        0 <= i < guilds.len(),
        guilds[i].0 == id,
        forall|j: int| 0 <= j < i ==> (#[trigger] guilds[j]).0 != id,
    ensures
        spec_find_guild(guilds, id) == Some(i),
    decreases guilds.len(),
{
    if i > 0 {
        lemma_find_guild_at(guilds.drop_first(), id, i - 1);
    }
}

proof fn lemma_find_guild_none(guilds: Seq<(u64, Vec<(String, CommandDecl)>)>, id: u64)
    requires
        forall|j: int| 0 <= j < guilds.len() ==> (#[trigger] guilds[j]).0 != id,
    ensures
        spec_find_guild(guilds, id) is None,
    decreases guilds.len(),
{
    if guilds.len() > 0 {
        lemma_find_guild_none(guilds.drop_first(), id);
    }
}

/// The smaller of two lengths.
pub open spec fn spec_min(a: int, b: int) -> int {
    if a <= b {
        a
    } else {
        b
    }
}

/// The router entries for one command list and the IDs assigned to it:
/// entry `i` pairs the `i`th assigned ID with the `i`th declaration's
/// handler kind, stopping at the shorter list.
pub open spec fn spec_zip_commands(cmds: Seq<(String, CommandDecl)>, ids: Seq<u64>) -> Seq<
    (u64, CommandKind),
> {
    Seq::new(
        spec_min(cmds.len() as int, ids.len() as int) as nat,
        |i: int| (ids[i], cmds[i].1.spec_kind()),
    )
}

/// The router entries for a run of guild command lists, each paired with
/// the IDs the platform assigned for that guild, in order.
pub open spec fn spec_guild_zip(
    guilds: Seq<(u64, Vec<(String, CommandDecl)>)>,
    ids: Seq<Vec<u64>>,
) -> Seq<(u64, CommandKind)>
    decreases guilds.len(),
{
    if guilds.len() == 0 || ids.len() == 0 {
        Seq::empty()
    } else {
        spec_guild_zip(guilds.drop_last(), ids.drop_last()) + spec_zip_commands(
            guilds.last().1@,
            ids.last()@,
        )
    }
}

impl HandlerBuilder {
    /// Declare a command available everywhere, to be registered under the
    /// given name.
    pub fn global_command(self, name: String, command: CommandDecl) -> (r: Self)
        ensures
            r.global_commands@ == self.global_commands@.push((name, command)),
            r.guild_commands == self.guild_commands,
            r.has_component_handler == self.has_component_handler,
    {
        let mut s = self;
        s.global_commands.push((name, command));
        s
    }

    /// Declare a command available in one guild: it joins that guild's
    /// list, which is created at the end of the table on its first use.
    pub fn guild_command(self, guild_id: u64, name: String, command: CommandDecl) -> (r: Self)
        ensures
            r.global_commands == self.global_commands,
            r.has_component_handler == self.has_component_handler,
            match spec_find_guild(self.guild_commands@, guild_id) {
                Some(g) => {
                    &&& r.guild_commands@.len() == self.guild_commands@.len()
                    &&& (forall|k: int|
                        0 <= k < self.guild_commands@.len() && k != g
                            ==> #[trigger] r.guild_commands@[k] == self.guild_commands@[k])
                    &&& r.guild_commands@[g].0 == guild_id
                    &&& r.guild_commands@[g].1@ == self.guild_commands@[g].1@.push(
                        (name, command),
                    )
                },
                None => {
                    &&& r.guild_commands@.len() == self.guild_commands@.len() + 1
                    &&& (forall|k: int|
                        0 <= k < self.guild_commands@.len()
                            ==> #[trigger] r.guild_commands@[k] == self.guild_commands@[k])
                    &&& r.guild_commands@.last().0 == guild_id
                    &&& r.guild_commands@.last().1@ == Seq::<(String, CommandDecl)>::empty().push(
                        (name, command),
                    )
                },
            },
    {
        let mut s = self;
        let n: usize = s.guild_commands.len();
        let mut g: usize = 0;
        while g < n
            invariant
                0 <= g <= n,
                n == s.guild_commands@.len(),
                s == self,
                forall|j: int| 0 <= j < g ==> (#[trigger] s.guild_commands@[j]).0 != guild_id,
            decreases n - g,
        {
            if s.guild_commands[g].0 == guild_id {
                proof {
                    lemma_find_guild_at(s.guild_commands@, guild_id, g as int);
                }
                let mut entry = s.guild_commands.remove(g);
                entry.1.push((name, command));
                s.guild_commands.insert(g, entry);
                proof {
                    assert(s.guild_commands@ =~= self.guild_commands@.update(
                        g as int,
                        s.guild_commands@[g as int],
                    ));
                }
                return s;
            }
            g = g + 1;
        }
        proof {
            lemma_find_guild_none(s.guild_commands@, guild_id);
        }
        let mut inner: Vec<(String, CommandDecl)> = Vec::new();
        inner.push((name, command));
        s.guild_commands.push((guild_id, inner));
        s
    }

    /// Record that a component handler will be registered beside the
    /// router.
    pub fn component_handler(self) -> (r: Self)
        ensures
            r.global_commands == self.global_commands,
            r.guild_commands == self.guild_commands,
            r.has_component_handler,
    {
        let mut s = self;
        s.has_component_handler = true;
        s
    }

    /// The descriptors to register globally, one per declared global
    /// command, in order.
    pub fn global_descriptions(&self) -> (r: Vec<crate::command::Command>)
        ensures
            r@.len() == self.global_commands@.len(),
            forall|i: int|
                0 <= i < r@.len() ==> crate::command::spec_describes(
                    #[trigger] r@[i],
                    self.global_commands@[i].0@,
                    self.global_commands@[i].1,
                ),
    {
        let mut out: Vec<crate::command::Command> = Vec::new();
        let n: usize = self.global_commands.len();
        let mut i: usize = 0;
        while i < n
            invariant
                0 <= i <= n,
                n == self.global_commands@.len(),
                out@.len() == i,
                forall|j: int|
                    0 <= j < i ==> crate::command::spec_describes(
                        #[trigger] out@[j],
                        self.global_commands@[j].0@,
                        self.global_commands@[j].1,
                    ),
            decreases n - i,
        {
            let entry = &self.global_commands[i];
            out.push(entry.1.description(entry.0.clone()));
            i = i + 1;
        }
        out
    }

    /// The descriptors to register for the guild entry at `g`, one per
    /// command declared for that guild, in order.
    pub fn guild_descriptions(&self, g: usize) -> (r: Vec<crate::command::Command>)
        requires
            g < self.guild_commands@.len(),
        ensures
            r@.len() == self.guild_commands@[g as int].1@.len(),
            forall|i: int|
                0 <= i < r@.len() ==> crate::command::spec_describes(
                    #[trigger] r@[i],
                    self.guild_commands@[g as int].1@[i].0@,
                    self.guild_commands@[g as int].1@[i].1,
                ),
    {
        let cmds = &self.guild_commands[g].1;
        let mut out: Vec<crate::command::Command> = Vec::new();
        let n: usize = cmds.len();
        let mut i: usize = 0;
        while i < n
            invariant
                0 <= i <= n,
                n == cmds@.len(),
                cmds@ == self.guild_commands@[g as int].1@,
                out@.len() == i,
                forall|j: int|
                    0 <= j < i ==> crate::command::spec_describes(
                        #[trigger] out@[j],
                        cmds@[j].0@,
                        cmds@[j].1,
                    ),
            decreases n - i,
        {
            let entry = &cmds[i];
            out.push(entry.1.description(entry.0.clone()));
            i = i + 1;
        }
        out
    }

    /// Form the router from the IDs the platform assigned: global commands
    /// first, each paired with its assigned ID in order, then each guild's
    /// commands in declaration order, paired with that guild's assigned
    /// IDs. Pairing stops at the shorter of a list and its IDs.
    pub fn build(self, global_ids: &Vec<u64>, guild_ids: &Vec<Vec<u64>>) -> (h: Handler)
        ensures
            h.has_component_handler == self.has_component_handler,
            h.commands@ == ({
                let m = spec_min(self.guild_commands@.len() as int, guild_ids@.len() as int);
                spec_zip_commands(self.global_commands@, global_ids@) + spec_guild_zip(
                    self.guild_commands@.take(m),
                    guild_ids@.take(m),
                )
            }),
    {
        let mut commands: Vec<(u64, CommandKind)> = Vec::new();
        let gn: usize = if self.global_commands.len() <= global_ids.len() {
            self.global_commands.len()
        } else {
            global_ids.len()
        };
        let mut i: usize = 0;
        while i < gn
            invariant
                0 <= i <= gn,
                gn == spec_min(self.global_commands@.len() as int, global_ids@.len() as int),
                commands@.len() == i,
                forall|j: int|
                    0 <= j < i ==> #[trigger] commands@[j] == (
                        global_ids@[j],
                        self.global_commands@[j].1.spec_kind(),
                    ),
            decreases gn - i,
        {
            commands.push((global_ids[i], self.global_commands[i].1.kind()));
            i = i + 1;
        }
        proof {
            assert(commands@ =~= spec_zip_commands(self.global_commands@, global_ids@));
        }
        let ghost zipped_globals = commands@;
        let m: usize = if self.guild_commands.len() <= guild_ids.len() {
            self.guild_commands.len()
        } else {
            guild_ids.len()
        };
        let mut g: usize = 0;
        while g < m
            invariant
                0 <= g <= m,
                m == spec_min(self.guild_commands@.len() as int, guild_ids@.len() as int),
                commands@ == zipped_globals + spec_guild_zip(
                    self.guild_commands@.take(g as int),
                    guild_ids@.take(g as int),
                ),
            decreases m - g,
        {
            let ghost base = commands@;
            let cmds = &self.guild_commands[g].1;
            let ids = &guild_ids[g];
            let en: usize = if cmds.len() <= ids.len() {
                cmds.len()
            } else {
                ids.len()
            };
            let mut k: usize = 0;
            while k < en
                invariant
                    0 <= k <= en,
                    en == spec_min(cmds@.len() as int, ids@.len() as int),
                    cmds@ == self.guild_commands@[g as int].1@,
                    ids@ == guild_ids@[g as int]@,
                    g < self.guild_commands@.len(),
                    g < guild_ids@.len(),
                    commands@.len() == base.len() + k,
                    commands@ == base + spec_zip_commands(cmds@, ids@).take(k as int),
                decreases en - k,
            {
                commands.push((ids[k], cmds[k].1.kind()));
                proof {
                    assert(commands@ =~= base + spec_zip_commands(cmds@, ids@).take(k + 1));
                }
                k = k + 1;
            }
            proof {
                assert(spec_zip_commands(cmds@, ids@).take(en as int) =~= spec_zip_commands(
                    cmds@,
                    ids@,
                ));
                let t1 = self.guild_commands@.take(g + 1);
                let t2 = guild_ids@.take(g + 1);
                assert(t1.drop_last() =~= self.guild_commands@.take(g as int));
                assert(t2.drop_last() =~= guild_ids@.take(g as int));
                assert(t1.last() == self.guild_commands@[g as int]);
                assert(t2.last() == guild_ids@[g as int]);
                assert(commands@ == zipped_globals + spec_guild_zip(t1, t2));
            }
            g = g + 1;
        }
        proof {
            assert(self.guild_commands@.take(m as int) == self.guild_commands@.take(
                spec_min(self.guild_commands@.len() as int, guild_ids@.len() as int),
            ));
        }
        Handler { commands, has_component_handler: self.has_component_handler }
    }
}

} // verus!
