//! The types a slash command can take as arguments and return as results:
//! how each argument type describes itself to the platform and parses the
//! submitted value, and how results become reply payloads.

use vstd::prelude::*;

use crate::command::{
    BaseCommandOptionData, ChoiceCommandOptionData, CommandOption, CommandOptionChoice,
    CommandOptionKind, CommandOptionView, spec_choices_view,
};
use crate::interaction::{
    CommandDataOption, CommandInteractionDataResolved, InteractionChannel, Role, User,
    find_channel, find_role, find_user, spec_find_channel, spec_find_role, spec_find_user,
};
use crate::text::{parse_u64, spec_parse_u64};
use crate::{
    Callback, CallbackData, CallbackDataView, empty_callback,
};

verus! {

/// Anything which can be mentioned: either a user or a role.
#[derive(Debug, PartialEq)]
pub enum Mentionable {
    User(User),
    Role(Role),
}

/// The resolved data as a value, for speaking about an optional borrow.
pub open spec fn spec_resolved_val(resolved: Option<&CommandInteractionDataResolved>) -> Option<
    CommandInteractionDataResolved,
> {
    match resolved {
        Some(r) => Some(*r),
        None => None,
    }
}

/// A C-like enumeration whose variants are offered to the user as the
/// predefined choices of an integer option. Implementors list each
/// variant's display name and discriminant and decode a discriminant back
/// to a variant.
pub trait Choices: Sized {
    /// The display name and discriminant of each variant, in order.
    spec fn spec_choices() -> Seq<(Seq<char>, i64)>;

    /// The variant a stored discriminant decodes to, if any.
    spec fn spec_from_discriminant(discriminant: i64) -> Option<Self>;

    /// The display name and discriminant of each variant, in order.
    fn choices() -> (r: Vec<(String, i64)>)
        ensures
            r@.map_values(|p: (String, i64)| (p.0@, p.1)) == Self::spec_choices(),
    ;

    /// Decode a stored discriminant back to a variant.
    fn from_discriminant(discriminant: i64) -> (r: Option<Self>)
        ensures
            r == Self::spec_from_discriminant(discriminant),
    ;
}

/// A type which can be used as an option for a slash command: it describes
/// itself to the platform and parses the value a user submitted.
pub trait SlashCommandOption: Sized {
    /// The descriptor this type registers for an option with the given
    /// name and description.
    spec fn spec_describe(name: Seq<char>, description: Seq<char>) -> CommandOptionView;

    /// The value parsed from the submitted option, if it is well-formed:
    /// `None` says the data has the wrong kind or is missing from the
    /// resolved values.
    spec fn spec_from_option(
        data: Option<CommandDataOption>,
        resolved: Option<CommandInteractionDataResolved>,
    ) -> Option<Self>;

    /// Generate a description for an option of this type with name `name`
    /// and description `description`.
    fn describe(name: String, description: String) -> (r: CommandOption)
        ensures
            r@ == Self::spec_describe(name@, description@),
    ;

    /// Parse an instance of this type from an option given by the
    /// platform. The option's name has already been checked; only the
    /// value and the resolved data decide.
    fn from_option(
        data: Option<CommandDataOption>,
        resolved: Option<&CommandInteractionDataResolved>,
    ) -> (r: Option<Self>)
        ensures
            r == Self::spec_from_option(data, spec_resolved_val(resolved)),
    ;
}

impl SlashCommandOption for String {
    open spec fn spec_describe(name: Seq<char>, description: Seq<char>) -> CommandOptionView {
        CommandOptionView {
            kind: CommandOptionKind::String,
            choices: Seq::empty(),
            name,
            description,
            required: true,
        }
    }

    open spec fn spec_from_option(
        data: Option<CommandDataOption>,
        resolved: Option<CommandInteractionDataResolved>,
    ) -> Option<String> {
        match data {
            Some(CommandDataOption::String { value, .. }) => Some(value),
            _ => None,
        }
    }

    fn describe(name: String, description: String) -> (r: CommandOption) {
        let r = CommandOption::String(
            ChoiceCommandOptionData { choices: Vec::new(), name, description, required: true },
        );
        proof {
            assert(spec_choices_view(Seq::<CommandOptionChoice>::empty()) =~= Seq::<(
                Seq<char>,
                i64,
            )>::empty());
        }
        r
    }

    fn from_option(
        data: Option<CommandDataOption>,
        resolved: Option<&CommandInteractionDataResolved>,
    ) -> (r: Option<Self>) {
        match data {
            Some(CommandDataOption::String { value, .. }) => Some(value),
            _ => None,
        }
    }
}

impl SlashCommandOption for i64 {
    open spec fn spec_describe(name: Seq<char>, description: Seq<char>) -> CommandOptionView {
        CommandOptionView {
            kind: CommandOptionKind::Integer,
            choices: Seq::empty(),
            name,
            description,
            required: true,
        }
    }

    open spec fn spec_from_option(
        data: Option<CommandDataOption>,
        resolved: Option<CommandInteractionDataResolved>,
    ) -> Option<i64> {
        match data {
            Some(CommandDataOption::Integer { value, .. }) => Some(value),
            _ => None,
        }
    }

    fn describe(name: String, description: String) -> (r: CommandOption) {
        let r = CommandOption::Integer(
            ChoiceCommandOptionData { choices: Vec::new(), name, description, required: true },
        );
        proof {
            assert(spec_choices_view(Seq::<CommandOptionChoice>::empty()) =~= Seq::<(
                Seq<char>,
                i64,
            )>::empty());
        }
        r
    }

    fn from_option(
        data: Option<CommandDataOption>,
        resolved: Option<&CommandInteractionDataResolved>,
    ) -> (r: Option<Self>) {
        match data {
            Some(CommandDataOption::Integer { value, .. }) => Some(value),
            _ => None,
        }
    }
}

impl SlashCommandOption for bool {
    open spec fn spec_describe(name: Seq<char>, description: Seq<char>) -> CommandOptionView {
        CommandOptionView {
            kind: CommandOptionKind::Boolean,
            choices: Seq::empty(),
            name,
            description,
            required: true,
        }
    }

    open spec fn spec_from_option(
        data: Option<CommandDataOption>,
        resolved: Option<CommandInteractionDataResolved>,
    ) -> Option<bool> {
        match data {
            Some(CommandDataOption::Boolean { value, .. }) => Some(value),
            _ => None,
        }
    }

    fn describe(name: String, description: String) -> (r: CommandOption) {
        CommandOption::Boolean(BaseCommandOptionData { name, description, required: true })
    }

    fn from_option(
        data: Option<CommandDataOption>,
        resolved: Option<&CommandInteractionDataResolved>,
    ) -> (r: Option<Self>) {
        match data {
            Some(CommandDataOption::Boolean { value, .. }) => Some(value),
            _ => None,
        }
    }
}

impl SlashCommandOption for User {
    open spec fn spec_describe(name: Seq<char>, description: Seq<char>) -> CommandOptionView {
        CommandOptionView {
            kind: CommandOptionKind::User,
            choices: Seq::empty(),
            name,
            description,
            required: true,
        }
    }

    open spec fn spec_from_option(
        data: Option<CommandDataOption>,
        resolved: Option<CommandInteractionDataResolved>,
    ) -> Option<User> {
        match data {
            Some(CommandDataOption::String { value, .. }) => match spec_parse_u64(value@) {
                Some(id) => match resolved {
                    Some(res) => spec_find_user(res.users@, id),
                    None => None,
                },
                None => None,
            },
            _ => None,
        }
    }

    fn describe(name: String, description: String) -> (r: CommandOption) {
        CommandOption::User(BaseCommandOptionData { name, description, required: true })
    }

    fn from_option(
        data: Option<CommandDataOption>,
        resolved: Option<&CommandInteractionDataResolved>,
    ) -> (r: Option<Self>) {
        match data {
            Some(CommandDataOption::String { value, .. }) => match parse_u64(value.as_str()) {
                Some(id) => match resolved {
                    Some(res) => find_user(&res.users, id),
                    None => None,
                },
                None => None,
            },
            _ => None,
        }
    }
}

impl SlashCommandOption for InteractionChannel {
    open spec fn spec_describe(name: Seq<char>, description: Seq<char>) -> CommandOptionView {
        CommandOptionView {
            kind: CommandOptionKind::Channel,
            choices: Seq::empty(),
            name,
            description,
            required: true,
        }
    }

    open spec fn spec_from_option(
        data: Option<CommandDataOption>,
        resolved: Option<CommandInteractionDataResolved>,
    ) -> Option<InteractionChannel> {
        match data {
            Some(CommandDataOption::String { value, .. }) => match spec_parse_u64(value@) {
                Some(id) => match resolved {
                    Some(res) => spec_find_channel(res.channels@, id),
                    None => None,
                },
                None => None,
            },
            _ => None,
        }
    }

    fn describe(name: String, description: String) -> (r: CommandOption) {
        CommandOption::Channel(BaseCommandOptionData { name, description, required: true })
    }

    fn from_option(
        data: Option<CommandDataOption>,
        resolved: Option<&CommandInteractionDataResolved>,
    ) -> (r: Option<Self>) {
        match data {
            Some(CommandDataOption::String { value, .. }) => match parse_u64(value.as_str()) {
                Some(id) => match resolved {
                    Some(res) => find_channel(&res.channels, id),
                    None => None,
                },
                None => None,
            },
            _ => None,
        }
    }
}

impl SlashCommandOption for Role {
    open spec fn spec_describe(name: Seq<char>, description: Seq<char>) -> CommandOptionView {
        CommandOptionView {
            kind: CommandOptionKind::Role,
            choices: Seq::empty(),
            name,
            description,
            required: true,
        }
    }

    open spec fn spec_from_option(
        data: Option<CommandDataOption>,
        resolved: Option<CommandInteractionDataResolved>,
    ) -> Option<Role> {
        match data {
            Some(CommandDataOption::String { value, .. }) => match spec_parse_u64(value@) {
                Some(id) => match resolved {
                    Some(res) => spec_find_role(res.roles@, id),
                    None => None,
                },
                None => None,
            },
            _ => None,
        }
    }

    fn describe(name: String, description: String) -> (r: CommandOption) {
        CommandOption::Role(BaseCommandOptionData { name, description, required: true })
    }

    fn from_option(
        data: Option<CommandDataOption>,
        resolved: Option<&CommandInteractionDataResolved>,
    ) -> (r: Option<Self>) {
        match data {
            Some(CommandDataOption::String { value, .. }) => match parse_u64(value.as_str()) {
                Some(id) => match resolved {
                    Some(res) => find_role(&res.roles, id),
                    None => None,
                },
                None => None,
            },
            _ => None,
        }
    }
}

impl SlashCommandOption for Mentionable {
    open spec fn spec_describe(name: Seq<char>, description: Seq<char>) -> CommandOptionView {
        CommandOptionView {
            kind: CommandOptionKind::Mentionable,
            choices: Seq::empty(),
            name,
            description,
            required: true,
        }
    }

    open spec fn spec_from_option(
        data: Option<CommandDataOption>,
        resolved: Option<CommandInteractionDataResolved>,
    ) -> Option<Mentionable> {
        match data {
            Some(CommandDataOption::String { value, .. }) => match spec_parse_u64(value@) {
                Some(id) => match resolved {
                    Some(res) => match spec_find_user(res.users@, id) {
                        Some(user) => Some(Mentionable::User(user)),
                        None => match spec_find_role(res.roles@, id) {
                            Some(role) => Some(Mentionable::Role(role)),
                            None => None,
                        },
                    },
                    None => None,
                },
                None => None,
            },
            _ => None,
        }
    }

    fn describe(name: String, description: String) -> (r: CommandOption) {
        CommandOption::Mentionable(BaseCommandOptionData { name, description, required: true })
    }

    fn from_option(
        data: Option<CommandDataOption>,
        resolved: Option<&CommandInteractionDataResolved>,
    ) -> (r: Option<Self>) {
        match data {
            Some(CommandDataOption::String { value, .. }) => match parse_u64(value.as_str()) {
                Some(id) => match resolved {
                    Some(res) => match find_user(&res.users, id) {
                        Some(user) => Some(Mentionable::User(user)),
                        None => match find_role(&res.roles, id) {
                            Some(role) => Some(Mentionable::Role(role)),
                            None => None,
                        },
                    },
                    None => None,
                },
                None => None,
            },
            _ => None,
        }
    }
}

impl<T: Choices> SlashCommandOption for T {
    open spec fn spec_describe(name: Seq<char>, description: Seq<char>) -> CommandOptionView {
        CommandOptionView {
            kind: CommandOptionKind::Integer,
            choices: T::spec_choices(),
            name,
            description,
            required: true,
        }
    }

    open spec fn spec_from_option(
        data: Option<CommandDataOption>,
        resolved: Option<CommandInteractionDataResolved>,
    ) -> Option<T> {
        match data {
            Some(CommandDataOption::Integer { value, .. }) => T::spec_from_discriminant(value),
            _ => None,
        }
    }

    fn describe(name: String, description: String) -> (r: CommandOption) {
        let pairs = T::choices();
        let mut choices: Vec<CommandOptionChoice> = Vec::new();
        let n: usize = pairs.len();
        let mut i: usize = 0;
        while i < n
            invariant
                0 <= i <= n,
                n == pairs@.len(),
                pairs@.map_values(|p: (String, i64)| (p.0@, p.1)) == T::spec_choices(),
                choices@.len() == i,
                forall|j: int|
                    0 <= j < i ==> (#[trigger] choices@[j].name@, choices@[j].value)
                        == T::spec_choices()[j],
            decreases n - i,
        {
            choices.push(
                CommandOptionChoice { name: pairs[i].0.clone(), value: pairs[i].1 },
            );
            i = i + 1;
        }
        proof {
            assert(spec_choices_view(choices@) =~= T::spec_choices());
        }
        CommandOption::Integer(ChoiceCommandOptionData { choices, name, description, required: true })
    }

    fn from_option(
        data: Option<CommandDataOption>,
        resolved: Option<&CommandInteractionDataResolved>,
    ) -> (r: Option<Self>) {
        match data {
            Some(CommandDataOption::Integer { value, .. }) => T::from_discriminant(value),
            _ => None,
        }
    }
}

impl<T: SlashCommandOption> SlashCommandOption for Option<T> {
    open spec fn spec_describe(name: Seq<char>, description: Seq<char>) -> CommandOptionView {
        T::spec_describe(name, description).with_required(false)
    }

    open spec fn spec_from_option(
        data: Option<CommandDataOption>,
        resolved: Option<CommandInteractionDataResolved>,
    ) -> Option<Option<T>> {
        match data {
            Some(d) => match T::spec_from_option(Some(d), resolved) {
                Some(v) => Some(Some(v)),
                None => None,
            },
            None => Some(None),
        }
    }

    fn describe(name: String, description: String) -> (r: CommandOption) {
        let option = T::describe(name, description);
        match option {
            CommandOption::String(d) => CommandOption::String(
                ChoiceCommandOptionData { required: false, ..d },
            ),
            CommandOption::Integer(d) => CommandOption::Integer(
                ChoiceCommandOptionData { required: false, ..d },
            ),
            CommandOption::Boolean(d) => CommandOption::Boolean(
                BaseCommandOptionData { required: false, ..d },
            ),
            CommandOption::User(d) => CommandOption::User(
                BaseCommandOptionData { required: false, ..d },
            ),
            CommandOption::Channel(d) => CommandOption::Channel(
                BaseCommandOptionData { required: false, ..d },
            ),
            CommandOption::Role(d) => CommandOption::Role(
                BaseCommandOptionData { required: false, ..d },
            ),
            CommandOption::Mentionable(d) => CommandOption::Mentionable(
                BaseCommandOptionData { required: false, ..d },
            ),
        }
    }

    fn from_option(
        data: Option<CommandDataOption>,
        resolved: Option<&CommandInteractionDataResolved>,
    ) -> (r: Option<Self>) {
        match data {
            Some(d) => match T::from_option(Some(d), resolved) {
                Some(v) => Some(Some(v)),
                None => None,
            },
            None => Some(None),
        }
    }
}

/// A type which can be used as the result of a slash command.
pub trait IntoCallbackData: Sized {
    /// The reply payload this value stands for.
    spec fn spec_callback_view(self) -> CallbackDataView;

    /// Turn this value into the reply payload it stands for.
    fn into_callback_data(self) -> (r: CallbackData)
        ensures
            r@ == self.spec_callback_view(),
    ;
}

impl IntoCallbackData for CallbackData {
    open spec fn spec_callback_view(self) -> CallbackDataView {
        self@
    }

    fn into_callback_data(self) -> (r: CallbackData) {
        self
    }
}

impl IntoCallbackData for String {
    open spec fn spec_callback_view(self) -> CallbackDataView {
        CallbackDataView {
            allowed_mentions: None,
            components: None,
            content: Some(self@),
            embeds: Seq::empty(),
            ephemeral: None,
            tts: None,
        }
    }

    fn into_callback_data(self) -> (r: CallbackData) {
        let r = CallbackData {
            allowed_mentions: None,
            components: None,
            content: Some(self),
            embeds: Vec::new(),
            ephemeral: None,
            tts: None,
        };
        proof {
            assert(r@ =~= CallbackDataView {
                allowed_mentions: None,
                components: None,
                content: Some(r.content->0@),
                embeds: Seq::empty(),
                ephemeral: None,
                tts: None,
            });
        }
        r
    }
}

/// A response to an interaction: either an immediate reply payload, or a
/// deferred one, where an acknowledgement goes out now and the content is
/// delivered later by the caller's pending computation.
#[derive(Debug, PartialEq)]
pub enum InteractionResponse {
    /// An immediate response carrying its payload.
    Immediate(CallbackData),
    /// A deferred response: the platform shows a loading state, ephemeral
    /// if asked for, until the caller updates the response.
    Deferred { ephemeral: bool },
}

/// The view of the loading-state payload of a deferred response.
pub open spec fn spec_deferred_loading_view(ephemeral: bool) -> CallbackDataView {
    CallbackDataView {
        allowed_mentions: None,
        components: None,
        content: None,
        embeds: Seq::empty(),
        ephemeral: Some(ephemeral),
        tts: None,
    }
}

impl InteractionResponse {
    /// The immediate response standing for `val`, whatever result type the
    /// command returned.
    pub fn immediate<T: IntoCallbackData>(val: T) -> (r: Self)
        ensures
            r matches InteractionResponse::Immediate(d) && d@ == val.spec_callback_view(),
    {
        InteractionResponse::Immediate(val.into_callback_data())
    }

    /// The wire answer for this response: an immediate payload is posted
    /// as a message, a deferred response becomes the loading
    /// acknowledgement carrying only its ephemeral flag.
    pub fn into_callback(self) -> (r: Callback)
        ensures
            match self {
                InteractionResponse::Immediate(d) => r == Callback::ChannelMessageWithSource(d),
                InteractionResponse::Deferred { ephemeral } => r matches Callback::DeferredChannelMessageWithSource(d)
                    && d@ == spec_deferred_loading_view(ephemeral),
            },
    {
        match self {
            InteractionResponse::Immediate(data) => Callback::ChannelMessageWithSource(data),
            InteractionResponse::Deferred { ephemeral } => {
                let mut data = empty_callback();
                data.ephemeral = Some(ephemeral);
                proof {
                    assert(data@ =~= spec_deferred_loading_view(ephemeral));
                }
                Callback::DeferredChannelMessageWithSource(data)
            },
        }
    }
}

/// The discriminant the platform stores for each variant of a choices
/// enumeration: the written value where one is given, otherwise one more
/// than the previous variant's value (wrapping around), starting at zero.
pub open spec fn spec_assign_discriminants(explicit: Seq<Option<i64>>) -> Seq<i64>
    decreases explicit.len(),
{
    if explicit.len() == 0 {
        Seq::empty()
    } else {
        let prev = spec_assign_discriminants(explicit.drop_last());
        prev.push(
            match explicit.last() {
                Some(v) => v,
                None => if prev.len() == 0 {
                    0
                } else {
                    spec_wrapping_inc(prev.last())
                },
            },
        )
    }
}

/// `v + 1`, wrapping around at the top of the 64-bit signed range.
pub open spec fn spec_wrapping_inc(v: i64) -> i64 {
    if v == i64::MAX {
        i64::MIN
    } else {
        (v + 1) as i64
    }
}

/// Assign a discriminant to each variant of a choices enumeration, given
/// which variants spell one out: explicit values are kept, every other
/// variant gets one more than its predecessor (wrapping), and the first
/// defaults to zero.
pub fn assign_discriminants(explicit: &Vec<Option<i64>>) -> (r: Vec<i64>)
    ensures
        r@ == spec_assign_discriminants(explicit@),
{
    let mut out: Vec<i64> = Vec::new();
    let mut next: i64 = 0;
    let n: usize = explicit.len();
    let mut i: usize = 0;
    while i < n
        invariant
            0 <= i <= n,
            n == explicit@.len(),
            out@ =~= spec_assign_discriminants(explicit@.take(i as int)),
            out@.len() == i,
            next == (if i == 0 {
                0
            } else {
                spec_wrapping_inc(out@.last())
            }),
        decreases n - i,
    {
        let value: i64 = match explicit[i] {
            Some(v) => v,
            None => next,
        };
        out.push(value);
        next = if value == i64::MAX {
            i64::MIN
        } else {
            value + 1
        };
        proof {
            assert(explicit@.take(i + 1).drop_last() =~= explicit@.take(i as int));
            assert(explicit@.take(i + 1).last() == explicit@[i as int]);
        }
        i = i + 1;
    }
    proof {
        assert(explicit@.take(n as int) =~= explicit@);
    }
    out
}

/// The index of the first choice whose discriminant is `discriminant`:
/// the variant a derived decoder finds for a stored value.
pub open spec fn spec_find_choice(values: Seq<i64>, discriminant: i64) -> Option<int>
    decreases values.len(),
{
    if values.len() == 0 {
        None
    } else if values.first() == discriminant {
        Some(0int)
    } else {
        match spec_find_choice(values.drop_first(), discriminant) {
            Some(j) => Some(j + 1),
            None => None,
        }
    }
}

/// Find the first choice carrying the given discriminant.
pub fn find_choice(values: &Vec<i64>, discriminant: i64) -> (r: Option<usize>)
    ensures
        match r {
            Some(j) => spec_find_choice(values@, discriminant) == Some(j as int),
            None => spec_find_choice(values@, discriminant) is None,
        },
{
    let n: usize = values.len();
    let mut i: usize = 0;
    while i < n
        invariant
            0 <= i <= n,
            n == values@.len(),
            forall|j: int| 0 <= j < i ==> values@[j] != discriminant,
        decreases n - i,
    {
        if values[i] == discriminant {
            proof {
                lemma_find_choice_at(values@, discriminant, i as int);
            }
            return Some(i);
        }
        i = i + 1;
    }
    proof {
        lemma_find_choice_none(values@, discriminant);
    }
    None
}

proof fn lemma_find_choice_at(values: Seq<i64>, discriminant: i64, i: int)
    requires
        0 <= i < values.len(),
        values[i] == discriminant,
        forall|j: int| 0 <= j < i ==> values[j] != discriminant,
    ensures
        spec_find_choice(values, discriminant) == Some(i),
    decreases values.len(),
{
    if i == 0 {
    } else {
        lemma_find_choice_at(values.drop_first(), discriminant, i - 1);
    }
}

proof fn lemma_find_choice_none(values: Seq<i64>, discriminant: i64)
    requires
        forall|j: int| 0 <= j < values.len() ==> values[j] != discriminant,
    ensures
        spec_find_choice(values, discriminant) is None,
    decreases values.len(),
{
    if values.len() > 0 {
        lemma_find_choice_none(values.drop_first(), discriminant);
    }
}

} // verus!
