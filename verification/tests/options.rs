use twilight_interaction::command::{
    BaseCommandOptionData, ChoiceCommandOptionData, CommandOption, CommandOptionChoice,
};
use twilight_interaction::interaction::{
    CommandDataOption, CommandInteractionDataResolved, InteractionChannel, Role, User,
};
use twilight_interaction::option_types::{
    assign_discriminants, find_choice, Choices, Mentionable, SlashCommandOption,
};

fn resolved(users: Vec<User>, roles: Vec<Role>, channels: Vec<InteractionChannel>)
    -> CommandInteractionDataResolved {
    CommandInteractionDataResolved { channels, messages: Vec::new(), roles, users }
}

fn str_opt(name: &str, value: &str) -> CommandDataOption {
    CommandDataOption::String { name: name.to_string(), value: value.to_string() }
}

#[test]
fn string_describe() {
    let opt = <String as SlashCommandOption>::describe("word".to_string(), "a word".to_string());
    assert_eq!(
        opt,
        CommandOption::String(ChoiceCommandOptionData {
            choices: Vec::new(),
            name: "word".to_string(),
            description: "a word".to_string(),
            required: true,
        })
    );
}

#[test]
fn string_from_option() {
    let got = <String as SlashCommandOption>::from_option(Some(str_opt("word", "hi")), None);
    assert_eq!(got, Some("hi".to_string()));
    let wrong_kind = CommandDataOption::Integer { name: "word".to_string(), value: 3 };
    assert_eq!(<String as SlashCommandOption>::from_option(Some(wrong_kind), None), None);
    assert_eq!(<String as SlashCommandOption>::from_option(None, None), None);
}

#[test]
fn integer_and_boolean_from_option() {
    let int = CommandDataOption::Integer { name: "n".to_string(), value: -4 };
    assert_eq!(<i64 as SlashCommandOption>::from_option(Some(int), None), Some(-4));
    let boolean = CommandDataOption::Boolean { name: "b".to_string(), value: true };
    assert_eq!(<bool as SlashCommandOption>::from_option(Some(boolean), None), Some(true));
    assert_eq!(<bool as SlashCommandOption>::from_option(Some(str_opt("b", "x")), None), None);
}

#[test]
fn boolean_describe_is_base() {
    let opt = <bool as SlashCommandOption>::describe("flag".to_string(), "a flag".to_string());
    assert_eq!(
        opt,
        CommandOption::Boolean(BaseCommandOptionData {
            name: "flag".to_string(),
            description: "a flag".to_string(),
            required: true,
        })
    );
}

#[test]
fn user_from_option_finds_by_id() {
    let res = resolved(
        vec![
            User { id: 7, name: "ana".to_string() },
            User { id: 9, name: "bo".to_string() },
        ],
        Vec::new(),
        Vec::new(),
    );
    let got = <User as SlashCommandOption>::from_option(Some(str_opt("who", "9")), Some(&res));
    assert_eq!(got, Some(User { id: 9, name: "bo".to_string() }));
    let missing = <User as SlashCommandOption>::from_option(Some(str_opt("who", "8")), Some(&res));
    assert_eq!(missing, None);
    let bad_id = <User as SlashCommandOption>::from_option(Some(str_opt("who", "9x")), Some(&res));
    assert_eq!(bad_id, None);
    let no_resolved = <User as SlashCommandOption>::from_option(Some(str_opt("who", "9")), None);
    assert_eq!(no_resolved, None);
}

#[test]
fn role_and_channel_from_option() {
    let res = resolved(
        Vec::new(),
        vec![Role { id: 3, name: "mods".to_string() }],
        vec![InteractionChannel { id: 4, name: "general".to_string() }],
    );
    assert_eq!(
        <Role as SlashCommandOption>::from_option(Some(str_opt("r", "3")), Some(&res)),
        Some(Role { id: 3, name: "mods".to_string() })
    );
    assert_eq!(
        <InteractionChannel as SlashCommandOption>::from_option(
            Some(str_opt("c", "4")),
            Some(&res)
        ),
        Some(InteractionChannel { id: 4, name: "general".to_string() })
    );
}

#[test]
fn mentionable_prefers_user_over_role() {
    let res = resolved(
        vec![User { id: 5, name: "eve".to_string() }],
        vec![Role { id: 5, name: "five".to_string() }, Role { id: 6, name: "six".to_string() }],
        Vec::new(),
    );
    assert_eq!(
        <Mentionable as SlashCommandOption>::from_option(Some(str_opt("m", "5")), Some(&res)),
        Some(Mentionable::User(User { id: 5, name: "eve".to_string() }))
    );
    assert_eq!(
        <Mentionable as SlashCommandOption>::from_option(Some(str_opt("m", "6")), Some(&res)),
        Some(Mentionable::Role(Role { id: 6, name: "six".to_string() }))
    );
    assert_eq!(
        <Mentionable as SlashCommandOption>::from_option(Some(str_opt("m", "7")), Some(&res)),
        None
    );
}

#[test]
fn optional_describe_is_not_required() {
    let opt = <Option<String> as SlashCommandOption>::describe(
        "word".to_string(),
        "maybe".to_string(),
    );
    assert_eq!(
        opt,
        CommandOption::String(ChoiceCommandOptionData {
            choices: Vec::new(),
            name: "word".to_string(),
            description: "maybe".to_string(),
            required: false,
        })
    );
}

#[test]
fn optional_from_option() {
    assert_eq!(
        <Option<String> as SlashCommandOption>::from_option(None, None),
        Some(None)
    );
    assert_eq!(
        <Option<String> as SlashCommandOption>::from_option(Some(str_opt("w", "hi")), None),
        Some(Some("hi".to_string()))
    );
    let wrong = CommandDataOption::Integer { name: "w".to_string(), value: 3 };
    assert_eq!(<Option<String> as SlashCommandOption>::from_option(Some(wrong), None), None);
}

#[derive(Debug, PartialEq)]
enum Fruit {
    Apple,
    Pear,
    Quince,
}

impl Choices for Fruit {
    // The spec members exist only for verification; they are never run.
    fn spec_choices() -> vstd::seq::Seq<(vstd::seq::Seq<char>, i64)> {
        unreachable!()
    }

    fn spec_from_discriminant(_discriminant: i64) -> Option<Self> {
        unreachable!()
    }

    fn choices() -> Vec<(String, i64)> {
        vec![
            ("Apple".to_string(), 0),
            ("Pear".to_string(), 1),
            ("a quince!".to_string(), 2),
        ]
    }

    fn from_discriminant(discriminant: i64) -> Option<Self> {
        match discriminant {
            0 => Some(Fruit::Apple),
            1 => Some(Fruit::Pear),
            2 => Some(Fruit::Quince),
            _ => None,
        }
    }
}

#[test]
fn choices_describe_lists_variants() {
    let opt = <Fruit as SlashCommandOption>::describe("fruit".to_string(), "pick".to_string());
    assert_eq!(
        opt,
        CommandOption::Integer(ChoiceCommandOptionData {
            choices: vec![
                CommandOptionChoice { name: "Apple".to_string(), value: 0 },
                CommandOptionChoice { name: "Pear".to_string(), value: 1 },
                CommandOptionChoice { name: "a quince!".to_string(), value: 2 },
            ],
            name: "fruit".to_string(),
            description: "pick".to_string(),
            required: true,
        })
    );
}

#[test]
fn choices_from_option_decodes_discriminant() {
    let int = CommandDataOption::Integer { name: "fruit".to_string(), value: 1 };
    assert_eq!(<Fruit as SlashCommandOption>::from_option(Some(int), None), Some(Fruit::Pear));
    let out = CommandDataOption::Integer { name: "fruit".to_string(), value: 9 };
    assert_eq!(<Fruit as SlashCommandOption>::from_option(Some(out), None), None);
    assert_eq!(<Fruit as SlashCommandOption>::from_option(Some(str_opt("f", "1")), None), None);
}

#[test]
fn discriminants_count_up_from_zero() {
    assert_eq!(assign_discriminants(&vec![None, None, None]), vec![0, 1, 2]);
}

#[test]
fn discriminants_resume_after_explicit_value() {
    assert_eq!(
        assign_discriminants(&vec![None, Some(10), None, Some(-3), None]),
        vec![0, 10, 11, -3, -2]
    );
}

#[test]
fn discriminants_wrap_at_the_top() {
    assert_eq!(
        assign_discriminants(&vec![Some(i64::MAX), None]),
        vec![i64::MAX, i64::MIN]
    );
}

#[test]
fn find_choice_takes_first_match() {
    assert_eq!(find_choice(&vec![4, 7, 7, 2], 7), Some(1));
    assert_eq!(find_choice(&vec![4, 7], 9), None);
    assert_eq!(find_choice(&Vec::new(), 0), None);
}
