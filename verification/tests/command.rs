use twilight_interaction::command::{
    BaseCommandOptionData, ChoiceCommandOptionData, Command, CommandDecl, CommandKind,
    CommandOption, CommandType,
};
use twilight_interaction::handler::invalid_option_reply;
use twilight_interaction::interaction::User;
use twilight_interaction::option_types::SlashCommandOption;

fn word_option() -> CommandOption {
    CommandOption::String(ChoiceCommandOptionData {
        choices: Vec::new(),
        name: "word".to_string(),
        description: "a word".to_string(),
        required: true,
    })
}

#[test]
fn slash_description_carries_options() {
    let decl = CommandDecl::Slash {
        description: "repeats a word".to_string(),
        options: vec![word_option()],
    };
    let command = decl.description("echo".to_string());
    assert_eq!(
        command,
        Command {
            name: "echo".to_string(),
            description: "repeats a word".to_string(),
            options: vec![word_option()],
            kind: CommandType::ChatInput,
        }
    );
    // The declaration is only read, so it can describe itself again.
    assert_eq!(decl.description("echo".to_string()), command);
}

#[test]
fn message_and_user_descriptions_are_bare() {
    let message = CommandDecl::Message.description("pin".to_string());
    assert_eq!(message.description, "");
    assert!(message.options.is_empty());
    assert_eq!(message.kind, CommandType::Message);
    let user = CommandDecl::User.description("wave".to_string());
    assert_eq!(user.kind, CommandType::User);
}

#[test]
fn declaration_kinds() {
    let slash = CommandDecl::Slash { description: "d".to_string(), options: Vec::new() };
    assert_eq!(slash.kind(), CommandKind::Slash);
    assert_eq!(CommandDecl::Message.kind(), CommandKind::Message);
    assert_eq!(CommandDecl::User.kind(), CommandKind::User);
}

#[test]
fn user_describe_is_a_user_option() {
    let opt = <User as SlashCommandOption>::describe("who".to_string(), "a user".to_string());
    assert_eq!(
        opt,
        CommandOption::User(BaseCommandOptionData {
            name: "who".to_string(),
            description: "a user".to_string(),
            required: true,
        })
    );
}

#[test]
fn optional_user_describe_flips_required_only() {
    let opt = <Option<User> as SlashCommandOption>::describe(
        "who".to_string(),
        "maybe a user".to_string(),
    );
    assert_eq!(
        opt,
        CommandOption::User(BaseCommandOptionData {
            name: "who".to_string(),
            description: "maybe a user".to_string(),
            required: false,
        })
    );
}

#[test]
fn invalid_option_reply_names_the_option() {
    let reply = invalid_option_reply("count");
    assert_eq!(reply.content, Some("Invalid option 'count'".to_string()));
    assert_eq!(reply.ephemeral, Some(true));
}
