use ifunny_basic::cli::{announce, choose_length, BasicCommand, Cli, Commands, Runnable};
use ifunny_basic::{BasicToken, BasicTokenLength};

fn new_command(length: usize) -> BasicCommand {
    BasicCommand::New {
        length,
        id: BasicToken::CLIENT_ID.to_string(),
        secret: BasicToken::CLIENT_SECRET.to_string(),
    }
}

fn token_of(line: &str) -> &str {
    assert!(line.starts_with("Basic token: "));
    &line["Basic token: ".len()..]
}

#[test]
fn new_command_announces_a_short_token() {
    let line = new_command(112).run();
    assert_eq!(token_of(&line).len(), 112);
}

#[test]
fn new_command_announces_a_long_token() {
    let line = new_command(156).run();
    assert_eq!(token_of(&line).len(), 156);
}

#[test]
fn new_command_falls_back_to_the_default_length() {
    for length in [0usize, 1, 111, 113, 155, 157, 1000] {
        let line = new_command(length).run();
        assert_eq!(token_of(&line).len(), 112);
    }
}

#[test]
fn command_line_runs_its_command() {
    let cli = Cli { command: Commands::Basic(new_command(156)) };
    let line = cli.run();
    let token = token_of(&line);
    assert_eq!(token.len(), 156);

    let plain = String::from_utf8(easy_base64::decode(token.as_bytes())).unwrap();
    assert_eq!(&plain[64..76], "_MsOIJ39Q28:");
}

#[test]
fn new_command_uses_the_id_and_secret_it_was_given() {
    let command = BasicCommand::New {
        length: 112,
        id: "client_id".to_string(),
        secret: "client_secret".to_string(),
    };
    let line = command.run();
    let token = token_of(&line);
    let plain = String::from_utf8(easy_base64::decode(token.as_bytes())).unwrap();
    assert_eq!(&plain[32..43], "_client_id:");

    let seed = plain[..32].to_lowercase();
    let again = BasicToken::from_seed(
        &seed,
        "client_id",
        "client_secret",
        BasicTokenLength::Basic112,
    );
    assert_eq!(again.to_string(), token);
}

#[test]
fn commands_can_be_printed_for_debugging() {
    let cli = Cli { command: Commands::Basic(new_command(112)) };
    let text = format!("{:?}", cli);
    assert!(text.contains("New"));
    assert!(text.contains("MsOIJ39Q28"));
}

#[test]
fn length_is_chosen_by_its_nominal_size() {
    assert_eq!(choose_length(112), BasicTokenLength::Basic112);
    assert_eq!(choose_length(156), BasicTokenLength::Basic156);
    for length in [0usize, 1, 111, 113, 155, 157, 1120, usize::MAX] {
        assert_eq!(choose_length(length), BasicToken::DEFAULT_LENGTH);
    }
}

#[test]
fn token_is_announced_on_one_line() {
    let line = announce(&BasicToken::from("Yinkies"));
    assert_eq!(line, "Basic token: Yinkies");
    let line = announce(&BasicToken::from(""));
    assert_eq!(line, "Basic token: ");
}
