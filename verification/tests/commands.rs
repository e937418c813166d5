use cookie_core::commands::{
    action_outcome, fetch_command, CommandAction, CommandConfig, CommandDefinition, CommandLibrary,
    ExecError,
};

fn library_with_keywords(entries: &[(&str, &[&str])]) -> CommandLibrary {
    let mut commands = Vec::new();
    for (id, keywords) in entries {
        commands.push(CommandDefinition {
            id: id.to_string(),
            name: id.to_string(),
            description: None,
            icon: None,
            keywords: keywords.iter().map(|k| k.to_string()).collect(),
            action: CommandAction::RespondText {
                text: String::new(),
            },
        });
    }
    CommandLibrary { commands }
}

#[test]
fn test_find_by_text() {
    let library = CommandLibrary::default_library();
    let command = library.find_by_text("привет, ассистент");
    assert!(command.is_some());
    assert_eq!(command.unwrap().id, "greeting");
}

#[test]
fn test_find_by_text_declared_order_wins() {
    let library = library_with_keywords(&[("first", &["привет"]), ("second", &["время"])]);
    let command = library.find_by_text("привет, время");
    assert_eq!(command.unwrap().id, "first");

    let swapped = library_with_keywords(&[("first", &["время"]), ("second", &["привет"])]);
    let command = swapped.find_by_text("привет, время");
    assert_eq!(command.unwrap().id, "first");
}

#[test]
fn test_find_by_text_lowercases_input() {
    let library = CommandLibrary::default_library();
    let command = library.find_by_text("ПРИВЕТ, АССИСТЕНТ");
    assert_eq!(command.unwrap().id, "greeting");
}

#[test]
fn test_find_by_text_lowercases_keywords() {
    let library = library_with_keywords(&[("shout", &["ПРИВЕТ"])]);
    let command = library.find_by_text("ну привет");
    assert_eq!(command.unwrap().id, "shout");
}

#[test]
fn test_find_by_text_no_match() {
    let library = CommandLibrary::default_library();
    assert!(library.find_by_text("ничего подходящего").is_none());
}

#[test]
fn test_find_index_by_text() {
    let library = CommandLibrary::default_library();
    assert_eq!(library.find_index_by_text("который час?"), Some(1));
    assert_eq!(library.find_index_by_text("тишина"), None);
}

#[test]
fn test_load_or_default_uses_parsed_library() {
    let parsed = library_with_keywords(&[("only", &["слово"])]);
    let library = CommandLibrary::load_or_default(Some(parsed));
    assert_eq!(library.commands.len(), 1);
    assert_eq!(library.commands[0].id, "only");
}

#[test]
fn test_load_or_default_falls_back() {
    let library = CommandLibrary::load_or_default(None);
    assert_eq!(library.commands.len(), 2);
    assert_eq!(library.commands[0].id, "greeting");
    assert_eq!(library.commands[1].id, "time");
}

#[test]
fn test_action_outcome_run_process() {
    let action = CommandAction::RunProcess {
        command: "cmd".to_string(),
        args: vec![],
        working_dir: None,
    };
    assert_eq!(action_outcome(&action, true), Ok(()));
    assert_eq!(action_outcome(&action, false), Err(ExecError::SpawnFailed));
}

#[test]
fn test_action_outcome_collaborator_actions_succeed() {
    let play = CommandAction::PlayAudio {
        file: "chime.wav".to_string(),
    };
    let respond = CommandAction::RespondText {
        text: "готово".to_string(),
    };
    assert_eq!(action_outcome(&play, false), Ok(()));
    assert_eq!(action_outcome(&respond, false), Ok(()));
}

#[test]
fn test_fetch_command_finds_nothing() {
    let commands = vec![CommandConfig {
        name: "noop".to_string(),
    }];
    assert!(fetch_command("любой текст", &commands).is_none());
}
