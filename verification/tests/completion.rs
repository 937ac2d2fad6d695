use goose_tui::completion::{slash_completions, AgentCommand, CommandCatalog};

fn catalog() -> CommandCatalog {
    CommandCatalog {
        agent_commands: vec![
            AgentCommand { name: "prompts".to_string(), description: "list prompts".to_string() },
            AgentCommand { name: "prompt".to_string(), description: "run a prompt".to_string() },
            AgentCommand { name: "compact".to_string(), description: "compact history".to_string() },
            AgentCommand { name: "clear".to_string(), description: "clear history".to_string() },
        ],
        recipes: vec!["review".to_string(), "/deploy".to_string(), "clear".to_string()],
    }
}

fn commands(input: &str) -> Vec<String> {
    slash_completions(input, &catalog()).into_iter().map(|c| c.0).collect()
}

#[test]
fn a_slash_lists_everything_in_order() {
    assert_eq!(
        commands("/"),
        vec![
            "/clear", "/clear", "/compact", "/deploy", "/exit", "/ext", "/model", "/prompt",
            "/prompts", "/review",
        ]
    );
}

#[test]
fn only_commands_that_begin_with_the_input_are_listed() {
    assert_eq!(commands("/ex"), vec!["/exit", "/ext"]);
    assert_eq!(commands("/prompt"), vec!["/prompt", "/prompts"]);
    assert_eq!(commands("/prompts"), vec!["/prompts"]);
    assert_eq!(commands("/nothing"), Vec::<String>::new());
}

#[test]
fn typing_on_narrows_the_completions() {
    let all = slash_completions("/", &catalog());
    for word in ["/c", "/cl", "/clear", "/ex", "/prompt", "/zzz"] {
        let expected: Vec<(String, String)> =
            all.iter().filter(|c| c.0.starts_with(word)).cloned().collect();
        assert_eq!(slash_completions(word, &catalog()), expected);
    }
}

#[test]
fn white_space_around_the_input_does_not_matter() {
    assert_eq!(commands("  /ex\t\n"), vec!["/exit", "/ext"]);
    assert_eq!(commands("\u{3000}/ex\u{a0}"), vec!["/exit", "/ext"]);
}

#[test]
fn other_input_has_no_completions() {
    assert_eq!(commands(""), Vec::<String>::new());
    assert_eq!(commands("   "), Vec::<String>::new());
    assert_eq!(commands("ext"), Vec::<String>::new());
    assert_eq!(commands("/prompt x"), Vec::<String>::new());
}

#[test]
fn completions_carry_their_descriptions() {
    assert_eq!(
        slash_completions("/ex", &catalog()),
        vec![
            ("/exit".to_string(), "exit goose".to_string()),
            ("/ext".to_string(), "list and toggle extensions".to_string()),
        ]
    );
    assert_eq!(
        slash_completions("/m", &catalog()),
        vec![("/model".to_string(), "switch model".to_string())]
    );
}

#[test]
fn a_recipe_gets_its_slash_where_it_has_none() {
    assert_eq!(
        slash_completions("/re", &catalog()),
        vec![("/review".to_string(), "recipe".to_string())]
    );
    assert_eq!(
        slash_completions("/de", &catalog()),
        vec![("/deploy".to_string(), "recipe".to_string())]
    );
}

#[test]
fn equal_commands_keep_their_order() {
    assert_eq!(
        slash_completions("/cl", &catalog()),
        vec![
            ("/clear".to_string(), "clear history".to_string()),
            ("/clear".to_string(), "recipe".to_string()),
        ]
    );
}
