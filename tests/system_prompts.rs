use system_prompts::{ConfigError, SystemPrompt, SystemPromptManager};

fn seeded_manager() -> SystemPromptManager {
    let mut manager = SystemPromptManager::new();
    manager.initialize("General body".to_string(), "GPT body".to_string());
    manager
}

#[test]
fn test_create_and_get_prompt() {
    let mut manager = SystemPromptManager::new();

    let prompt = SystemPrompt::new("Test Prompt".to_string(), "Test content".to_string());
    let created = manager.create_prompt(prompt.clone());

    assert_eq!(created.name, "Test Prompt");
    assert_eq!(created.content, "Test content");

    let retrieved = manager.get_prompt(&created.id).unwrap();
    assert_eq!(retrieved.name, created.name);
    assert_eq!(retrieved.content, created.content);
}

#[test]
fn test_default_prompt_management() {
    let mut manager = seeded_manager();

    let prompt1 =
        SystemPrompt::new("Prompt 1".to_string(), "Content 1".to_string()).set_as_default();
    let prompt2 = SystemPrompt::new("Prompt 2".to_string(), "Content 2".to_string());

    manager.create_prompt(prompt1);
    let created2 = manager.create_prompt(prompt2);

    let default = manager.get_default_prompt().unwrap();
    assert_eq!(default.name, "Prompt 1");

    manager.set_default_prompt(&created2.id).unwrap();
    let new_default = manager.get_default_prompt().unwrap();
    assert_eq!(new_default.name, "Prompt 2");
}

#[test]
fn test_model_specific_prompts() {
    let mut manager = seeded_manager();

    let gpt4_prompt = SystemPrompt::new("GPT-4".to_string(), "GPT-4 content".to_string())
        .with_model_specific("gpt-4".to_string());
    let llama_prompt = SystemPrompt::new("Llama".to_string(), "Llama content".to_string())
        .with_model_specific("llama-3".to_string());

    manager.create_prompt(gpt4_prompt);
    manager.create_prompt(llama_prompt);

    let gpt4_result = manager.get_prompt_for_model("gpt-4o").unwrap();
    assert_eq!(gpt4_result.name, "GPT-4");

    let llama_result = manager.get_prompt_for_model("llama-3.1-70b").unwrap();
    assert_eq!(llama_result.name, "Llama");
}

fn defaults(manager: &SystemPromptManager) -> usize {
    manager.list_prompts().iter().filter(|p| p.is_default).count()
}

#[test]
fn initialize_seeds_two_prompts() {
    let manager = seeded_manager();
    let all = manager.list_prompts();
    assert_eq!(all.len(), 2);
    assert_eq!(all[0].name, "Default");
    assert!(all[0].is_default);
    assert_eq!(all[0].tags, vec!["default".to_string()]);
    assert_eq!(all[0].content, "General body");
    assert_eq!(all[1].name, "GPT-4.1 Optimized");
    assert_eq!(all[1].model_specific, Some("gpt-4.1".to_string()));
    assert_eq!(all[1].tags, vec!["gpt-4".to_string(), "optimized".to_string()]);
    assert!(!all[1].is_default);
    assert!(manager.has_file());
}

#[test]
fn initialize_twice_keeps_two_prompts() {
    let mut manager = seeded_manager();
    let before = manager.load_prompts();
    manager.initialize("other".to_string(), "other".to_string());
    let after = manager.load_prompts();
    assert_eq!(after.len(), 2);
    for (a, b) in before.iter().zip(after.iter()) {
        assert_eq!(a.0, b.0);
        assert_eq!(a.1.content, b.1.content);
    }
}

#[test]
fn initialize_leaves_existing_file_alone() {
    let mut manager = SystemPromptManager::new();
    manager.create_prompt(SystemPrompt::new("Mine".to_string(), "x".to_string()));
    manager.initialize("a".to_string(), "b".to_string());
    assert_eq!(manager.list_prompts().len(), 1);
}

#[test]
fn new_store_is_empty() {
    let manager = SystemPromptManager::new();
    assert!(!manager.has_file());
    assert!(manager.load_prompts().is_empty());
    assert!(manager.get_default_prompt().is_none());
    assert!(manager.get_prompt_for_model("gpt-4").is_none());
}

#[test]
fn default_stays_unique_across_calls() {
    let mut manager = seeded_manager();
    assert_eq!(defaults(&manager), 1);
    let a = manager.create_prompt(SystemPrompt::new("A".to_string(), "a".to_string()).set_as_default());
    assert_eq!(defaults(&manager), 1);
    let b = manager.create_prompt(SystemPrompt::new("B".to_string(), "b".to_string()));
    assert_eq!(defaults(&manager), 1);
    let b2 = b.clone().set_as_default();
    manager.update_prompt(&b.id, b2).unwrap();
    assert_eq!(defaults(&manager), 1);
    assert_eq!(manager.get_default_prompt().unwrap().id, b.id);
    manager.set_default_prompt(&a.id).unwrap();
    assert_eq!(defaults(&manager), 1);
    assert_eq!(manager.get_default_prompt().unwrap().id, a.id);
}

#[test]
fn delete_default_is_refused() {
    let mut manager = seeded_manager();
    let default = manager.get_default_prompt().unwrap();
    let before = manager.load_prompts();
    match manager.delete_prompt(&default.id) {
        Err(ConfigError::DeserializeError(m)) => assert_eq!(
            m,
            "Cannot delete the default system prompt. Set another prompt as default first."
        ),
        _ => panic!("expected the default-deletion error"),
    }
    let after = manager.load_prompts();
    assert_eq!(before.len(), after.len());
    assert_eq!(manager.get_default_prompt().unwrap().id, default.id);
}

#[test]
fn delete_missing_is_not_found() {
    let mut manager = seeded_manager();
    match manager.delete_prompt("nope") {
        Err(ConfigError::NotFound(m)) => assert_eq!(m, "System prompt with ID nope not found"),
        _ => panic!("expected NotFound"),
    }
    assert_eq!(manager.list_prompts().len(), 2);
}

#[test]
fn delete_removes_entry() {
    let mut manager = seeded_manager();
    let p = manager.create_prompt(SystemPrompt::new("Gone".to_string(), "x".to_string()));
    manager.delete_prompt(&p.id).unwrap();
    assert!(manager.get_prompt(&p.id).is_none());
    assert_eq!(manager.list_prompts().len(), 2);
}

#[test]
fn update_missing_is_not_found_and_unchanged() {
    let mut manager = seeded_manager();
    let before = manager.load_prompts();
    let p = SystemPrompt::new("X".to_string(), "y".to_string());
    match manager.update_prompt("nonexistent-id", p) {
        Err(ConfigError::NotFound(m)) => {
            assert_eq!(m, "System prompt with ID nonexistent-id not found")
        }
        _ => panic!("expected NotFound"),
    }
    let after = manager.load_prompts();
    assert_eq!(before.len(), after.len());
    for (a, b) in before.iter().zip(after.iter()) {
        assert_eq!(a.0, b.0);
        assert_eq!(a.1.name, b.1.name);
        assert_eq!(a.1.is_default, b.1.is_default);
    }
}

#[test]
fn update_replaces_whole_entry() {
    let mut manager = seeded_manager();
    let p = manager.create_prompt(SystemPrompt::new("Old".to_string(), "old".to_string()));
    let replacement = SystemPrompt::new("New".to_string(), "new".to_string());
    let stored = manager.update_prompt(&p.id, replacement).unwrap();
    assert_eq!(stored.name, "New");
    let got = manager.get_prompt(&p.id).unwrap();
    assert_eq!(got.name, "New");
    assert_eq!(got.content, "new");
    assert_eq!(manager.list_prompts().len(), 3);
}

#[test]
fn set_default_missing_is_not_found() {
    let mut manager = seeded_manager();
    assert!(matches!(manager.set_default_prompt("missing"), Err(ConfigError::NotFound(_))));
    assert_eq!(manager.get_default_prompt().unwrap().name, "Default");
}

#[test]
fn default_transfer_scenario() {
    let mut manager = SystemPromptManager::new();
    let a = manager.create_prompt(SystemPrompt::new("A".to_string(), "a".to_string()).set_as_default());
    let b = manager.create_prompt(SystemPrompt::new("B".to_string(), "b".to_string()));
    assert_eq!(manager.get_default_prompt().unwrap().id, a.id);
    manager.set_default_prompt(&b.id).unwrap();
    assert_eq!(manager.get_default_prompt().unwrap().id, b.id);
    assert!(manager.delete_prompt(&a.id).is_ok());
    assert!(matches!(manager.delete_prompt(&b.id), Err(ConfigError::DeserializeError(_))));
}

#[test]
fn model_lookup_precedence() {
    let mut manager = seeded_manager();
    manager.create_prompt(
        SystemPrompt::new("GPT-4".to_string(), "g".to_string()).with_model_specific("gpt-4".to_string()),
    );
    manager.create_prompt(
        SystemPrompt::new("Llama".to_string(), "c".to_string())
            .with_model_specific("llama-3".to_string()),
    );
    assert_eq!(manager.get_prompt_for_model("gpt-4o").unwrap().name, "GPT-4");
    assert_eq!(manager.get_prompt_for_model("unknown-model").unwrap().name, "Default");
    // an exact match wins over an earlier partial one
    assert_eq!(manager.get_prompt_for_model("gpt-4").unwrap().name, "GPT-4");
    assert_eq!(manager.get_prompt_for_model("gpt-4.1").unwrap().name, "GPT-4.1 Optimized");
    // the query may also be part of the stored model
    assert_eq!(manager.get_prompt_for_model("llama").unwrap().name, "Llama");
}

#[test]
fn tag_search() {
    let mut manager = SystemPromptManager::new();
    manager.create_prompt(
        SystemPrompt::new("One".to_string(), "1".to_string())
            .with_tags(vec!["x".to_string(), "y".to_string()]),
    );
    manager.create_prompt(
        SystemPrompt::new("Two".to_string(), "2".to_string()).with_tags(vec!["y".to_string()]),
    );
    manager.create_prompt(
        SystemPrompt::new("Three".to_string(), "3".to_string())
            .with_tags(vec!["z".to_string(), "x".to_string(), "x".to_string()]),
    );
    assert!(manager.search_by_tags(&[]).is_empty());
    let xs: Vec<String> = manager
        .search_by_tags(&["x".to_string()])
        .into_iter()
        .map(|p| p.name)
        .collect();
    assert_eq!(xs, vec!["One".to_string(), "Three".to_string()]);
    let any = manager.search_by_tags(&["y".to_string(), "z".to_string()]);
    assert_eq!(any.len(), 3);
    assert!(manager.search_by_tags(&["w".to_string()]).is_empty());
}

#[test]
fn list_is_sorted_by_name() {
    let mut manager = SystemPromptManager::new();
    for name in ["delta", "Alpha", "charlie", "bravo", "alpha"] {
        manager.create_prompt(SystemPrompt::new(name.to_string(), "c".to_string()));
    }
    let names: Vec<String> = manager.list_prompts().into_iter().map(|p| p.name).collect();
    assert_eq!(names, vec!["Alpha", "alpha", "bravo", "charlie", "delta"]);
}

#[test]
fn lookup_by_name_and_identifier() {
    let mut manager = seeded_manager();
    let p = manager.create_prompt(SystemPrompt::new("Named".to_string(), "n".to_string()));
    assert_eq!(manager.get_prompt_by_name("Named").unwrap().id, p.id);
    assert!(manager.get_prompt_by_name("named").is_none());
    assert_eq!(manager.find_prompt(&p.id).unwrap().name, "Named");
    assert_eq!(manager.find_prompt("Named").unwrap().id, p.id);
    assert!(manager.find_prompt("absent").is_none());
}

#[test]
fn stored_entries_round_trip() {
    let mut manager = seeded_manager();
    let p = manager.create_prompt(
        SystemPrompt::new("Kept".to_string(), "body".to_string())
            .with_description("d".to_string())
            .with_tags(vec!["t".to_string()]),
    );
    let reloaded = SystemPromptManager::from_stored(manager.load_prompts()).unwrap();
    let got = reloaded.get_prompt(&p.id).unwrap();
    assert_eq!(got.id, p.id);
    assert_eq!(got.name, p.name);
    assert_eq!(got.description, p.description);
    assert_eq!(got.content, p.content);
    assert_eq!(got.tags, p.tags);
    assert_eq!(got.created_at, p.created_at);
    assert_eq!(got.updated_at, p.updated_at);
    assert_eq!(reloaded.list_prompts().len(), 3);
}

#[test]
fn duplicate_stored_keys_are_refused() {
    let p = SystemPrompt::new("P".to_string(), "c".to_string());
    let entries = vec![(p.id.clone(), p.clone()), (p.id.clone(), p)];
    assert!(matches!(
        SystemPromptManager::from_stored(entries),
        Err(ConfigError::DeserializeError(_))
    ));
}

#[test]
fn import_and_export() {
    let mut manager = seeded_manager();
    let p = manager.import_from_file("/tmp/p.md", "Imported".to_string(), "text".to_string());
    assert_eq!(p.description, Some("Imported from /tmp/p.md".to_string()));
    assert_eq!(manager.get_prompt(&p.id).unwrap().content, "text");
    assert_eq!(manager.export_to_file(&p.id).unwrap(), "text");
    assert!(matches!(manager.export_to_file("missing"), Err(ConfigError::NotFound(_))));
}

#[test]
fn error_status_codes() {
    let mut manager = seeded_manager();
    let default = manager.get_default_prompt().unwrap();
    let refused = manager.delete_prompt(&default.id).unwrap_err();
    assert_eq!(refused.status_code(), 400);
    let missing = manager.delete_prompt("missing").unwrap_err();
    assert_eq!(missing.status_code(), 404);
    assert_eq!(ConfigError::DeserializeError("bad yaml".to_string()).status_code(), 500);
    assert_eq!(ConfigError::FileError("disk".to_string()).status_code(), 500);
    assert_eq!(ConfigError::DirectoryError("dir".to_string()).status_code(), 500);
}

#[test]
fn replacing_default_by_id_keeps_one_default() {
    let mut manager = SystemPromptManager::new();
    let a = SystemPrompt::new("A".to_string(), "a".to_string()).set_as_default();
    let mut again = a.clone();
    again.name = "A2".to_string();
    manager.create_prompt(a);
    manager.create_prompt(again);
    assert_eq!(manager.list_prompts().len(), 1);
    assert_eq!(defaults(&manager), 1);
    assert_eq!(manager.get_default_prompt().unwrap().name, "A2");
}
