//! Ports of the original unit tests around `ProjectSetup`: normalization,
//! registry loading, template selection and the step counter.

use hexstack::setup::ProjectSetup;

#[test]
fn test_component_name_normalization() {
    // Component names are normalized to lowercase
    let components = vec![
        "RIPRESS".to_string(),
        "Wynd".to_string(),
        "ripress".to_string(),
    ];
    let setup = ProjectSetup::new("test-project".to_string(), components, None);

    assert_eq!(setup.selected_components, vec!["ripress", "wynd", "ripress"]);
}

#[test]
fn test_template_selection_single_component() {
    let components = vec!["ripress".to_string()];
    let setup = ProjectSetup::new("test-project".to_string(), components, None);

    let template = setup.determine_template();
    assert!(template.is_some());
    assert_eq!(template.unwrap().name, "Ripress Basic");
}

#[test]
fn test_template_selection_multiple_components() {
    let components = vec!["ripress".to_string(), "wynd".to_string()];
    let setup = ProjectSetup::new("test-project".to_string(), components, None);

    let template = setup.determine_template();
    assert!(template.is_some());
    assert_eq!(template.unwrap().name, "Ripress + Wynd");
}

#[test]
fn test_template_selection_case_insensitive() {
    let components = vec!["RIPRESS".to_string(), "WyNd".to_string()];
    let setup = ProjectSetup::new("test-project".to_string(), components, None);

    let template = setup.determine_template();
    assert!(template.is_some());
    assert_eq!(template.unwrap().name, "Ripress + Wynd");
}

#[test]
fn test_template_selection_wynd_only() {
    let components = vec!["wynd".to_string()];
    let setup = ProjectSetup::new("test-project".to_string(), components, None);

    let template = setup.determine_template();
    assert!(template.is_some());
    assert_eq!(template.unwrap().name, "Wynd Basic");
}

#[test]
fn test_template_selection_no_match() {
    let components = vec!["unknown".to_string()];
    let setup = ProjectSetup::new("test-project".to_string(), components, None);

    let template = setup.determine_template();
    assert!(template.is_none());
}

#[test]
fn test_component_config_loading() {
    let config = ProjectSetup::load_component_config();

    assert_eq!(config.len(), 3);

    assert!(config.contains_key("ripress"));
    let ripress_config = config.get("ripress").unwrap();
    assert_eq!(
        ripress_config.description,
        "An HTTP Framework with best in class developer experience"
    );

    assert!(config.contains_key("wynd"));
    let wynd_config = config.get("wynd").unwrap();
    assert_eq!(wynd_config.description, "An Event Driven WebSocket library");

    assert!(config.contains_key("lume"));
    let lume_config = config.get("lume").unwrap();
    assert_eq!(
        lume_config.description,
        "A simple and intuitive Query Builder inspired by Drizzle"
    );

    assert!(config.get("unknown").is_none());
}

#[test]
fn test_template_loading() {
    let templates = ProjectSetup::load_templates();

    assert!(templates.contains_key("ripress"));
    let ripress_template = templates.get("ripress").unwrap();
    assert_eq!(ripress_template.name, "Ripress Basic");
    assert_eq!(
        ripress_template.github_url,
        "https://github.com/Guru901/ripress-only"
    );

    assert!(templates.contains_key("wynd"));
    let wynd_template = templates.get("wynd").unwrap();
    assert_eq!(wynd_template.name, "Wynd Basic");
    assert_eq!(
        wynd_template.github_url,
        "https://github.com/Guru901/wynd-only"
    );

    assert!(templates.contains_key("ripress_wynd"));
    let combined_template = templates.get("ripress_wynd").unwrap();
    assert_eq!(combined_template.name, "Ripress + Wynd");
    assert_eq!(
        combined_template.github_url,
        "https://github.com/Guru901/ripress-wynd"
    );

    assert!(templates.contains_key("ripress-react"));
    let ripress_react_template = templates.get("ripress-react").unwrap();
    assert_eq!(ripress_react_template.name, "Ripress + React");
    assert_eq!(
        ripress_react_template.github_url,
        "https://github.com/Guru901/ripress-react"
    );

    assert!(templates.contains_key("wynd-react"));
    let wynd_react_template = templates.get("wynd-react").unwrap();
    assert_eq!(wynd_react_template.name, "Wynd + React");
    assert_eq!(
        wynd_react_template.github_url,
        "https://github.com/Guru901/wynd-react"
    );

    assert!(templates.contains_key("lume-react"));
    let lume_react_template = templates.get("lume-react").unwrap();
    assert_eq!(lume_react_template.name, "Lume + React");
    assert_eq!(
        lume_react_template.github_url,
        "https://github.com/Guru901/lume-react"
    );

    assert!(templates.contains_key("lume-svelte"));
    let lume_svelte_template = templates.get("lume-svelte").unwrap();
    assert_eq!(lume_svelte_template.name, "Lume + Svelte");
    assert_eq!(
        lume_svelte_template.github_url,
        "https://github.com/Guru901/lume-svelte"
    );

    assert!(templates.contains_key("ripress-wynd-react"));
    let combined_react_template = templates.get("ripress-wynd-react").unwrap();
    assert_eq!(combined_react_template.name, "Ripress + Wynd + React");
    assert_eq!(
        combined_react_template.github_url,
        "https://github.com/Guru901/ripress-wynd-react"
    );
}

#[test]
fn test_registry_loads_are_idempotent() {
    // Loading twice yields catalogs with identical key sets and field values
    let config_a = ProjectSetup::load_component_config();
    let config_b = ProjectSetup::load_component_config();
    assert_eq!(config_a.len(), config_b.len());
    for id in ["ripress", "wynd", "lume"] {
        assert_eq!(
            config_a.get(id).unwrap().description,
            config_b.get(id).unwrap().description
        );
    }

    let templates_a = ProjectSetup::load_templates();
    let templates_b = ProjectSetup::load_templates();
    assert_eq!(templates_a.len(), templates_b.len());
    for key in [
        "ripress",
        "wynd",
        "lume",
        "ripress_wynd",
        "ripress_lume",
        "wynd_lume",
        "ripress_wynd_lume",
        "ripress-react",
        "wynd-react",
        "lume-react",
        "ripress-wynd-react",
        "ripress-lume-react",
        "wynd-lume-react",
        "ripress-wynd-lume-react",
        "ripress-svelte",
        "wynd-svelte",
        "lume-svelte",
        "ripress-wynd-svelte",
        "ripress-lume-svelte",
        "wynd-lume-svelte",
        "ripress-wynd-lume-svelte",
    ] {
        let a = templates_a.get(key).unwrap();
        let b = templates_b.get(key).unwrap();
        assert_eq!(a.name, b.name);
        assert_eq!(a.github_url, b.github_url);
    }
}

#[test]
fn test_calculate_total_steps() {
    // The step count is fixed at 2 (materialize + dependency refresh),
    // whatever the selection holds
    let components = vec!["ripress".to_string(), "wynd".to_string()];
    let setup = ProjectSetup::new("test-project".to_string(), components, None);
    assert_eq!(setup.calculate_total_steps(), 2);

    let single_component = vec!["ripress".to_string()];
    let single_setup = ProjectSetup::new("test-project".to_string(), single_component, None);
    assert_eq!(single_setup.calculate_total_steps(), 2);
}

#[test]
fn test_empty_components() {
    let components = vec![];
    let setup = ProjectSetup::new("test-project".to_string(), components, None);

    let template = setup.determine_template();
    assert!(template.is_none());

    let total_steps = setup.calculate_total_steps();
    assert_eq!(total_steps, 2);
}

#[test]
fn test_duplicate_components() {
    let components = vec![
        "ripress".to_string(),
        "RIPRESS".to_string(),
        "wynd".to_string(),
    ];
    let setup = ProjectSetup::new("test-project".to_string(), components, None);

    // Duplicates are kept in the normalized list
    assert_eq!(setup.selected_components.len(), 3);
    assert_eq!(setup.selected_components, vec!["ripress", "ripress", "wynd"]);

    // Matching treats the selection as a set, so the pair still matches
    let template = setup.determine_template();
    assert!(template.is_some());
    assert_eq!(template.unwrap().name, "Ripress + Wynd");
}

#[test]
fn test_component_set_creation() {
    let components = vec!["ripress".to_string(), "wynd".to_string()];
    let setup = ProjectSetup::new("test-project".to_string(), components, None);

    let components_set: std::collections::HashSet<&str> = setup
        .selected_components
        .iter()
        .map(|s| s.as_str())
        .collect();

    assert!(components_set.contains("ripress"));
    assert!(components_set.contains("wynd"));
    assert_eq!(components_set.len(), 2);
}

#[test]
fn test_template_priority_order() {
    let components = vec!["ripress".to_string(), "wynd".to_string()];
    let setup = ProjectSetup::new("test-project".to_string(), components, None);

    let template = setup.determine_template();
    assert!(template.is_some());

    // The combined template has the highest priority
    assert_eq!(template.unwrap().name, "Ripress + Wynd");

    let ripress_only = vec!["ripress".to_string()];
    let ripress_setup = ProjectSetup::new("test-project".to_string(), ripress_only, None);
    let ripress_template = ripress_setup.determine_template();
    assert!(ripress_template.is_some());
    assert_eq!(ripress_template.unwrap().name, "Ripress Basic");
}

#[test]
fn test_case_insensitive_component_matching() {
    let test_cases = vec![
        vec!["RIPRESS".to_string(), "WYND".to_string()],
        vec!["Ripress".to_string(), "Wynd".to_string()],
        vec!["ripress".to_string(), "wynd".to_string()],
        vec!["RiPrEsS".to_string(), "WyNd".to_string()],
    ];

    for components in test_cases {
        let setup = ProjectSetup::new("test-project".to_string(), components, None);
        let template = setup.determine_template();
        assert!(
            template.is_some(),
            "Failed for components: {:?}",
            setup.selected_components
        );
        assert_eq!(template.unwrap().name, "Ripress + Wynd");
    }
}

#[test]
fn test_directory_conflict_detection() {
    let setup = ProjectSetup::new("existing-project".to_string(), vec![], None);
    assert!(
        setup.check_directory_conflict(true, true).is_err(),
        "Should detect directory conflict"
    );
}

#[test]
fn test_template_selection_with_react_frontend() {
    let components = vec!["ripress".to_string(), "wynd".to_string()];
    let setup = ProjectSetup::new(
        "test-project".to_string(),
        components,
        Some("react".to_string()),
    );

    let template = setup.determine_template();
    assert!(template.is_some());
    assert_eq!(template.unwrap().name, "Ripress + Wynd + React");

    let ripress_only = vec!["ripress".to_string()];
    let ripress_setup = ProjectSetup::new(
        "test-project".to_string(),
        ripress_only,
        Some("react".to_string()),
    );
    let ripress_template = ripress_setup.determine_template();
    assert!(ripress_template.is_some());
    assert_eq!(ripress_template.unwrap().name, "Ripress + React");

    let wynd_only = vec!["wynd".to_string()];
    let wynd_setup = ProjectSetup::new(
        "test-project".to_string(),
        wynd_only,
        Some("react".to_string()),
    );
    let wynd_template = wynd_setup.determine_template();
    assert!(wynd_template.is_some());
    assert_eq!(wynd_template.unwrap().name, "Wynd + React");
}

#[test]
fn test_template_selection_without_frontend() {
    let components = vec!["ripress".to_string(), "wynd".to_string()];
    let setup = ProjectSetup::new("test-project".to_string(), components, None);

    let template = setup.determine_template();
    assert!(template.is_some());
    assert_eq!(template.unwrap().name, "Ripress + Wynd");

    let ripress_only = vec!["ripress".to_string()];
    let ripress_setup = ProjectSetup::new("test-project".to_string(), ripress_only, None);
    let ripress_template = ripress_setup.determine_template();
    assert!(ripress_template.is_some());
    assert_eq!(ripress_template.unwrap().name, "Ripress Basic");
}

#[test]
fn test_exact_match_rule_with_extra_unknown_component() {
    // An extra unknown selection breaks the exact-match rule for the
    // two-component template, but the single-component template still matches
    let components = vec![
        "ripress".to_string(),
        "wynd".to_string(),
        "extraUnknown".to_string(),
    ];
    let setup = ProjectSetup::new("test-project".to_string(), components, None);

    let template = setup.determine_template();
    assert!(template.is_some());
    let name = &template.unwrap().name;
    assert_ne!(name, "Ripress + Wynd");
    assert_eq!(name, "Ripress Basic");
}

#[test]
fn test_svelte_frontend_selection() {
    let components = vec!["ripress".to_string(), "wynd".to_string()];
    let setup = ProjectSetup::new(
        "test-project".to_string(),
        components,
        Some("svelte".to_string()),
    );
    let template = setup.determine_template();
    assert_eq!(template.unwrap().name, "Ripress + Wynd + Svelte");
}

#[test]
fn test_unknown_frontend_falls_back_to_plain_templates() {
    let components = vec!["ripress".to_string()];
    let setup = ProjectSetup::new(
        "test-project".to_string(),
        components,
        Some("angular".to_string()),
    );
    let template = setup.determine_template();
    assert_eq!(template.unwrap().name, "Ripress Basic");
}

#[test]
fn test_lume_with_frontend_templates() {
    let react_setup = ProjectSetup::new(
        "test-project".to_string(),
        vec!["lume".to_string()],
        Some("react".to_string()),
    );
    assert_eq!(react_setup.determine_template().unwrap().name, "Lume + React");

    let svelte_setup = ProjectSetup::new(
        "test-project".to_string(),
        vec!["lume".to_string()],
        Some("svelte".to_string()),
    );
    assert_eq!(
        svelte_setup.determine_template().unwrap().name,
        "Lume + Svelte"
    );

    let plain_setup = ProjectSetup::new("test-project".to_string(), vec!["lume".to_string()], None);
    assert_eq!(plain_setup.determine_template().unwrap().name, "Lume Basic");
}

#[test]
fn test_describe_component() {
    let setup = ProjectSetup::new("test-project".to_string(), vec![], None);
    let config = setup.describe_component("wynd").unwrap();
    assert_eq!(config.description, "An Event Driven WebSocket library");
    assert!(setup.describe_component("unknown").is_none());
}
