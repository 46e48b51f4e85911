use maze_runner::catalog::{needs_seeding, ok_rows, seed_commands, Category, Command};

#[test]
fn seed_has_all_commands() {
    let seed = seed_commands();
    assert_eq!(seed.len(), 130);
    assert_eq!(seed[0].command, "ls");
    assert_eq!(seed[0].definition, "Lister les fichiers et dossiers");
    assert_eq!(seed[0].category, Category::Files);
    assert_eq!(seed[129].command, "git diff");
    assert_eq!(seed[129].definition, "Afficher les differences entre fichiers");
    assert_eq!(seed[129].category, Category::Git);
}

#[test]
fn seed_command_names_are_distinct_and_nonempty() {
    let seed = seed_commands();
    let mut names: Vec<&str> = seed.iter().map(|s| s.command).collect();
    assert!(names.iter().all(|n| !n.is_empty()));
    assert!(seed.iter().all(|s| !s.definition.is_empty()));
    names.sort();
    names.dedup();
    assert_eq!(names.len(), 130);
}

#[test]
fn seed_categories_in_turn() {
    let seed = seed_commands();
    let expected = [
        (Category::Files, 20, "fichiers"),
        (Category::Search, 5, "recherche"),
        (Category::Text, 10, "texte"),
        (Category::Archive, 5, "archivage"),
        (Category::Permissions, 4, "permissions"),
        (Category::Users, 12, "utilisateurs"),
        (Category::Processes, 12, "processus"),
        (Category::System, 25, "systeme"),
        (Category::Network, 16, "reseau"),
        (Category::Docker, 10, "docker"),
        (Category::Git, 11, "git"),
    ];
    let mut i = 0;
    for (cat, n, name) in expected {
        assert_eq!(cat.name(), name);
        for _ in 0..n {
            assert_eq!(seed[i].category, cat);
            i += 1;
        }
    }
    assert_eq!(i, seed.len());
}

#[test]
fn seeding_only_when_empty() {
    assert!(needs_seeding(0));
    assert!(!needs_seeding(1));
    assert!(!needs_seeding(130));
    assert!(!needs_seeding(-1));
}

fn command(id: i32, name: &str) -> Command {
    Command {
        id,
        command: name.to_string(),
        definition: format!("def {}", name),
        category: "texte".to_string(),
    }
}

#[test]
fn ok_rows_keeps_good_rows_in_order() {
    let rows: Vec<Result<Command, String>> = vec![
        Ok(command(1, "ls")),
        Err("NULL category".to_string()),
        Ok(command(3, "cd")),
        Err("bad".to_string()),
        Ok(command(5, "pwd")),
    ];
    let kept = ok_rows(rows);
    let ids: Vec<i32> = kept.iter().map(|c| c.id).collect();
    assert_eq!(ids, vec![1, 3, 5]);
    assert_eq!(kept[1].command, "cd");
}

#[test]
fn ok_rows_edge_cases() {
    let none: Vec<Result<i32, ()>> = Vec::new();
    assert!(ok_rows(none).is_empty());
    let all_bad: Vec<Result<i32, ()>> = vec![Err(()), Err(())];
    assert!(ok_rows(all_bad).is_empty());
    let all_good: Vec<Result<i32, ()>> = vec![Ok(7), Ok(8)];
    assert_eq!(ok_rows(all_good), vec![7, 8]);
}
