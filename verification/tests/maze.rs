use maze_runner::maze::{
    build_items, generate_maze, maze_positions, place_items, CommandPair, ItemKind, MazeItem,
};

const CELLS: [(i32, i32); 12] = [
    (3, 1), (7, 1), (11, 1),
    (1, 3), (5, 3), (9, 3), (13, 3),
    (3, 5), (7, 5), (11, 5),
    (1, 7), (5, 7),
];

fn pairs(n: i32) -> Vec<CommandPair> {
    (0..n)
        .map(|i| CommandPair {
            id: i + 1,
            command: format!("cmd{}", i + 1),
            definition: format!("def{}", i + 1),
        })
        .collect()
}

fn kind_is_command(it: &MazeItem) -> bool {
    matches!(it.kind, ItemKind::Command)
}

#[test]
fn build_items_two_tiles_per_pair_in_order() {
    let items = build_items(&pairs(2));
    assert_eq!(items.len(), 4);
    let expect = [("cmd1", true, 1), ("def1", false, 1), ("cmd2", true, 2), ("def2", false, 2)];
    for (it, (label, is_cmd, id)) in items.iter().zip(expect.iter()) {
        assert_eq!(it.label, *label);
        assert_eq!(kind_is_command(it), *is_cmd);
        assert_eq!(it.pair_id, *id);
        assert_eq!((it.x, it.y), (0, 0));
    }
}

#[test]
fn build_items_empty() {
    assert!(build_items(&Vec::new()).is_empty());
}

#[test]
fn maze_positions_are_the_twelve_cells() {
    let cells = maze_positions();
    assert_eq!(cells, CELLS.to_vec());
}

#[test]
fn place_items_fills_cells_in_order_and_leaves_the_rest() {
    let mut items = build_items(&pairs(7));
    place_items(&mut items, &maze_positions());
    assert_eq!(items.len(), 14);
    for (i, it) in items.iter().enumerate() {
        if i < 12 {
            assert_eq!((it.x, it.y), CELLS[i]);
        } else {
            assert_eq!((it.x, it.y), (0, 0));
        }
    }
    assert_eq!(items[0].label, "cmd1");
    assert_eq!(items[13].label, "def7");
}

#[test]
fn place_items_short_list() {
    let mut items = build_items(&pairs(1));
    place_items(&mut items, &maze_positions());
    assert_eq!((items[0].x, items[0].y), (3, 1));
    assert_eq!((items[1].x, items[1].y), (7, 1));
}

fn check_maze(n: i32) {
    let ps = pairs(n);
    let items = generate_maze(&ps);
    assert_eq!(items.len(), 2 * ps.len());
    for (i, it) in items.iter().enumerate() {
        let expect = if i < 12 { CELLS[i] } else { (0, 0) };
        assert_eq!((it.x, it.y), expect);
    }
    for p in &ps {
        let cmds: Vec<&MazeItem> = items
            .iter()
            .filter(|it| it.pair_id == p.id && kind_is_command(it))
            .collect();
        let defs: Vec<&MazeItem> = items
            .iter()
            .filter(|it| it.pair_id == p.id && !kind_is_command(it))
            .collect();
        assert_eq!(cmds.len(), 1);
        assert_eq!(defs.len(), 1);
        assert_eq!(cmds[0].label, p.command);
        assert_eq!(defs[0].label, p.definition);
    }
}

#[test]
fn generate_maze_six_pairs_fills_every_cell_once() {
    check_maze(6);
    let items = generate_maze(&pairs(6));
    let mut seen: Vec<(i32, i32)> = items.iter().map(|it| (it.x, it.y)).collect();
    seen.sort();
    seen.dedup();
    assert_eq!(seen.len(), 12);
}

#[test]
fn generate_maze_more_pairs_than_cells() {
    check_maze(9);
}

#[test]
fn generate_maze_few_and_none() {
    check_maze(1);
    check_maze(0);
}

#[test]
fn generate_maze_shuffles() {
    let ps = pairs(40);
    let ordered: Vec<String> = build_items(&ps).into_iter().map(|it| it.label).collect();
    let mut moved = false;
    for _ in 0..5 {
        let labels: Vec<String> = generate_maze(&ps).into_iter().map(|it| it.label).collect();
        let mut sorted_a = labels.clone();
        let mut sorted_b = ordered.clone();
        sorted_a.sort();
        sorted_b.sort();
        assert_eq!(sorted_a, sorted_b);
        if labels != ordered {
            moved = true;
        }
    }
    assert!(moved);
}

#[test]
fn item_kind_names() {
    assert_eq!(ItemKind::Command.name(), "command");
    assert_eq!(ItemKind::Definition.name(), "definition");
}
