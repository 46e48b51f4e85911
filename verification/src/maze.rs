use vstd::prelude::*;

verus! {

broadcast use vstd::seq_lib::group_to_multiset_ensures;

/// A command of the catalogue together with its definition, as dealt into a maze.
pub struct CommandPair {
    pub id: i32,
    pub command: String,
    pub definition: String,
}

/// Which half of a pair a tile shows.
#[derive(Debug, Clone, Copy, PartialEq, Eq, Structural)]
pub enum ItemKind {
    Command,
    Definition,
}

/// A tile of the maze: the text it shows, which half of which pair it is,
/// and the cell it stands on.
pub struct MazeItem {
    pub label: String,
    pub kind: ItemKind,
    pub pair_id: i32,
    pub x: i32,
    pub y: i32,
}

impl ItemKind {
    /// The name under which the kind is shown to clients.
    pub fn name(&self) -> (s: &'static str)
        ensures
            *self == ItemKind::Command ==> s@ == "command"@,
            *self == ItemKind::Definition ==> s@ == "definition"@,
    {
        match self {
            ItemKind::Command => "command",
            ItemKind::Definition => "definition",
        }
    }
}

/// The cells a maze offers, in the order tiles are put on them.
pub open spec fn maze_cells() -> Seq<(i32, i32)> {
    seq![
        (3i32, 1i32), (7i32, 1i32), (11i32, 1i32),
        (1i32, 3i32), (5i32, 3i32), (9i32, 3i32), (13i32, 3i32),
        (3i32, 5i32), (7i32, 5i32), (11i32, 5i32),
        (1i32, 7i32), (5i32, 7i32),
    ]
}

/// The cell of the tile at index `i`: the `i`-th maze cell while there is one,
/// the origin for tiles past the last cell.
pub open spec fn maze_slot(i: int) -> (i32, i32) {
    if 0 <= i < maze_cells().len() {
        maze_cells()[i]
    } else {
        (0i32, 0i32)
    }
}

/// The tile showing the command of a pair, not yet placed.
pub open spec fn command_item(p: CommandPair) -> MazeItem {
    MazeItem { label: p.command, kind: ItemKind::Command, pair_id: p.id, x: 0, y: 0 }
}

/// The tile showing the definition of a pair, not yet placed.
pub open spec fn definition_item(p: CommandPair) -> MazeItem {
    MazeItem { label: p.definition, kind: ItemKind::Definition, pair_id: p.id, x: 0, y: 0 }
}

/// A tile standing on the origin, as tiles do before they are placed.
pub open spec fn at_origin(it: MazeItem) -> bool {
    it.x == 0 && it.y == 0
}

/// A tile taken off its cell.
pub open spec fn unplaced(it: MazeItem) -> MazeItem {
    MazeItem { label: it.label, kind: it.kind, pair_id: it.pair_id, x: 0, y: 0 }
}

/// A tile put on cell `cell`.
pub open spec fn placed_at(it: MazeItem, cell: (i32, i32)) -> MazeItem {
    MazeItem { label: it.label, kind: it.kind, pair_id: it.pair_id, x: cell.0, y: cell.1 }
}

/// The tiles of the pairs in order: for each pair its command tile, then its
/// definition tile, none placed.
pub open spec fn unplaced_items(pairs: Seq<CommandPair>) -> Seq<MazeItem> {
    Seq::new(
        (2 * pairs.len()) as nat,
        |i: int|
            if i % 2 == 0 {
                command_item(pairs[i / 2])
            } else {
                definition_item(pairs[i / 2])
            },
    )
}

/// A maze dealt from `pairs`: the tiles of the pairs in some order, the tile at
/// index `i` on `maze_slot(i)`.
pub open spec fn is_maze_of(items: Seq<MazeItem>, pairs: Seq<CommandPair>) -> bool {
    &&& items.map_values(|it: MazeItem| unplaced(it)).to_multiset() == unplaced_items(
        pairs,
    ).to_multiset()
    &&& forall|i: int|
        0 <= i < items.len() ==> (#[trigger] items[i].x, items[i].y) == maze_slot(i)
}

/// Lays the tiles of the pairs out in order, two per pair (command first), none placed.
pub fn build_items(pairs: &Vec<CommandPair>) -> (items: Vec<MazeItem>)
    ensures
        items@ == unplaced_items(pairs@),
{
    let mut items: Vec<MazeItem> = Vec::new();
    let mut i: usize = 0;
    while i < pairs.len()
        invariant
            i <= pairs.len(),
            items.len() == 2 * i,
            forall|j: int|
                0 <= j < 2 * i ==> #[trigger] items@[j] == unplaced_items(pairs@)[j],
        decreases pairs.len() - i,
    {
        let p = &pairs[i];
        items.push(
            MazeItem {
                label: p.command.clone(),
                kind: ItemKind::Command,
                pair_id: p.id,
                x: 0,
                y: 0,
            },
        );
        items.push(
            MazeItem {
                label: p.definition.clone(),
                kind: ItemKind::Definition,
                pair_id: p.id,
                x: 0,
                y: 0,
            },
        );
        proof {
            assert((2 * i) as int / 2 == i as int);
            assert(((2 * i) as int + 1) / 2 == i as int);
        }
        i = i + 1;
    }
    assert(items@ =~= unplaced_items(pairs@));
    items
}

/// The cells of a maze, in order.
pub fn maze_positions() -> (cells: Vec<(i32, i32)>)
    ensures
        cells@ == maze_cells(),
{
    let mut cells: Vec<(i32, i32)> = Vec::new();
    cells.push((3, 1));
    cells.push((7, 1));
    cells.push((11, 1));
    cells.push((1, 3));
    cells.push((5, 3));
    cells.push((9, 3));
    cells.push((13, 3));
    cells.push((3, 5));
    cells.push((7, 5));
    cells.push((11, 5));
    cells.push((1, 7));
    cells.push((5, 7));
    assert(cells@ =~= maze_cells());
    cells
}

/// Puts the `i`-th tile on the `i`-th cell, for as many tiles as there are
/// cells; tiles past the last cell stay where they are.
pub fn place_items(items: &mut Vec<MazeItem>, cells: &Vec<(i32, i32)>)
    ensures
        final(items).len() == old(items).len(),
        forall|i: int|
            0 <= i < old(items).len() ==> #[trigger] final(items)@[i] == if i < cells.len() {
                placed_at(old(items)@[i], cells@[i])
            } else {
                old(items)@[i]
            },
{
    let n = items.len();
    let mut i: usize = 0;
    while i < n && i < cells.len()
        invariant
            i <= n,
            i <= cells.len(),
            n == old(items).len(),
            items.len() == n,
            forall|j: int| 0 <= j < i ==> #[trigger] items@[j] == placed_at(old(items)@[j], cells@[j]),
            forall|j: int| i <= j < n ==> #[trigger] items@[j] == old(items)@[j],
        decreases n - i,
    {
        let (x, y) = cells[i];
        items[i].x = x;
        items[i].y = y;
        i = i + 1;
    }
}

/// Declares `rand::rngs::ThreadRng` so that a handle on the generator can be held.
#[verifier::external_type_specification]
#[verifier::external_body]
pub struct ExThreadRng(rand::rngs::ThreadRng);

/// Calls `rand::thread_rng`, which hands out the calling thread's generator,
/// seeded by the system. Nothing is claimed about it.
#[verifier::external_body]
fn thread_rng() -> rand::rngs::ThreadRng {
    rand::thread_rng()
}

/// Calls `rand::seq::SliceRandom::shuffle` on the items. Its source swaps
/// elements pairwise (Fisher-Yates), so the items come back in some order of
/// the same items: that, and no more, is claimed. Which order depends on the
/// generator and is left unsaid.
#[verifier::external_body]
fn shuffle<T>(items: &mut Vec<T>, rng: &mut rand::rngs::ThreadRng)
    ensures
        final(items)@.to_multiset() == old(items)@.to_multiset(),
{
    rand::seq::SliceRandom::shuffle(items.as_mut_slice(), rng)
}

/// Deals a maze from `pairs`: their tiles, two per pair, in a random order,
/// the first ones on the maze cells in order, the others left at the origin.
pub fn generate_maze(pairs: &Vec<CommandPair>) -> (items: Vec<MazeItem>)
    ensures
        items.len() == 2 * pairs.len(),
        is_maze_of(items@, pairs@),
{
    let mut items = build_items(pairs);
    let ghost built = items@;
    let mut rng = thread_rng();
    shuffle(&mut items, &mut rng);
    let ghost shuffled = items@;
    proof {
        assert(shuffled.len() == built.len()) by {
            assert(shuffled.to_multiset().len() == built.to_multiset().len());
        }
        assert forall|i: int| 0 <= i < shuffled.len() implies at_origin(#[trigger] shuffled[i]) by {
            assert(shuffled.to_multiset().count(shuffled[i]) > 0);
            assert(built.contains(shuffled[i]));
        }
    }
    let cells = maze_positions();
    place_items(&mut items, &cells);
    proof {
        assert forall|i: int| 0 <= i < items@.len() implies #[trigger] unplaced(items@[i])
            == shuffled[i] by {
            assert(at_origin(shuffled[i]));
            if i < cells.len() {
                assert(items@[i] == placed_at(shuffled[i], cells@[i]));
            } else {
                assert(items@[i] == shuffled[i]);
            }
        }
        assert(items@.map_values(|it: MazeItem| unplaced(it)) =~= shuffled);
        assert forall|i: int| 0 <= i < items@.len() implies (#[trigger] items@[i].x, items@[i].y)
            == maze_slot(i) by {
        }
    }
    items
}

/// The maze cells are twelve distinct cells, each at odd coordinates inside
/// the grid of 15 by 9.
pub proof fn lemma_cells_distinct()
    ensures
        maze_cells().len() == 12,
        forall|i: int, j: int|
            0 <= i < 12 && 0 <= j < 12 && i != j ==> maze_cells()[i] != maze_cells()[j],
        forall|i: int|
            #![trigger maze_cells()[i]]
            0 <= i < 12 ==> {
                let c = maze_cells()[i];
                &&& 1 <= c.0 <= 13 && c.0 % 2 == 1
                &&& 1 <= c.1 <= 7 && c.1 % 2 == 1
            },
{
}

/// In a maze dealt from `pairs`, no two of the tiles put on cells share one;
/// with at most six pairs every tile is on a cell of its own.
pub proof fn lemma_tiles_apart(items: Seq<MazeItem>, pairs: Seq<CommandPair>)
    requires
        is_maze_of(items, pairs),
    ensures
        items.len() == 2 * pairs.len(),
        forall|i: int, j: int|
            0 <= i < items.len() && 0 <= j < items.len() && i != j && i < 12 && j < 12 ==> (
            items[i].x, items[i].y) != (items[j].x, items[j].y),
        pairs.len() <= 6 ==> forall|i: int, j: int|
            0 <= i < items.len() && 0 <= j < items.len() && i != j ==> (items[i].x, items[i].y)
                != (items[j].x, items[j].y),
{
    let unplaced_seq = items.map_values(|it: MazeItem| unplaced(it));
    assert(unplaced_seq.to_multiset().len() == unplaced_items(pairs).to_multiset().len());
    lemma_cells_distinct();
    assert forall|i: int, j: int|
        0 <= i < items.len() && 0 <= j < items.len() && i != j && i < 12 && j < 12 implies (
        items[i].x, items[i].y) != (items[j].x, items[j].y) by {
        assert((items[i].x, items[i].y) == maze_slot(i));
        assert((items[j].x, items[j].y) == maze_slot(j));
    }
}

/// Every pair dealt shows on the board: its command tile and its definition
/// tile are both among the tiles.
pub proof fn lemma_every_pair_shown(items: Seq<MazeItem>, pairs: Seq<CommandPair>)
    requires
        is_maze_of(items, pairs),
    ensures
        forall|k: int|
            #![trigger pairs[k]]
            0 <= k < pairs.len() ==> {
                &&& exists|i: int|
                    0 <= i < items.len() && unplaced(#[trigger] items[i]) == command_item(pairs[k])
                &&& exists|i: int|
                    0 <= i < items.len() && unplaced(#[trigger] items[i]) == definition_item(
                        pairs[k],
                    )
            },
{
    let unplaced_seq = items.map_values(|it: MazeItem| unplaced(it));
    let all = unplaced_items(pairs);
    assert forall|k: int| #![trigger pairs[k]] 0 <= k < pairs.len() implies {
        &&& exists|i: int|
            0 <= i < items.len() && unplaced(#[trigger] items[i]) == command_item(pairs[k])
        &&& exists|i: int|
            0 <= i < items.len() && unplaced(#[trigger] items[i]) == definition_item(pairs[k])
    } by {
        assert((2 * k) / 2 == k);
        assert((2 * k + 1) / 2 == k);
        assert(all[2 * k] == command_item(pairs[k]));
        assert(all[2 * k + 1] == definition_item(pairs[k]));
        assert(all.to_multiset().count(all[2 * k]) > 0);
        assert(all.to_multiset().count(all[2 * k + 1]) > 0);
        assert(unplaced_seq.contains(command_item(pairs[k])));
        assert(unplaced_seq.contains(definition_item(pairs[k])));
        let a = choose|i: int| 0 <= i < unplaced_seq.len() && unplaced_seq[i] == command_item(pairs[k]);
        let b = choose|i: int| 0 <= i < unplaced_seq.len() && unplaced_seq[i] == definition_item(pairs[k]);
        assert(unplaced(items[a]) == command_item(pairs[k]));
        assert(unplaced(items[b]) == definition_item(pairs[k]));
    }
}

} // verus!
