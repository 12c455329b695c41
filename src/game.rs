//! The game: a 16-by-16 dungeon level of floor and walls with a staircase,
//! the player, and up to ten enemies that close in on the player each turn.
use vstd::prelude::*;
use crate::display::{Display, cell_window, then_outcome};
use crate::hal::Mcu;
use crate::input::Input;
use crate::twi::{
    BusEvent, BusFault, SimBus, TWI, TWIError, TwiState, error_of, expected_events, status_for_len,
    write_events, write_outcome,
};
use crate::progmem::PGMSlice;
use crate::rng::Rng;
use crate::tiles;

verus! {

/// Width and height of a level, in cells.
pub const LEVEL_SIZE: usize = 16;

pub const NUM_ENEMIES: usize = 10;

/// Screen size in cells: the display's 128 by 64 pixels in 8-by-8 cells.
pub const SCREEN_WIDTH: usize = 16;

pub const SCREEN_HEIGHT: usize = 8;

/// Largest top-left corner of the visible part of the level.
pub const SCREEN_MAX_X: usize = 0;

pub const SCREEN_MAX_Y: usize = 8;

/// Random placements tried before the level is searched cell by cell.
pub const PLACE_ATTEMPTS: usize = 1024;

#[derive(Clone, Copy, PartialEq, Eq, Structural, Debug)]
pub enum ContinueState {
    Continue,
    NewLevel,
    /// The move was refused (a wall); wait for the next input.
    RestartLoop,
    GameOver,
}

#[derive(Clone, Copy, PartialEq, Eq, Structural, Debug)]
pub enum Tile {
    Floor,
    Wall,
    Stairs,
    Player,
    Enemy,
}

/// The image of a tile.
pub open spec fn tile_image(t: Tile) -> Seq<u8> {
    match t {
        Tile::Floor => tiles::FLOOR@,
        Tile::Wall => tiles::WALL@,
        Tile::Stairs => tiles::STAIRS@,
        Tile::Player => tiles::PLAYER@,
        Tile::Enemy => tiles::ENEMY@,
    }
}

impl Tile {
    pub fn graphic(self) -> (r: PGMSlice)
        ensures
            r@ == tile_image(self),
            r@.len() == 9,
    {
        match self {
            Tile::Floor => PGMSlice::new(&tiles::FLOOR),
            Tile::Wall => PGMSlice::new(&tiles::WALL),
            Tile::Stairs => PGMSlice::new(&tiles::STAIRS),
            Tile::Player => PGMSlice::new(&tiles::PLAYER),
            Tile::Enemy => PGMSlice::new(&tiles::ENEMY),
        }
    }
}

/// A cell of the level: column `x`, row `y`.
#[derive(Clone, Copy, PartialEq, Eq, Structural, Debug)]
pub struct Position {
    pub x: u8,
    pub y: u8,
}

impl Position {
    pub fn new(x: u8, y: u8) -> (r: Position)
        ensures
            r == (Position { x, y }),
    {
        Position { x, y }
    }
}

/// Index of cell (`x`, `y`) in the row-major cell sequence.
pub open spec fn cell(x: int, y: int) -> int {
    y * 16 + x
}

/// Whether `p` lies inside the border walls.
pub open spec fn interior(p: Position) -> bool {
    1 <= p.x <= 14 && 1 <= p.y <= 14
}

/// Whether every border cell of `m` is a wall.
pub open spec fn walled(m: Seq<Tile>) -> bool {
    &&& m.len() == 256
    &&& forall|i: int| 0 <= i < 16 ==> #[trigger] m[cell(i, 0)] == Tile::Wall
    &&& forall|i: int| 0 <= i < 16 ==> #[trigger] m[cell(i, 15)] == Tile::Wall
    &&& forall|i: int| 0 <= i < 16 ==> #[trigger] m[cell(0, i)] == Tile::Wall
    &&& forall|i: int| 0 <= i < 16 ==> #[trigger] m[cell(15, i)] == Tile::Wall
}

/// A cell that is not a wall, in a walled level, lies inside the border.
proof fn lemma_open_cell_is_interior(m: Seq<Tile>, x: int, y: int)
    requires
        walled(m),
        0 <= x < 16,
        0 <= y < 16,
        m[cell(x, y)] != Tile::Wall,
    ensures
        interior(Position { x: x as u8, y: y as u8 }),
{
    if x == 0 {
        assert(m[cell(0, y)] == Tile::Wall);
    }
    if x == 15 {
        assert(m[cell(15, y)] == Tile::Wall);
    }
    if y == 0 {
        assert(m[cell(x, 0)] == Tile::Wall);
    }
    if y == 15 {
        assert(m[cell(x, 15)] == Tile::Wall);
    }
}

/// Changing a cell inside the border keeps the border walled.
proof fn lemma_set_inside_keeps_walled(m: Seq<Tile>, x: int, y: int, t: Tile)
    requires
        walled(m),
        1 <= x <= 14,
        1 <= y <= 14,
    ensures
        walled(m.update(cell(x, y), t)),
{
    let m2 = m.update(cell(x, y), t);
    assert forall|i: int| 0 <= i < 16 implies #[trigger] m2[cell(i, 0)] == Tile::Wall by {
        assert(m[cell(i, 0)] == Tile::Wall);
    }
    assert forall|i: int| 0 <= i < 16 implies #[trigger] m2[cell(i, 15)] == Tile::Wall by {
        assert(m[cell(i, 15)] == Tile::Wall);
    }
    assert forall|i: int| 0 <= i < 16 implies #[trigger] m2[cell(0, i)] == Tile::Wall by {
        assert(m[cell(0, i)] == Tile::Wall);
    }
    assert forall|i: int| 0 <= i < 16 implies #[trigger] m2[cell(15, i)] == Tile::Wall by {
        assert(m[cell(15, i)] == Tile::Wall);
    }
}

/// A level's cells, row by row.
pub struct LevelMap(Vec<Tile>);

impl LevelMap {
    pub closed spec fn view(&self) -> Seq<Tile> {
        self.0@
    }

    pub fn index(&self, x: u8, y: u8) -> (r: Tile)
        requires
            self@.len() == 256,
            x < 16,
            y < 16,
        ensures
            r == self@[cell(x as int, y as int)],
    {
        self.0[y as usize * LEVEL_SIZE + x as usize]
    }

    pub fn set(&mut self, x: u8, y: u8, t: Tile)
        requires
            old(self)@.len() == 256,
            x < 16,
            y < 16,
        ensures
            final(self)@ == old(self)@.update(cell(x as int, y as int), t),
    {
        self.0.set(y as usize * LEVEL_SIZE + x as usize, t);
    }
}

#[derive(Clone, Copy, PartialEq, Eq, Structural, Debug)]
pub struct Enemy {
    pub position: Position,
}

/// The direction from `enemy` to `player` along one axis: 0, 1, or 255
/// standing for -1 (added with wrap-around).
pub open spec fn dir(enemy: u8, player: u8) -> u8 {
    if player < enemy {
        255
    } else if player == enemy {
        0
    } else {
        1
    }
}

pub fn get_dir(enemy: u8, player: u8) -> (r: u8)
    ensures
        r == dir(enemy, player),
{
    match player.checked_sub(enemy) {
        Some(d) => if d < 1 {
            d
        } else {
            1
        },
        None => 255,
    }
}

/// Turns row `y` into wall.
pub fn draw_horizontal_wall(map: &mut LevelMap, y: usize)
    requires
        old(map)@.len() == 256,
        y < 16,
    ensures
        final(map)@.len() == 256,
        forall|x: int, yy: int|
            0 <= x < 16 && 0 <= yy < 16 ==> #[trigger] final(map)@[cell(x, yy)] == if yy == y {
                Tile::Wall
            } else {
                old(map)@[cell(x, yy)]
            },
{
    let row_start = y * LEVEL_SIZE;
    let mut i: usize = 0;
    while i < LEVEL_SIZE
        invariant
            i <= 16,
            y < 16,
            row_start == y * 16,
            map@.len() == 256,
            forall|x: int, yy: int|
                0 <= x < 16 && 0 <= yy < 16 ==> #[trigger] map@[cell(x, yy)] == if yy == y && x
                    < i {
                    Tile::Wall
                } else {
                    old(map)@[cell(x, yy)]
                },
        decreases 16 - i,
    {
        map.set(i as u8, y as u8, Tile::Wall);
        i = i + 1;
    }
}

/// Turns column `x` into wall.
pub fn draw_vertical_wall(map: &mut LevelMap, x: usize)
    requires
        old(map)@.len() == 256,
        x < 16,
    ensures
        final(map)@.len() == 256,
        forall|xx: int, y: int|
            0 <= xx < 16 && 0 <= y < 16 ==> #[trigger] final(map)@[cell(xx, y)] == if xx == x {
                Tile::Wall
            } else {
                old(map)@[cell(xx, y)]
            },
{
    let mut row: usize = 0;
    while row < LEVEL_SIZE
        invariant
            row <= 16,
            x < 16,
            map@.len() == 256,
            forall|xx: int, y: int|
                0 <= xx < 16 && 0 <= y < 16 ==> #[trigger] map@[cell(xx, y)] == if xx == x && y
                    < row {
                    Tile::Wall
                } else {
                    old(map)@[cell(xx, y)]
                },
        decreases 16 - row,
    {
        map.set(x as u8, row as u8, Tile::Wall);
        row = row + 1;
    }
}

/// Whether some cell with both coordinates in 1..=13 is floor.
pub open spec fn has_free_cell(m: Seq<Tile>) -> bool {
    exists|x: int, y: int| 1 <= x <= 13 && 1 <= y <= 13 && #[trigger] m[cell(x, y)] == Tile::Floor
}

/// A floor cell with both coordinates in 1..=13, if there is one: first
/// drawn at random, and failing that, after `PLACE_ATTEMPTS` draws, the
/// first in row order.
pub fn place(map: &LevelMap, rng: &mut Rng) -> (r: Position)
    requires
        map@.len() == 256,
    ensures
        1 <= r.x <= 13 && 1 <= r.y <= 13,
        has_free_cell(map@) ==> map@[cell(r.x as int, r.y as int)] == Tile::Floor,
{
    let mut attempt: usize = 0;
    while attempt < PLACE_ATTEMPTS
        invariant
            map@.len() == 256,
        decreases PLACE_ATTEMPTS - attempt,
    {
        let col = rng.next_range(1, LEVEL_SIZE as u8 - 2);
        let row = rng.next_range(1, LEVEL_SIZE as u8 - 2);
        if map.index(col, row) == Tile::Floor {
            return Position::new(col, row);
        }
        attempt = attempt + 1;
    }
    let mut y: u8 = 1;
    while y <= 13
        invariant
            1 <= y <= 14,
            map@.len() == 256,
            forall|xx: int, yy: int|
                1 <= xx <= 13 && 1 <= yy < y ==> #[trigger] map@[cell(xx, yy)] != Tile::Floor,
        decreases 14 - y,
    {
        let mut x: u8 = 1;
        while x <= 13
            invariant
                1 <= x <= 14,
                1 <= y <= 13,
                map@.len() == 256,
                forall|xx: int, yy: int|
                    1 <= xx <= 13 && 1 <= yy < y ==> #[trigger] map@[cell(xx, yy)] != Tile::Floor,
                forall|xx: int| 1 <= xx < x ==> #[trigger] map@[cell(xx, y as int)] != Tile::Floor,
            decreases 14 - x,
        {
            if map.index(x, y) == Tile::Floor {
                return Position::new(x, y);
            }
            x = x + 1;
        }
        y = y + 1;
    }
    Position::new(1, 1)
}

/// The digits of `val` in decimal, most significant first, as ASCII.
pub fn format_u8(val: u8) -> (r: [u8; 3])
    ensures
        r@ == seq![(val / 100 + 48) as u8, (val / 10 % 10 + 48) as u8, (val % 10 + 48) as u8],
{
    let r = [(val / 100) + 48, (val / 10) % 10 + 48, (val % 10) + 48];
    assert(r@ =~= seq![(val / 100 + 48) as u8, (val / 10 % 10 + 48) as u8, (val % 10 + 48) as u8]);
    r
}

/// The image of an ASCII digit; that of a floor cell for any other byte.
pub open spec fn digit_image(digit: u8) -> Seq<u8> {
    if digit == 0x39 {
        tiles::N9@
    } else if digit == 0x38 {
        tiles::N8@
    } else if digit == 0x37 {
        tiles::N7@
    } else if digit == 0x36 {
        tiles::N6@
    } else if digit == 0x35 {
        tiles::N5@
    } else if digit == 0x34 {
        tiles::N4@
    } else if digit == 0x33 {
        tiles::N3@
    } else if digit == 0x32 {
        tiles::N2@
    } else if digit == 0x31 {
        tiles::N1@
    } else if digit == 0x30 {
        tiles::N0@
    } else {
        tiles::FLOOR@
    }
}


/// What a game consists of, as plain values.
pub struct GameView {
    pub cells: Seq<Tile>,
    pub player: Position,
    pub enemies: Seq<Option<Enemy>>,
    pub level: u8,
}

impl GameView {
    /// A level fit to play: walled in, with the player and every enemy inside.
    pub open spec fn wf(&self) -> bool {
        &&& walled(self.cells)
        &&& interior(self.player)
        &&& self.enemies.len() == NUM_ENEMIES
        &&& forall|i: int|
            0 <= i < NUM_ENEMIES && #[trigger] self.enemies[i] is Some ==> interior(
                self.enemies[i]->Some_0.position,
            )
    }
}

/// The cell the player tries to move to, given the direction buttons.
pub open spec fn moved(p: Position, left: bool, right: bool, up: bool, down: bool) -> Position {
    Position {
        x: (p.x - (if left {
            1int
        } else {
            0
        }) + (if right {
            1int
        } else {
            0
        })) as u8,
        y: (p.y - (if up {
            1int
        } else {
            0
        }) + (if down {
            1int
        } else {
            0
        })) as u8,
    }
}

/// Index of the first live enemy at `p` from index `i` on; the length of
/// `es` if there is none.
pub open spec fn first_enemy_from(es: Seq<Option<Enemy>>, p: Position, i: int) -> int
    decreases es.len() - i,
{
    if i >= es.len() || i < 0 {
        es.len() as int
    } else if es[i] == Some(Enemy { position: p }) {
        i
    } else {
        first_enemy_from(es, p, i + 1)
    }
}

/// The player's move: into a wall it is refused, onto the stairs it ends the
/// level, onto an enemy it kills the enemy, otherwise the player moves.
pub open spec fn player_turn(g: GameView, left: bool, right: bool, up: bool, down: bool) -> (
    ContinueState,
    GameView,
) {
    let next = moved(g.player, left, right, up, down);
    let t = g.cells[cell(next.x as int, next.y as int)];
    if t == Tile::Wall {
        (ContinueState::RestartLoop, g)
    } else if t == Tile::Stairs {
        (ContinueState::NewLevel, g)
    } else {
        let i = first_enemy_from(g.enemies, next, 0);
        if i < g.enemies.len() {
            (ContinueState::Continue, GameView { enemies: g.enemies.update(i, None), ..g })
        } else {
            (ContinueState::Continue, GameView { player: next, ..g })
        }
    }
}

/// `a` plus `d` modulo 256: a step of -1, 0 or 1 when `d` comes from `dir`.
pub open spec fn step(a: u8, d: u8) -> u8 {
    ((a + d) % 256) as u8
}

/// An enemy's move: `None` if the player is next to it along a row or
/// column (it attacks); otherwise where it ends up after stepping towards
/// the player, first vertically then horizontally, onto floor only, and
/// never horizontally onto the player.
pub open spec fn enemy_move(m: Seq<Tile>, player: Position, pos: Position) -> Option<Position> {
    let dr = dir(pos.y, player.y);
    let dc = dir(pos.x, player.x);
    if player == (Position { x: step(pos.x, dc), y: pos.y }) || player == (Position {
        x: pos.x,
        y: step(pos.y, dr),
    }) {
        None
    } else {
        let y1 = if dr != 0 && m[cell(pos.x as int, step(pos.y, dr) as int)] == Tile::Floor {
            step(pos.y, dr)
        } else {
            pos.y
        };
        let x1 = if dc != 0 && m[cell(step(pos.x, dc) as int, y1 as int)] == Tile::Floor && player
            != (Position { x: step(pos.x, dc), y: y1 }) {
            step(pos.x, dc)
        } else {
            pos.x
        };
        Some(Position { x: x1, y: y1 })
    }
}

/// The enemies' turn, in order: whether one of them attacks, and the
/// enemies afterwards (those after an attacker do not move).
#[verifier::opaque]
pub open spec fn enemies_turn(m: Seq<Tile>, player: Position, es: Seq<Option<Enemy>>) -> (
    bool,
    Seq<Option<Enemy>>,
)
    decreases es.len(),
{
    if es.len() == 0 {
        (false, es)
    } else {
        let rest = enemies_turn(m, player, es.drop_first());
        match es[0] {
            None => (rest.0, seq![None::<Enemy>] + rest.1),
            Some(e) => match enemy_move(m, player, e.position) {
                None => (true, es),
                Some(p) => (rest.0, seq![Some(Enemy { position: p })] + rest.1),
            },
        }
    }
}

proof fn lemma_enemies_turn_step(m: Seq<Tile>, player: Position, es: Seq<Option<Enemy>>)
    ensures
        es.len() == 0 ==> enemies_turn(m, player, es) == (false, es),
        es.len() > 0 ==> enemies_turn(m, player, es) == ({
            let rest = enemies_turn(m, player, es.drop_first());
            match es[0] {
                None => (rest.0, seq![None::<Enemy>] + rest.1),
                Some(e) => match enemy_move(m, player, e.position) {
                    None => (true, es),
                    Some(p) => (rest.0, seq![Some(Enemy { position: p })] + rest.1),
                },
            }
        }),
{
    reveal_with_fuel(enemies_turn, 1);
}

/// One enemy's move, as `enemy_move` states it.
fn enemy_step(map: &LevelMap, player: Position, pos: Position) -> (r: Option<Position>)
    requires
        walled(map@),
        interior(pos),
    ensures
        r == enemy_move(map@, player, pos),
        r matches Some(p) ==> interior(p),
{
    let dir_row = get_dir(pos.y, player.y);
    let dir_col = get_dir(pos.x, player.x);
    if player == Position::new(pos.x.wrapping_add(dir_col), pos.y) || player == Position::new(
        pos.x,
        pos.y.wrapping_add(dir_row),
    ) {
        return None;
    }
    let mut y = pos.y;
    let mut x = pos.x;
    let next_tile = map.index(x, y.wrapping_add(dir_row));
    if dir_row != 0 && next_tile == Tile::Floor {
        y = y.wrapping_add(dir_row);
    }
    let next_tile = map.index(x.wrapping_add(dir_col), y);
    let next_pos = Position::new(x.wrapping_add(dir_col), y);
    if dir_col != 0 && next_tile == Tile::Floor && player != next_pos {
        x = x.wrapping_add(dir_col);
    }
    proof {
        if y != pos.y {
            lemma_open_cell_is_interior(map@, pos.x as int, y as int);
        }
        if x != pos.x {
            lemma_open_cell_is_interior(map@, x as int, y as int);
        }
    }
    Some(Position::new(x, y))
}

/// Whether no cell of `m` is the stairs.
pub open spec fn no_stairs(m: Seq<Tile>) -> bool {
    forall|x: int, y: int| 0 <= x < 16 && 0 <= y < 16 ==> #[trigger] m[cell(x, y)] != Tile::Stairs
}

/// Whether the stairs lie at `p` and nowhere else in `m`.
pub open spec fn stairs_only_at(m: Seq<Tile>, p: Position) -> bool {
    forall|x: int, y: int|
        0 <= x < 16 && 0 <= y < 16 ==> (#[trigger] m[cell(x, y)] == Tile::Stairs <==> x == p.x
            && y == p.y)
}

/// Whether `p` is a floor cell of `m`.
pub open spec fn on_floor(m: Seq<Tile>, p: Position) -> bool {
    m[cell(p.x as int, p.y as int)] == Tile::Floor
}

/// How many enemies a level has: one per level, up to ten.
pub open spec fn live_enemies(level: u8) -> int {
    if level < NUM_ENEMIES {
        level as int
    } else {
        NUM_ENEMIES as int
    }
}

/// What drawing a screen gives: every write goes to the same slave with a
/// 7-byte command run or a 9-byte tile, so every cell drawn has the same
/// outcome, and the drawing succeeds entirely or fails on its first cell.
pub open spec fn draw_outcome(
    ready: bool,
    acks: bool,
    acked: nat,
    fault: Option<BusFault>,
    fault_at: nat,
) -> Result<(), TWIError> {
    if !ready {
        Err(TWIError::NotReady)
    } else {
        then_outcome(
            error_of(status_for_len(7, acks, acked, fault, fault_at)),
            error_of(status_for_len(9, acks, acked, fault, fault_at)),
        )
    }
}

/// The first row of the level on screen, for a player on row `py`: the
/// player is kept in view, four rows from the top where the level allows.
pub open spec fn screen_top(py: u8) -> int {
    if py > 4 {
        if py - 4 < SCREEN_MAX_Y {
            py - 4
        } else {
            SCREEN_MAX_Y as int
        }
    } else {
        0
    }
}

/// The cells of screen row `y`: each level cell's image, with its column and
/// screen row.
pub open spec fn row_items(g: GameView, top: int, y: int) -> Seq<(Seq<u8>, u8, u8)> {
    Seq::new(
        16,
        |x: int| (tile_image(g.cells[cell(x, y + top)]), x as u8, y as u8),
    )
}

/// The cells of the first `rows` screen rows, row by row.
pub open spec fn screen_items(g: GameView, top: int, rows: nat) -> Seq<(Seq<u8>, u8, u8)>
    decreases rows,
{
    if rows == 0 {
        Seq::empty()
    } else {
        screen_items(g, top, (rows - 1) as nat) + row_items(g, top, rows - 1)
    }
}

/// The player's cell.
pub open spec fn player_item(g: GameView, top: int) -> (Seq<u8>, u8, u8) {
    (tile_image(Tile::Player), g.player.x, (g.player.y - top) as u8)
}

/// The cells of the enemies in the first `n` slots that are in view.
pub open spec fn enemy_items(g: GameView, top: int, n: nat) -> Seq<(Seq<u8>, u8, u8)>
    decreases n,
{
    if n == 0 {
        Seq::empty()
    } else {
        let before = enemy_items(g, top, (n - 1) as nat);
        match g.enemies[n - 1] {
            Some(e) => if e.position.x < 16 && top <= e.position.y < top + 8 {
                before.push(
                    (tile_image(Tile::Enemy), e.position.x, (e.position.y - top) as u8),
                )
            } else {
                before
            },
            None => before,
        }
    }
}

/// Every cell `draw` puts on the display, in order.
pub open spec fn draw_list(g: GameView) -> Seq<(Seq<u8>, u8, u8)> {
    let top = screen_top(g.player.y);
    screen_items(g, top, 8).push(player_item(g, top)) + enemy_items(g, top, NUM_ENEMIES as nat)
}

/// The bus events of drawing one cell: its window command, then its image.
pub open spec fn cell_events(
    address: u8,
    item: (Seq<u8>, u8, u8),
    acks: bool,
    acked: nat,
    fault: Option<BusFault>,
    fault_at: nat,
) -> Seq<BusEvent> {
    expected_events(address, cell_window(item.1, item.2), acks, acked, fault, fault_at)
        + expected_events(address, item.0, acks, acked, fault, fault_at)
}

/// The bus events of drawing every cell of `items` successfully.
pub open spec fn list_events(
    address: u8,
    items: Seq<(Seq<u8>, u8, u8)>,
    acks: bool,
    acked: nat,
    fault: Option<BusFault>,
    fault_at: nat,
) -> Seq<BusEvent>
    decreases items.len(),
{
    if items.len() == 0 {
        Seq::empty()
    } else {
        list_events(address, items.drop_last(), acks, acked, fault, fault_at) + cell_events(
            address,
            items.last(),
            acks,
            acked,
            fault,
            fault_at,
        )
    }
}

/// The bus events of a cell whose drawing fails.
pub open spec fn failed_cell_events(
    ready: bool,
    address: u8,
    item: (Seq<u8>, u8, u8),
    acks: bool,
    acked: nat,
    fault: Option<BusFault>,
    fault_at: nat,
) -> Seq<BusEvent> {
    let window = cell_window(item.1, item.2);
    let e1 = write_events(ready, address, window, acks, acked, fault, fault_at);
    if write_outcome(ready, window, acks, acked, fault, fault_at) is Err {
        e1
    } else {
        e1 + expected_events(address, item.0, acks, acked, fault, fault_at)
    }
}

proof fn lemma_screen_prefix(g: GameView, top: int, rows: nat)
    requires
        rows >= 1,
    ensures
        screen_items(g, top, rows).len() == 16 * rows,
        screen_items(g, top, rows)[0] == row_items(g, top, 0)[0],
    decreases rows,
{
    if rows > 1 {
        lemma_screen_prefix(g, top, (rows - 1) as nat);
    } else {
        assert(screen_items(g, top, 0) =~= Seq::<(Seq<u8>, u8, u8)>::empty());
    }
}

proof fn lemma_draw_outcome(
    x: u8,
    y: u8,
    image: Seq<u8>,
    ready: bool,
    acks: bool,
    acked: nat,
    fault: Option<BusFault>,
    fault_at: nat,
)
    requires
        image.len() == 9,
    ensures
        then_outcome(
            write_outcome(ready, cell_window(x, y), acks, acked, fault, fault_at),
            write_outcome(true, image, acks, acked, fault, fault_at),
        ) == draw_outcome(ready, acks, acked, fault, fault_at),
{
    assert(cell_window(x, y).len() == 7);
}

/// A whole turn: the player's move, then, if the game goes on, the enemies'.
pub open spec fn turn(g: GameView, left: bool, right: bool, up: bool, down: bool) -> (
    ContinueState,
    GameView,
) {
    let (s, g1) = player_turn(g, left, right, up, down);
    if s != ContinueState::Continue {
        (s, g1)
    } else {
        let (attacked, es) = enemies_turn(g1.cells, g1.player, g1.enemies);
        if attacked {
            (ContinueState::GameOver, GameView { enemies: es, ..g1 })
        } else {
            (ContinueState::Continue, GameView { enemies: es, ..g1 })
        }
    }
}

pub struct Game {
    map: LevelMap,
    player_pos: Position,
    enemies: Vec<Option<Enemy>>,
    level: u8,
}

impl Game {
    pub closed spec fn view(&self) -> GameView {
        GameView {
            cells: self.map@,
            player: self.player_pos,
            enemies: self.enemies@,
            level: self.level,
        }
    }

    pub fn title_screen() -> (r: PGMSlice)
        ensures
            r@ == tiles::TITLE_SCREEN@,
    {
        PGMSlice::new(&tiles::TITLE_SCREEN)
    }

    pub fn game_over_screen() -> (r: PGMSlice)
        ensures
            r@ == tiles::GAME_OVER@,
    {
        PGMSlice::new(&tiles::GAME_OVER)
    }

    /// The image of an ASCII digit, or of a floor cell for any other byte.
    pub fn get_digit_tile(digit: u8) -> (r: PGMSlice)
        ensures
            r@ == digit_image(digit),
    {
        if digit == 0x39 {
            PGMSlice::new(&tiles::N9)
        } else if digit == 0x38 {
            PGMSlice::new(&tiles::N8)
        } else if digit == 0x37 {
            PGMSlice::new(&tiles::N7)
        } else if digit == 0x36 {
            PGMSlice::new(&tiles::N6)
        } else if digit == 0x35 {
            PGMSlice::new(&tiles::N5)
        } else if digit == 0x34 {
            PGMSlice::new(&tiles::N4)
        } else if digit == 0x33 {
            PGMSlice::new(&tiles::N3)
        } else if digit == 0x32 {
            PGMSlice::new(&tiles::N2)
        } else if digit == 0x31 {
            PGMSlice::new(&tiles::N1)
        } else if digit == 0x30 {
            PGMSlice::new(&tiles::N0)
        } else {
            PGMSlice::new(&tiles::FLOOR)
        }
    }

    /// A game before its first level: all floor, the player in the corner,
    /// no enemies, level 0.
    pub fn new() -> (r: Game)
        ensures
            r@.cells.len() == 256,
            forall|i: int| 0 <= i < 256 ==> #[trigger] r@.cells[i] == Tile::Floor,
            r@.player == (Position { x: 0, y: 0 }),
            r@.enemies.len() == NUM_ENEMIES,
            forall|i: int| 0 <= i < NUM_ENEMIES ==> #[trigger] r@.enemies[i] is None,
            r@.level == 0,
    {
        let mut cells: Vec<Tile> = Vec::new();
        let mut i: usize = 0;
        while i < LEVEL_SIZE * LEVEL_SIZE
            invariant
                i <= 256,
                cells@.len() == i,
                forall|j: int| 0 <= j < i ==> #[trigger] cells@[j] == Tile::Floor,
            decreases 256 - i,
        {
            cells.push(Tile::Floor);
            i = i + 1;
        }
        let mut enemies: Vec<Option<Enemy>> = Vec::new();
        let mut k: usize = 0;
        while k < NUM_ENEMIES
            invariant
                k <= NUM_ENEMIES,
                enemies@.len() == k,
                forall|j: int| 0 <= j < k ==> #[trigger] enemies@[j] is None,
            decreases NUM_ENEMIES - k,
        {
            enemies.push(None);
            k = k + 1;
        }
        Game { map: LevelMap(cells), player_pos: Position::new(0, 0), enemies, level: 0 }
    }

    pub fn tile_at(&self, x: u8, y: u8) -> (r: Tile)
        requires
            self@.cells.len() == 256,
            x < 16,
            y < 16,
        ensures
            r == self@.cells[cell(x as int, y as int)],
    {
        self.map.index(x, y)
    }

    pub fn player_position(&self) -> (r: Position)
        ensures
            r == self@.player,
    {
        self.player_pos
    }

    /// The enemy in slot `i`, if it is alive.
    pub fn enemy(&self, i: usize) -> (r: Option<Enemy>)
        requires
            i < self@.enemies.len(),
        ensures
            r == self@.enemies[i as int],
    {
        self.enemies[i]
    }

    pub fn level(&self) -> (r: u8)
        ensures
            r == self@.level,
    {
        self.level
    }

    /// Starts the count of levels again.
    pub fn reset(&mut self)
        ensures
            final(self)@ == (GameView { level: 0, ..old(self)@ }),
    {
        self.level = 0;
    }

    /// Plays one turn on the pressed buttons of `input`.
    #[verifier::rlimit(40)]
    pub fn update(&mut self, input: &Input) -> (r: ContinueState)
        requires
            old(self)@.wf(),
        ensures
            final(self)@.wf(),
            (r, final(self)@) == turn(
                old(self)@,
                input.spec_left(),
                input.spec_right(),
                input.spec_up(),
                input.spec_down(),
            ),
    {
        match self.handle_player(input) {
            ContinueState::Continue => {},
            state => {
                return state;
            },
        }
        self.handle_enemy()
    }

    fn handle_player(&mut self, input: &Input) -> (r: ContinueState)
        requires
            old(self)@.wf(),
        ensures
            final(self)@.wf(),
            (r, final(self)@) == player_turn(
                old(self)@,
                input.spec_left(),
                input.spec_right(),
                input.spec_up(),
                input.spec_down(),
            ),
    {
        let mut next_pos = self.player_pos;
        if input.left() {
            next_pos.x = next_pos.x - 1;
        }
        if input.right() {
            next_pos.x = next_pos.x + 1;
        }
        if input.up() {
            next_pos.y = next_pos.y - 1;
        }
        if input.down() {
            next_pos.y = next_pos.y + 1;
        }
        let tile = self.map.index(next_pos.x, next_pos.y);
        match tile {
            Tile::Wall => {
                return ContinueState::RestartLoop;
            },
            Tile::Stairs => {
                return ContinueState::NewLevel;
            },
            _ => {},
        }
        proof {
            lemma_open_cell_is_interior(self.map@, next_pos.x as int, next_pos.y as int);
        }
        let mut i: usize = 0;
        while i < NUM_ENEMIES
            invariant
                i <= NUM_ENEMIES,
                self@ == old(self)@,
                self@.wf(),
                self.enemies@.len() == NUM_ENEMIES,
                self.map@.len() == 256,
                interior(next_pos),
                next_pos == moved(
                    old(self)@.player,
                    input.spec_left(),
                    input.spec_right(),
                    input.spec_up(),
                    input.spec_down(),
                ),
                old(self)@.cells[cell(next_pos.x as int, next_pos.y as int)] != Tile::Wall,
                old(self)@.cells[cell(next_pos.x as int, next_pos.y as int)] != Tile::Stairs,
                first_enemy_from(self@.enemies, next_pos, 0) == first_enemy_from(
                    self@.enemies,
                    next_pos,
                    i as int,
                ),
            decreases NUM_ENEMIES - i,
        {
            if self.enemies[i] == Some(Enemy { position: next_pos }) {
                let ghost before = self.enemies@;
                self.enemies.set(i, None);
                proof {
                    assert forall|j: int|
                        0 <= j < NUM_ENEMIES && #[trigger] self.enemies@[j] is Some implies interior(
                        self.enemies@[j]->Some_0.position,
                    ) by {
                        assert(before[j] == self.enemies@[j]);
                    }
                }
                return ContinueState::Continue;
            }
            i = i + 1;
        }
        self.player_pos = next_pos;
        ContinueState::Continue
    }

    fn handle_enemy(&mut self) -> (r: ContinueState)
        requires
            old(self)@.wf(),
        ensures
            final(self)@.wf(),
            ({
                let g = old(self)@;
                let (attacked, es) = enemies_turn(g.cells, g.player, g.enemies);
                &&& r == (if attacked {
                    ContinueState::GameOver
                } else {
                    ContinueState::Continue
                })
                &&& final(self)@ == GameView { enemies: es, ..g }
            }),
    {
        let ghost orig = self.enemies@;
        let ghost m = self.map@;
        let ghost pl = self.player_pos;
        proof {
            assert(orig.skip(0) =~= orig);
            assert(self.enemies@.take(0) + enemies_turn(m, pl, orig).1 =~= enemies_turn(m, pl, orig).1);
        }
        let mut i: usize = 0;
        while i < NUM_ENEMIES
            invariant
                i <= NUM_ENEMIES,
                walled(m),
                interior(pl),
                forall|j: int|
                    0 <= j < NUM_ENEMIES && #[trigger] self.enemies@[j] is Some ==> interior(
                        self.enemies@[j]->Some_0.position,
                    ),
                self.map@ == m,
                self.player_pos == pl,
                self.level == old(self).level,
                m == old(self)@.cells,
                pl == old(self)@.player,
                self@.level == old(self)@.level,
                orig == old(self)@.enemies,
                orig.len() == NUM_ENEMIES,
                self.enemies@.len() == NUM_ENEMIES,
                self.enemies@.skip(i as int) == orig.skip(i as int),
                enemies_turn(m, pl, orig) == (
                    enemies_turn(m, pl, orig.skip(i as int)).0,
                    self.enemies@.take(i as int) + enemies_turn(m, pl, orig.skip(i as int)).1,
                ),
            decreases NUM_ENEMIES - i,
        {
            let ghost cur = self.enemies@;
            let ghost rest = orig.skip(i as int);
            let ghost t1 = enemies_turn(m, pl, orig.skip(i + 1));
            proof {
                assert(rest.drop_first() =~= orig.skip(i + 1));
                assert(rest[0] == cur[i as int]) by {
                    assert(cur.skip(i as int)[0] == cur[i as int]);
                }
                lemma_enemies_turn_step(m, pl, rest);
            }
            match self.enemies[i] {
                None => {
                    proof {
                        assert(cur.skip(i + 1) =~= cur.skip(i as int).drop_first());
                        assert(cur.take(i + 1) =~= cur.take(i as int) + seq![None::<Enemy>]);
                        assert(cur.take(i as int) + (seq![None::<Enemy>] + t1.1) =~= cur.take(i + 1)
                            + t1.1);
                    }
                },
                Some(e) => {
                    match enemy_step(&self.map, self.player_pos, e.position) {
                        None => {
                            proof {
                                assert(cur =~= cur.take(i as int) + rest);
                            }
                            return ContinueState::GameOver;
                        },
                        Some(p) => {
                            self.enemies.set(i, Some(Enemy { position: p }));
                            proof {
                                let now = self.enemies@;
                                assert(now.take(i as int) =~= cur.take(i as int));
                                assert(now.take(i + 1) =~= cur.take(i as int) + seq![
                                    Some(Enemy { position: p }),
                                ]);
                                assert(now.skip(i + 1) =~= orig.skip(i + 1)) by {
                                    assert(cur.skip(i + 1) =~= cur.skip(i as int).drop_first());
                                    assert(now.skip(i + 1) =~= cur.skip(i + 1));
                                }
                                assert(cur.take(i as int) + (seq![Some(Enemy { position: p })]
                                    + t1.1) =~= now.take(i + 1) + t1.1);
                                assert forall|j: int|
                                    0 <= j < NUM_ENEMIES && #[trigger] now[j] is Some implies interior(
                                    now[j]->Some_0.position,
                                ) by {
                                    if j != i {
                                        assert(cur[j] == now[j]);
                                    }
                                }
                            }
                        },
                    }
                },
            }
            i = i + 1;
        }
        proof {
            assert(orig.skip(10) =~= Seq::<Option<Enemy>>::empty());
            lemma_enemies_turn_step(m, pl, orig.skip(10));
            assert(self.enemies@.take(10) =~= self.enemies@);
            assert(self.enemies@ + Seq::<Option<Enemy>>::empty() =~= self.enemies@);
        }
        ContinueState::Continue
    }

    /// Lays out the next level: border walls, one inner wall across and one
    /// down (at rows and columns 2 to 13), each with a door on either side of
    /// their crossing, the stairs, the player, and one enemy per level up to
    /// ten; the level count goes up by one.
    pub fn new_map(&mut self, rng: &mut Rng)
        requires
            old(self)@.cells.len() == 256,
            old(self)@.enemies.len() == NUM_ENEMIES,
            old(self)@.level < 255,
        ensures
            final(self)@.wf(),
            final(self)@.level == old(self)@.level + 1,
            forall|i: int|
                0 <= i < NUM_ENEMIES ==> (#[trigger] final(self)@.enemies[i] is Some <==> i
                    < live_enemies(final(self)@.level)),
            on_floor(final(self)@.cells, final(self)@.player),
            1 <= final(self)@.player.x <= 13 && 1 <= final(self)@.player.y <= 13,
            exists|p: Position|
                1 <= p.x <= 13 && 1 <= p.y <= 13 && #[trigger] stairs_only_at(final(self)@.cells, p),
            forall|i: int|
                0 <= i < NUM_ENEMIES && #[trigger] final(self)@.enemies[i] is Some ==> on_floor(
                    final(self)@.cells,
                    final(self)@.enemies[i]->Some_0.position,
                ),
    {
        let mut k: usize = 0;
        while k < LEVEL_SIZE * LEVEL_SIZE
            invariant
                k <= 256,
                self.map@.len() == 256,
                self.level == old(self).level,
                self.enemies@.len() == NUM_ENEMIES,
                forall|j: int| 0 <= j < k ==> #[trigger] self.map@[j] == Tile::Floor,
            decreases 256 - k,
        {
            self.map.0.set(k, Tile::Floor);
            k = k + 1;
        }
        draw_horizontal_wall(&mut self.map, 0);
        draw_horizontal_wall(&mut self.map, LEVEL_SIZE - 1);
        draw_vertical_wall(&mut self.map, 0);
        draw_vertical_wall(&mut self.map, LEVEL_SIZE - 1);
        assert(walled(self.map@));
        assert(no_stairs(self.map@));
        let row = rng.next_range(2, LEVEL_SIZE as u8 - 2);
        let col = rng.next_range(2, LEVEL_SIZE as u8 - 2);
        draw_horizontal_wall(&mut self.map, row as usize);
        assert(walled(self.map@));
        assert(no_stairs(self.map@));
        let door_col = rng.next_range(1, col);
        proof {
            lemma_set_inside_keeps_walled(self.map@, door_col as int, row as int, Tile::Floor);
        }
        self.map.set(door_col, row, Tile::Floor);
        assert(no_stairs(self.map@));
        let ghost d1 = door_col;
        let door_col = rng.next_range(col + 1, LEVEL_SIZE as u8 - 1);
        proof {
            lemma_set_inside_keeps_walled(self.map@, door_col as int, row as int, Tile::Floor);
        }
        self.map.set(door_col, row, Tile::Floor);
        assert(no_stairs(self.map@));
        draw_vertical_wall(&mut self.map, col as usize);
        assert(walled(self.map@));
        assert(no_stairs(self.map@));
        let door_row = rng.next_range(1, row);
        proof {
            lemma_set_inside_keeps_walled(self.map@, col as int, door_row as int, Tile::Floor);
        }
        self.map.set(col, door_row, Tile::Floor);
        assert(no_stairs(self.map@));
        let ghost d3 = door_row;
        assert(self.map@[cell(d1 as int, row as int)] == Tile::Floor);
        let door_row = rng.next_range(row + 1, LEVEL_SIZE as u8 - 1);
        proof {
            lemma_set_inside_keeps_walled(self.map@, col as int, door_row as int, Tile::Floor);
        }
        self.map.set(col, door_row, Tile::Floor);
        assert(no_stairs(self.map@));
        assert(self.map@[cell(d1 as int, row as int)] == Tile::Floor);
        assert(self.map@[cell(col as int, d3 as int)] == Tile::Floor);
        assert(no_stairs(self.map@));
        let stair_loc = place(&self.map, rng);
        proof {
            lemma_set_inside_keeps_walled(self.map@, stair_loc.x as int, stair_loc.y as int, Tile::Stairs);
        }
        self.map.set(stair_loc.x, stair_loc.y, Tile::Stairs);
        proof {
            if stair_loc.x != d1 || stair_loc.y != row {
                assert(self.map@[cell(d1 as int, row as int)] == Tile::Floor);
            } else {
                assert(self.map@[cell(col as int, d3 as int)] == Tile::Floor);
            }
            assert(has_free_cell(self.map@));
            assert(stairs_only_at(self.map@, stair_loc));
        }
        let ghost level_map = self.map@;
        self.level = self.level + 1;
        self.player_pos = place(&self.map, rng);
        let enemy_count: usize = if (self.level as usize) < NUM_ENEMIES {
            self.level as usize
        } else {
            NUM_ENEMIES
        };
        let mut i: usize = 0;
        while i < NUM_ENEMIES
            invariant
                i <= NUM_ENEMIES,
                enemy_count <= NUM_ENEMIES,
                enemy_count == live_enemies(self.level),
                walled(self.map@),
                self.map@ == level_map,
                stairs_only_at(level_map, stair_loc),
                1 <= stair_loc.x <= 13 && 1 <= stair_loc.y <= 13,
                1 <= self.player_pos.x <= 13 && 1 <= self.player_pos.y <= 13,
                has_free_cell(self.map@),
                interior(self.player_pos),
                self.map@[cell(self.player_pos.x as int, self.player_pos.y as int)] == Tile::Floor,
                self.level == old(self)@.level + 1,
                self.enemies@.len() == NUM_ENEMIES,
                forall|j: int|
                    0 <= j < i && #[trigger] self.enemies@[j] is Some ==> self.map@[cell(
                        self.enemies@[j]->Some_0.position.x as int,
                        self.enemies@[j]->Some_0.position.y as int,
                    )] == Tile::Floor,
                forall|j: int|
                    0 <= j < i ==> (#[trigger] self.enemies@[j] is Some <==> j < enemy_count),
                forall|j: int|
                    0 <= j < i && #[trigger] self.enemies@[j] is Some ==> interior(
                        self.enemies@[j]->Some_0.position,
                    ),
            decreases NUM_ENEMIES - i,
        {
            if i < enemy_count {
                let p = place(&self.map, rng);
                self.enemies.set(i, Some(Enemy { position: p }));
            } else {
                self.enemies.set(i, None);
            }
            i = i + 1;
        }
        assert(stairs_only_at(self@.cells, stair_loc));
    }

    /// Draws the visible part of the level (all 16 columns, the 8 rows
    /// around the player), row by row, then the player, then every enemy in
    /// view, in slot order: the cells of `draw_list`. All tile images are 9
    /// bytes, so every cell has the same outcome; the first failure ends the
    /// drawing.
    #[verifier::rlimit(100)]
    pub fn draw(
        &self,
        display: &mut Display,
        twi: &mut TWI,
        mcu: &mut Mcu,
        bus: &mut SimBus,
    ) -> (r: Result<(), TWIError>)
        requires
            self@.wf(),
            old(mcu).wf(),
        ensures
            final(mcu).wf(),
            final(mcu).agrees_apart_from_twi(old(mcu)),
            final(mcu).twi.address == old(mcu).twi.address,
            final(bus).same_slave(&*old(bus)),
            ({
                let ready = old(mcu).twi.state == TwiState::Ready;
                let acks = old(bus).acks_address;
                let acked = old(bus).acked_bytes as nat;
                let fault = old(bus).fault;
                let fault_at = old(bus).fault_at as nat;
                let addr = old(mcu).twi.address;
                &&& r == draw_outcome(ready, acks, acked, fault, fault_at)
                &&& r is Ok ==> final(bus).events@ == old(bus).events@ + list_events(
                    addr,
                    draw_list(self@),
                    acks,
                    acked,
                    fault,
                    fault_at,
                )
                &&& r is Err ==> final(bus).events@ == old(bus).events@ + failed_cell_events(
                    ready,
                    addr,
                    draw_list(self@)[0],
                    acks,
                    acked,
                    fault,
                    fault_at,
                )
            }),
    {
        let ghost ready = mcu.twi.state == TwiState::Ready;
        let ghost acks = bus.acks_address;
        let ghost acked = bus.acked_bytes as nat;
        let ghost fault = bus.fault;
        let ghost fault_at = bus.fault_at as nat;
        let ghost addr = mcu.twi.address;
        let ghost e0 = bus.events@;
        let ghost g = self@;
        let ghost mut done = false;
        let py = self.player_pos.y as usize;
        let px = self.player_pos.x as usize;
        let below = if py > SCREEN_HEIGHT / 2 {
            py - SCREEN_HEIGHT / 2
        } else {
            0
        };
        let offset_y: usize = if below < SCREEN_MAX_Y {
            below
        } else {
            SCREEN_MAX_Y
        };
        let left = if px > SCREEN_WIDTH / 2 {
            px - SCREEN_WIDTH / 2
        } else {
            0
        };
        let offset_x: usize = if left < SCREEN_MAX_X {
            left
        } else {
            SCREEN_MAX_X
        };
        assert(offset_y == screen_top(g.player.y));
        proof {
            assert(draw_list(g)[0] == row_items(g, offset_y as int, 0)[0]) by {
                lemma_screen_prefix(g, offset_y as int, 8);
                lemma_screen_prefix(g, offset_y as int, 1);
                assert(screen_items(g, offset_y as int, 0) =~= Seq::<(Seq<u8>, u8, u8)>::empty());
            };
            assert(screen_items(g, offset_y as int, 0) =~= Seq::<(Seq<u8>, u8, u8)>::empty());
            assert(row_items(g, offset_y as int, 0).take(0) =~= Seq::<(Seq<u8>, u8, u8)>::empty());
        }
        let mut y: usize = 0;
        while y < SCREEN_HEIGHT
            invariant
                y <= SCREEN_HEIGHT,
                offset_y == screen_top(g.player.y),
                offset_y <= SCREEN_MAX_Y,
                offset_x == 0,
                g == self@,
                self.map@.len() == 256,
                self.enemies@.len() == NUM_ENEMIES,
                mcu.wf(),
                mcu.agrees_apart_from_twi(old(mcu)),
                mcu.twi.address == addr,
                addr == old(mcu).twi.address,
                bus.same_slave(&*old(bus)),
                acks == old(bus).acks_address,
                acked == old(bus).acked_bytes,
                fault == old(bus).fault,
                fault_at == old(bus).fault_at,
                e0 == old(bus).events@,
                ready == (old(mcu).twi.state == TwiState::Ready),
                draw_list(g)[0] == row_items(g, offset_y as int, 0)[0],
                done ==> draw_outcome(ready, acks, acked, fault, fault_at) is Ok && mcu.twi.state
                    == TwiState::Ready,
                !done ==> mcu.twi.state == old(mcu).twi.state && bus.events@ == e0,
                y > 0 ==> done,
                bus.events@ == e0 + list_events(
                    addr,
                    screen_items(g, offset_y as int, y as nat),
                    acks,
                    acked,
                    fault,
                    fault_at,
                ),
            decreases SCREEN_HEIGHT - y,
        {
            let mut x: usize = 0;
            proof {
                assert(row_items(g, offset_y as int, y as int).take(0) =~= Seq::<
                    (Seq<u8>, u8, u8),
                >::empty());
                assert(screen_items(g, offset_y as int, y as nat) + row_items(
                    g,
                    offset_y as int,
                    y as int,
                ).take(0) =~= screen_items(g, offset_y as int, y as nat));
            }
            while x < SCREEN_WIDTH
                invariant
                    x <= SCREEN_WIDTH,
                    y < SCREEN_HEIGHT,
                    offset_y == screen_top(g.player.y),
                    offset_y <= SCREEN_MAX_Y,
                    offset_x == 0,
                    g == self@,
                    self.map@.len() == 256,
                    mcu.wf(),
                    mcu.agrees_apart_from_twi(old(mcu)),
                    mcu.twi.address == addr,
                    addr == old(mcu).twi.address,
                    bus.same_slave(&*old(bus)),
                    acks == old(bus).acks_address,
                    acked == old(bus).acked_bytes,
                    fault == old(bus).fault,
                    fault_at == old(bus).fault_at,
                    e0 == old(bus).events@,
                    ready == (old(mcu).twi.state == TwiState::Ready),
                    draw_list(g)[0] == row_items(g, offset_y as int, 0)[0],
                    done ==> draw_outcome(ready, acks, acked, fault, fault_at) is Ok
                        && mcu.twi.state == TwiState::Ready,
                    !done ==> mcu.twi.state == old(mcu).twi.state && bus.events@ == e0,
                    (y > 0 || x > 0) ==> done,
                    bus.events@ == e0 + list_events(
                        addr,
                        screen_items(g, offset_y as int, y as nat) + row_items(
                            g,
                            offset_y as int,
                            y as int,
                        ).take(x as int),
                        acks,
                        acked,
                        fault,
                        fault_at,
                    ),
                decreases SCREEN_WIDTH - x,
            {
                let tile = self.map.index((x + offset_x) as u8, (y + offset_y) as u8);
                let image = tile.graphic();
                let ghost before = bus.events@;
                let ghost prefix = screen_items(g, offset_y as int, y as nat) + row_items(
                    g,
                    offset_y as int,
                    y as int,
                ).take(x as int);
                let ghost item = row_items(g, offset_y as int, y as int)[x as int];
                assert(item == (image@, x as u8, y as u8));
                let res = display.draw_tile(twi, mcu, bus, &image, x as u8, y as u8);
                proof {
                    lemma_draw_outcome(
                        x as u8,
                        y as u8,
                        image@,
                        mcu.twi.state == TwiState::Ready,
                        acks,
                        acked,
                        fault,
                        fault_at,
                    );
                }
                match res {
                    Ok(()) => {},
                    Err(e) => {
                        proof {
                            assert(!done);
                            assert(x == 0 && y == 0);
                            assert(bus.events@ =~= old(bus).events@ + failed_cell_events(
                                ready,
                                addr,
                                draw_list(g)[0],
                                acks,
                                acked,
                                fault,
                                fault_at,
                            ));
                        }
                        return Err(e);
                    },
                }
                proof {
                    assert(prefix.push(item) =~= screen_items(g, offset_y as int, y as nat)
                        + row_items(g, offset_y as int, y as int).take(x + 1));
                    assert(prefix.push(item).drop_last() =~= prefix);
                    assert(bus.events@ =~= e0 + list_events(
                        addr,
                        prefix.push(item),
                        acks,
                        acked,
                        fault,
                        fault_at,
                    ));
                    done = true;
                }
                x = x + 1;
            }
            proof {
                assert(row_items(g, offset_y as int, y as int).take(16) =~= row_items(
                    g,
                    offset_y as int,
                    y as int,
                ));
            }
            y = y + 1;
        }
        let image = Tile::Player.graphic();
        let ghost screen = screen_items(g, offset_y as int, 8);
        let ghost pitem = (image@, (px - offset_x) as u8, (py - offset_y) as u8);
        let res = display.draw_tile(
            twi,
            mcu,
            bus,
            &image,
            (px - offset_x) as u8,
            (py - offset_y) as u8,
        );
        proof {
            lemma_draw_outcome(
                (px - offset_x) as u8,
                (py - offset_y) as u8,
                image@,
                true,
                acks,
                acked,
                fault,
                fault_at,
            );
        }
        match res {
            Ok(()) => {},
            Err(e) => {
                return Err(e);
            },
        }
        proof {
            assert(screen.push(pitem).drop_last() =~= screen);
            assert(bus.events@ =~= e0 + list_events(
                addr,
                screen.push(pitem),
                acks,
                acked,
                fault,
                fault_at,
            ));
            assert(enemy_items(g, offset_y as int, 0) =~= Seq::<(Seq<u8>, u8, u8)>::empty());
            assert(screen.push(pitem) + enemy_items(g, offset_y as int, 0) =~= screen.push(pitem));
        }
        let mut i: usize = 0;
        while i < NUM_ENEMIES
            invariant
                i <= NUM_ENEMIES,
                offset_y == screen_top(g.player.y),
                offset_y <= SCREEN_MAX_Y,
                offset_x == 0,
                g == self@,
                g.wf(),
                self.enemies@.len() == NUM_ENEMIES,
                mcu.wf(),
                mcu.agrees_apart_from_twi(old(mcu)),
                mcu.twi.address == addr,
                addr == old(mcu).twi.address,
                bus.same_slave(&*old(bus)),
                acks == old(bus).acks_address,
                acked == old(bus).acked_bytes,
                fault == old(bus).fault,
                fault_at == old(bus).fault_at,
                e0 == old(bus).events@,
                screen == screen_items(g, offset_y as int, 8),
                pitem == player_item(g, offset_y as int),
                ready == (old(mcu).twi.state == TwiState::Ready),
                draw_outcome(ready, acks, acked, fault, fault_at) is Ok,
                mcu.twi.state == TwiState::Ready,
                bus.events@ == e0 + list_events(
                    addr,
                    screen.push(pitem) + enemy_items(g, offset_y as int, i as nat),
                    acks,
                    acked,
                    fault,
                    fault_at,
                ),
            decreases NUM_ENEMIES - i,
        {
            let ghost before = screen.push(pitem) + enemy_items(g, offset_y as int, i as nat);
            match self.enemies[i] {
                Some(e) => {
                    let ex = e.position.x as usize;
                    let ey = e.position.y as usize;
                    if offset_x <= ex && ex < offset_x + SCREEN_WIDTH && offset_y <= ey && ey
                        < offset_y + SCREEN_HEIGHT {
                        let image = Tile::Enemy.graphic();
                        let ghost eitem = (image@, (ex - offset_x) as u8, (ey - offset_y) as u8);
                        let res = display.draw_tile(
                            twi,
                            mcu,
                            bus,
                            &image,
                            (ex - offset_x) as u8,
                            (ey - offset_y) as u8,
                        );
                        proof {
                            lemma_draw_outcome(
                                (ex - offset_x) as u8,
                                (ey - offset_y) as u8,
                                image@,
                                true,
                                acks,
                                acked,
                                fault,
                                fault_at,
                            );
                        }
                        match res {
                            Ok(()) => {},
                            Err(e) => {
                                return Err(e);
                            },
                        }
                        proof {
                            assert(enemy_items(g, offset_y as int, (i + 1) as nat) =~= enemy_items(
                                g,
                                offset_y as int,
                                i as nat,
                            ).push(eitem));
                            assert(before.push(eitem) =~= screen.push(pitem) + enemy_items(
                                g,
                                offset_y as int,
                                (i + 1) as nat,
                            ));
                            assert(before.push(eitem).drop_last() =~= before);
                            assert(bus.events@ =~= e0 + list_events(
                                addr,
                                before.push(eitem),
                                acks,
                                acked,
                                fault,
                                fault_at,
                            ));
                        }
                    } else {
                        proof {
                            assert(enemy_items(g, offset_y as int, (i + 1) as nat) =~= enemy_items(
                                g,
                                offset_y as int,
                                i as nat,
                            ));
                        }
                    }
                },
                None => {
                    proof {
                        assert(enemy_items(g, offset_y as int, (i + 1) as nat) =~= enemy_items(
                            g,
                            offset_y as int,
                            i as nat,
                        ));
                    }
                },
            }
            i = i + 1;
        }
        proof {
            assert(draw_list(g) == screen.push(pitem) + enemy_items(g, offset_y as int, 10));
        }
        Ok(())
    }
}

} // verus!
