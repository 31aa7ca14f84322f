//! Board geometry and the deterministic simulation stepper.
//!
//! Every player owns a growing trail of occupied cells; once per frame the
//! stepper moves every surviving head one cell, detects crashes against the
//! arena border and against trails, and reports who is left. The stepper is
//! deterministic: it consumes only the per-player directions that the
//! session machinery has already synchronized.

use vstd::prelude::*;

verus! {

/// A board coordinate: column, then row.
pub type Point = (i32, i32);

/// Index of a player in the game's player list.
pub type PlayerIndex = usize;

/// Trail coordinates never leave this band, which keeps one more step free
/// of arithmetic overflow.
pub const COORD_LIMIT: i32 = 1_000_000;

/// One of the four cardinal movement directions.
#[derive(Clone, Copy, PartialEq, Eq, Structural, Debug)]
pub enum Direction {
    Up,
    Left,
    Down,
    Right,
}

impl Direction {
    /// Horizontal displacement of one step in this direction.
    pub open spec fn spec_dx(self) -> int {
        match self {
            Direction::Left => -1,
            Direction::Right => 1,
            _ => 0,
        }
    }

    /// Vertical displacement of one step in this direction.
    pub open spec fn spec_dy(self) -> int {
        match self {
            Direction::Up => -1,
            Direction::Down => 1,
            _ => 0,
        }
    }

    /// Horizontal displacement of one step in this direction.
    pub fn dx(self) -> (d: i32)
        ensures
            d as int == self.spec_dx(),
    {
        match self {
            Direction::Left => -1,
            Direction::Right => 1,
            _ => 0,
        }
    }

    /// Vertical displacement of one step in this direction.
    pub fn dy(self) -> (d: i32)
        ensures
            d as int == self.spec_dy(),
    {
        match self {
            Direction::Up => -1,
            Direction::Down => 1,
            _ => 0,
        }
    }
}

/// A board coordinate as a pair of unbounded integers.
pub open spec fn cell(c: Point) -> (int, int) {
    (c.0 as int, c.1 as int)
}

/// The cell one step away from `point` in `direction`.
pub open spec fn spec_translated(point: (int, int), direction: Direction) -> (int, int) {
    (point.0 + direction.spec_dx(), point.1 + direction.spec_dy())
}

/// The cell one step away from `point` in `direction`.
pub fn translated(point: Point, direction: Direction) -> (r: Point)
    requires
        i32::MIN < point.0 < i32::MAX,
        i32::MIN < point.1 < i32::MAX,
    ensures
        cell(r) == spec_translated(cell(point), direction),
{
    (point.0 + direction.dx(), point.1 + direction.dy())
}

/// The trail state of one player, as the stepper sees it: the occupied
/// cells in the order they were claimed (the head last), the current
/// direction, and whether the player has crashed.
#[verifier::ext_equal]
pub ghost struct PlayerView {
    pub line: Seq<(int, int)>,
    pub direction: Direction,
    pub crashed: bool,
}

/// One participant: a named trail that grows by one cell per frame until it
/// crashes, and then stays on the board as an obstacle.
pub struct Player {
    /// Display name, carried along untouched.
    pub name: String,
    /// The occupied cells in the order they were claimed; the head is last.
    pub line: Vec<Point>,
    /// Where the head moves next frame.
    pub direction: Direction,
    /// A crashed player no longer moves; its trail remains.
    pub crashed: bool,
}

impl View for Player {
    type V = PlayerView;

    open spec fn view(&self) -> PlayerView {
        PlayerView {
            line: self.line@.map_values(|c: Point| cell(c)),
            direction: self.direction,
            crashed: self.crashed,
        }
    }
}

/// The trail states of a list of players.
pub open spec fn players_view(players: Seq<Player>) -> Seq<PlayerView> {
    players.map_values(|p: Player| p@)
}

/// Whether a coordinate stays inside the overflow-safe band.
pub open spec fn in_coord_band(c: (int, int)) -> bool {
    &&& -(COORD_LIMIT as int) <= c.0 <= COORD_LIMIT as int
    &&& -(COORD_LIMIT as int) <= c.1 <= COORD_LIMIT as int
}

/// A player the stepper can still move: a nonempty trail whose head, while
/// the player lives, sits inside the overflow-safe band.
pub open spec fn player_state_ok(p: PlayerView) -> bool {
    &&& p.line.len() >= 1
    &&& !p.crashed ==> in_coord_band(p.line.last())
}

impl Player {
    /// A fresh one-cell trail at the given spawn cell and direction.
    pub fn new(name: String, start_position: (Point, Direction)) -> (p: Self)
        ensures
            p@.line =~= seq![cell(start_position.0)],
            p@.direction == start_position.1,
            !p@.crashed,
            p.name == name,
    {
        let mut line: Vec<Point> = Vec::new();
        line.push(start_position.0);
        Player { name, line, direction: start_position.1, crashed: false }
    }

    /// The cell the player occupies most recently.
    pub fn head(&self) -> (h: Point)
        requires
            self@.line.len() >= 1,
        ensures
            cell(h) == self@.line.last(),
    {
        self.line[self.line.len() - 1]
    }

    /// The cell the head moves to next.
    pub fn next_position(&self) -> (r: Point)
        requires
            self@.line.len() >= 1,
            in_coord_band(self@.line.last()),
        ensures
            cell(r) == spec_translated(self@.line.last(), self.direction),
    {
        translated(self.head(), self.direction)
    }

    /// Claims the next cell as the new head.
    pub fn advance_one_step(&mut self)
        requires
            old(self)@.line.len() >= 1,
            in_coord_band(old(self)@.line.last()),
        ensures
            final(self)@.line =~= old(self)@.line.push(
                spec_translated(old(self)@.line.last(), old(self).direction),
            ),
            final(self)@.direction == old(self)@.direction,
            final(self)@.crashed == old(self)@.crashed,
            final(self).name == old(self).name,
    {
        let next = self.next_position();
        self.line.push(next);
    }
}

/// Where a player spawns and which way it first moves, relative to the
/// arena.
pub enum StartPosition {
    North,
    West,
    South,
    East,
}

impl StartPosition {
    /// The direction this spawn first moves in: toward the middle.
    pub open spec fn spec_direction(self) -> Direction {
        match self {
            StartPosition::North => Direction::Down,
            StartPosition::West => Direction::Right,
            StartPosition::South => Direction::Up,
            StartPosition::East => Direction::Left,
        }
    }

    /// The spawn cell on an arena of the given size: the middle of the
    /// chosen edge.
    pub open spec fn spec_resolve(self, size: (u16, u16)) -> ((int, int), Direction) {
        let c = match self {
            StartPosition::North => (size.0 as int / 2, 0int),
            StartPosition::West => (0int, size.1 as int / 2),
            StartPosition::South => (size.0 as int / 2, size.1 as int - 1),
            StartPosition::East => (size.0 as int - 1, size.1 as int / 2),
        };
        (c, self.spec_direction())
    }

    /// The spawn cell and first direction on an arena of the given size.
    pub fn resolve(&self, size: (u16, u16)) -> (r: (Point, Direction))
        requires
            size.0 >= 1,
            size.1 >= 1,
        ensures
            (cell(r.0), r.1) == self.spec_resolve(size),
    {
        match self {
            StartPosition::North => (((size.0 / 2) as i32, 0), Direction::Down),
            StartPosition::West => ((0, (size.1 / 2) as i32), Direction::Right),
            StartPosition::South => (((size.0 / 2) as i32, (size.1 - 1) as i32), Direction::Up),
            StartPosition::East => (((size.0 - 1) as i32, (size.1 / 2) as i32), Direction::Left),
        }
    }

    /// The direction this spawn first moves in.
    pub fn direction(&self) -> (d: Direction)
        ensures
            d == self.spec_direction(),
    {
        match self {
            StartPosition::North => Direction::Down,
            StartPosition::West => Direction::Right,
            StartPosition::South => Direction::Up,
            StartPosition::East => Direction::Left,
        }
    }
}

/// Whether a cell lies strictly inside the arena, off the one-cell border.
pub open spec fn spec_in_bounds(c: (int, int), size: (u16, u16)) -> bool {
    &&& c.0 > 0
    &&& c.1 > 0
    &&& c.0 < size.0 as int - 1
    &&& c.1 < size.1 as int - 1
}

/// Every player moved one step: each surviving trail grows by the cell its
/// head points at; crashed players stay put.
pub open spec fn advanced_player(p: PlayerView) -> PlayerView {
    if p.crashed {
        p
    } else {
        PlayerView { line: p.line.push(spec_translated(p.line.last(), p.direction)), ..p }
    }
}

/// Every player moved one step.
pub open spec fn advanced_players(players: Seq<PlayerView>) -> Seq<PlayerView> {
    players.map_values(|p: PlayerView| advanced_player(p))
}

/// What player `i` may collide with in player `j`'s trail: the whole trail
/// of another player, but its own trail without the current head.
pub open spec fn obstacle_for(players: Seq<PlayerView>, i: int, j: int) -> Seq<(int, int)> {
    if i == j {
        players[j].line.drop_last()
    } else {
        players[j].line
    }
}

/// Whether player `i`'s head, where it now stands, crashes: outside the
/// arena interior, or on any obstacle cell.
pub open spec fn is_crashing(players: Seq<PlayerView>, size: (u16, u16), i: int) -> bool {
    let head = players[i].line.last();
    ||| !spec_in_bounds(head, size)
    ||| exists|j: int|
        0 <= j < players.len() && #[trigger] obstacle_for(players, i, j).contains(head)
}

/// Crash flags refreshed: every player whose head now crashes is marked,
/// everyone already crashed stays crashed, trails are untouched.
pub open spec fn crash_flagged(players: Seq<PlayerView>, size: (u16, u16)) -> Seq<PlayerView> {
    players.map(
        |i: int, p: PlayerView| PlayerView { crashed: p.crashed || is_crashing(players, size, i), ..p },
    )
}

/// One whole simulation step on the trail states: everyone moves, then
/// crashes are detected on the moved trails.
pub open spec fn stepped_players(players: Seq<PlayerView>, size: (u16, u16)) -> Seq<PlayerView> {
    crash_flagged(advanced_players(players), size)
}

/// How many players are still moving.
pub open spec fn survivor_count(players: Seq<PlayerView>) -> int
    decreases players.len(),
{
    if players.len() == 0 {
        0
    } else {
        survivor_count(players.drop_last()) + if players.last().crashed {
            0int
        } else {
            1int
        }
    }
}

/// What one frame reports to the driver.
#[derive(Clone, Copy, PartialEq, Eq, Structural, Debug)]
pub enum FrameEvent {
    /// This player's head just crashed.
    PlayerCrashed(PlayerIndex),
    /// Exactly one player is left moving.
    PlayerWon(PlayerIndex),
    /// Nobody is left moving.
    EveryoneCrashed,
}

/// The crash announcements of one frame for the players below index `n`, in
/// index order: one for every player that was moving and now is not.
pub open spec fn crash_events_up_to(
    olds: Seq<PlayerView>,
    news: Seq<PlayerView>,
    n: int,
) -> Seq<FrameEvent>
    decreases n,
{
    if n <= 0 {
        Seq::empty()
    } else {
        crash_events_up_to(olds, news, n - 1) + if !olds[n - 1].crashed && news[n - 1].crashed {
            seq![FrameEvent::PlayerCrashed((n - 1) as usize)]
        } else {
            Seq::empty()
        }
    }
}

/// The running game: the arena, the players, the frame both peers agree on,
/// and whether the match has been decided.
pub struct Game {
    /// Arena width and height, border included.
    pub size: (u16, u16),
    /// All participants, living and crashed.
    pub players: Vec<Player>,
    /// The frame the next step will run.
    pub frame: u32,
    /// Set once the match is decided; the driver stops committing frames.
    pub game_over: bool,
}

impl Game {
    /// Every trail is nonempty and every living head can still take a step
    /// without overflowing a coordinate.
    pub open spec fn wf(self) -> bool {
        forall|i: int|
            0 <= i < self.players@.len() ==> player_state_ok(#[trigger] self.players@[i]@)
    }

    /// A game on the given arena, about to run `frame`.
    pub fn new(size: (u16, u16), players: Vec<Player>, frame: u32) -> (g: Self)
        requires
            forall|i: int| 0 <= i < players@.len() ==> player_state_ok(#[trigger] players@[i]@),
        ensures
            g.size == size,
            g.players == players,
            g.frame == frame,
            !g.game_over,
            g.wf(),
    {
        Game { size, players, frame, game_over: false }
    }

    /// Whether a cell lies strictly inside the arena.
    pub fn is_within_game_bounds(&self, point: Point) -> (r: bool)
        ensures
            r == spec_in_bounds(cell(point), self.size),
    {
        point.0 > 0 && point.1 > 0 && (point.0 as i64) < self.size.0 as i64 - 1 && (point.1
            as i64) < self.size.1 as i64 - 1
    }

    /// Whether the first `upto` cells of `line` include `point`.
    fn line_contains(line: &Vec<Point>, upto: usize, point: Point) -> (r: bool)
        requires
            upto <= line@.len(),
        ensures
            r == line@.map_values(|c: Point| cell(c)).take(upto as int).contains(cell(point)),
    {
        let ghost mapped = line@.map_values(|c: Point| cell(c));
        let mut k: usize = 0;
        while k < upto
            invariant
                upto <= line@.len(),
                k <= upto,
                mapped == line@.map_values(|c: Point| cell(c)),
                forall|m: int| 0 <= m < k ==> mapped[m] != cell(point),
            decreases upto - k,
        {
            let c = line[k];
            if c.0 == point.0 && c.1 == point.1 {
                assert(mapped.take(upto as int)[k as int] == cell(point));
                return true;
            }
            k += 1;
        }
        assert forall|m: int| 0 <= m < upto implies mapped.take(upto as int)[m] != cell(point) by {
            assert(mapped.take(upto as int)[m] == mapped[m]);
        }
        false
    }

    /// Whether player `player_index`'s head, where it now stands, crashes:
    /// outside the arena interior, on another trail, or on its own trail
    /// anywhere but the head itself.
    pub fn is_player_crashing(&self, player_index: PlayerIndex) -> (r: bool)
        requires
            player_index < self.players@.len(),
            forall|i: int|
                0 <= i < self.players@.len() ==> (#[trigger] self.players@[i])@.line.len() >= 1,
        ensures
            r == is_crashing(players_view(self.players@), self.size, player_index as int),
    {
        let ghost views = players_view(self.players@);
        let head = self.players[player_index].head();
        if !self.is_within_game_bounds(head) {
            return true;
        }
        let n = self.players.len();
        let mut j: usize = 0;
        while j < n
            invariant
                n == self.players@.len(),
                player_index < n,
                j <= n,
                views == players_view(self.players@),
                forall|i: int| 0 <= i < n ==> (#[trigger] self.players@[i])@.line.len() >= 1,
                cell(head) == views[player_index as int].line.last(),
                forall|m: int|
                    0 <= m < j ==> !#[trigger] obstacle_for(views, player_index as int, m).contains(
                        cell(head),
                    ),
            decreases n - j,
        {
            let obstacle_len = if j == player_index {
                self.players[j].line.len() - 1
            } else {
                self.players[j].line.len()
            };
            let hit = Self::line_contains(&self.players[j].line, obstacle_len, head);
            proof {
                let mapped = self.players@[j as int]@.line;
                if j == player_index {
                    assert(mapped.take(obstacle_len as int) =~= mapped.drop_last());
                } else {
                    assert(mapped.take(obstacle_len as int) =~= mapped);
                }
            }
            if hit {
                proof {
                    assert(views[j as int].line == self.players@[j as int]@.line);
                    assert(obstacle_for(views, player_index as int, j as int).contains(cell(head)));
                }
                return true;
            }
            j += 1;
        }
        false
    }

    /// Whether a cell is free: inside the arena and on nobody's trail.
    pub fn is_vacant(&self, point: Point) -> (r: bool)
        ensures
            r == spec_is_vacant(players_view(self.players@), self.size, cell(point)),
    {
        let ghost views = players_view(self.players@);
        if !self.is_within_game_bounds(point) {
            return false;
        }
        let n = self.players.len();
        let mut j: usize = 0;
        while j < n
            invariant
                n == self.players@.len(),
                j <= n,
                views == players_view(self.players@),
                forall|m: int| 0 <= m < j ==> !#[trigger] views[m].line.contains(cell(point)),
            decreases n - j,
        {
            let len = self.players[j].line.len();
            let hit = Self::line_contains(&self.players[j].line, len, point);
            proof {
                let mapped = self.players@[j as int]@.line;
                assert(mapped.take(len as int) =~= mapped);
            }
            if hit {
                proof {
                    assert(views[j as int].line == self.players@[j as int]@.line);
                    assert(views[j as int].line.contains(cell(point)));
                }
                return false;
            }
            j += 1;
        }
        true
    }
}

/// Crashing depends only on the trails, not on who is already flagged.
proof fn lemma_is_crashing_same_lines(
    a: Seq<PlayerView>,
    b: Seq<PlayerView>,
    size: (u16, u16),
    i: int,
)
    requires
        a.len() == b.len(),
        0 <= i < a.len(),
        forall|k: int| 0 <= k < a.len() ==> (#[trigger] a[k]).line == b[k].line,
    ensures
        is_crashing(a, size, i) == is_crashing(b, size, i),
{
    assert forall|j: int| 0 <= j < a.len() implies obstacle_for(a, i, j) == obstacle_for(
        b,
        i,
        j,
    ) by {}
    let head_a = a[i].line.last();
    let head_b = b[i].line.last();
    assert(head_a == head_b);
    if exists|j: int| 0 <= j < a.len() && #[trigger] obstacle_for(a, i, j).contains(head_a) {
        let j = choose|j: int| 0 <= j < a.len() && #[trigger] obstacle_for(a, i, j).contains(head_a);
        assert(obstacle_for(b, i, j).contains(head_b));
    }
    if exists|j: int| 0 <= j < b.len() && #[trigger] obstacle_for(b, i, j).contains(head_b) {
        let j = choose|j: int| 0 <= j < b.len() && #[trigger] obstacle_for(b, i, j).contains(head_b);
        assert(obstacle_for(a, i, j).contains(head_a));
    }
}

impl Game {
    /// Runs one frame: every surviving player takes one step, crashes are
    /// detected on the moved trails, the match is decided when at most one
    /// player is left, and the frame counter advances. The returned events
    /// announce each fresh crash in player order, followed by the verdict
    /// when the match just ended.
    pub fn run_frame(&mut self) -> (events: Vec<FrameEvent>)
        requires
            old(self).wf(),
            old(self).frame < u32::MAX,
        ensures
            ({
                let olds = players_view(old(self).players@);
                let news = stepped_players(olds, old(self).size);
                let crashes = crash_events_up_to(olds, news, olds.len() as int);
                &&& final(self).size == old(self).size
                &&& final(self).frame == old(self).frame + 1
                &&& final(self).players@.len() == old(self).players@.len()
                &&& players_view(final(self).players@) == news
                &&& forall|i: int|
                    0 <= i < old(self).players@.len() ==> final(self).players@[i].name == old(
                        self,
                    ).players@[i].name
                &&& final(self).game_over == (old(self).game_over || survivor_count(news) <= 1)
                &&& final(self).wf()
                &&& survivor_count(news) >= 2 ==> events@ == crashes
                &&& survivor_count(news) == 0 ==> events@ == crashes.push(
                    FrameEvent::EveryoneCrashed,
                )
                &&& survivor_count(news) == 1 ==> events@.len() == crashes.len() + 1
                    && events@.take(crashes.len() as int) == crashes && (events@.last() matches
                FrameEvent::PlayerWon(w)
                    && 0 <= w < news.len() && !news[w as int].crashed)
            }),
    {
        let ghost ps0 = self.players@;
        let ghost olds = players_view(ps0);
        let ghost advs = advanced_players(olds);
        let ghost size0 = self.size;
        let ghost frame0 = self.frame;
        let ghost over0 = self.game_over;
        let ghost news = crash_flagged(advs, size0);

        let n = self.players.len();

        // Move every surviving head one cell.
        let mut i: usize = 0;
        while i < n
            invariant
                n == self.players@.len(),
                ps0.len() == n,
                i <= n,
                self.size == size0,
                self.frame == frame0,
                self.game_over == over0,
                olds == players_view(ps0),
                advs == advanced_players(olds),
                forall|k: int| 0 <= k < n ==> player_state_ok(#[trigger] olds[k]),
                forall|k: int| i <= k < n ==> #[trigger] self.players@[k] == ps0[k],
                forall|k: int|
                    0 <= k < i ==> (#[trigger] self.players@[k])@ == advs[k] && self.players@[k].name
                        == ps0[k].name,
            decreases n - i,
        {
            proof {
                assert(olds[i as int] == ps0[i as int]@);
                assert(advs[i as int] == advanced_player(olds[i as int]));
            }
            if !self.players[i].crashed {
                self.players[i].advance_one_step();
                proof {
                    assert(self.players@[i as int]@ =~= advs[i as int]);
                }
            } else {
                proof {
                    assert(self.players@[i as int]@ =~= advs[i as int]);
                }
            }
            i += 1;
        }

        // Flag everyone whose head now crashes, announcing each fresh crash.
        let mut events: Vec<FrameEvent> = Vec::new();
        let mut i: usize = 0;
        while i < n
            invariant
                n == self.players@.len(),
                ps0.len() == n,
                i <= n,
                self.size == size0,
                self.frame == frame0,
                self.game_over == over0,
                olds == players_view(ps0),
                advs == advanced_players(olds),
                advs.len() == n,
                news == crash_flagged(advs, size0),
                news.len() == n,
                forall|k: int| 0 <= k < n ==> player_state_ok(#[trigger] olds[k]),
                forall|k: int|
                    i <= k < n ==> (#[trigger] self.players@[k])@ == advs[k] && self.players@[k].name
                        == ps0[k].name,
                forall|k: int|
                    0 <= k < i ==> (#[trigger] self.players@[k])@ == news[k] && self.players@[k].name
                        == ps0[k].name,
                forall|k: int|
                    0 <= k < n ==> (#[trigger] self.players@[k])@.line.len() >= 1,
                events@ == crash_events_up_to(olds, news, i as int),
            decreases n - i,
        {
            proof {
                assert(advs[i as int] == advanced_player(olds[i as int]));
                assert(news[i as int] == PlayerView {
                    crashed: advs[i as int].crashed || is_crashing(advs, size0, i as int),
                    ..advs[i as int]
                });
                assert(olds[i as int].crashed == advs[i as int].crashed);
            }
            let ghost events_before = events@;
            if !self.players[i].crashed {
                let crashing = self.is_player_crashing(i);
                proof {
                    let mixed = players_view(self.players@);
                    assert forall|k: int| 0 <= k < n implies (#[trigger] mixed[k]).line
                        == advs[k].line by {
                        assert(mixed[k] == self.players@[k]@);
                        if k < i {
                            assert(news[k].line == advs[k].line);
                        }
                    }
                    lemma_is_crashing_same_lines(mixed, advs, size0, i as int);
                }
                if crashing {
                    self.players[i].crashed = true;
                    events.push(FrameEvent::PlayerCrashed(i));
                    proof {
                        assert(events@ =~= events_before + seq![
                            FrameEvent::PlayerCrashed(i),
                        ]);
                    }
                }
            }
            proof {
                assert(self.players@[i as int]@ =~= news[i as int]);
                if !(!olds[i as int].crashed && news[i as int].crashed) {
                    assert(events@ =~= events_before + Seq::empty());
                }
                assert(events@ == crash_events_up_to(olds, news, i as int + 1));
            }
            i += 1;
        }

        // Decide the match: nobody left, or exactly one player left.
        let mut survivors: usize = 0;
        let mut winner: usize = 0;
        let mut i: usize = 0;
        while i < n
            invariant
                n == self.players@.len(),
                i <= n,
                news.len() == n,
                forall|k: int| 0 <= k < n ==> (#[trigger] self.players@[k])@ == news[k],
                survivors as int == survivor_count(news.take(i as int)),
                survivors <= i,
                survivors > 0 ==> (winner as int) < i as int && !news[winner as int].crashed,
            decreases n - i,
        {
            proof {
                assert(news.take(i as int + 1).drop_last() =~= news.take(i as int));
                assert(news.take(i as int + 1).last() == news[i as int]);
            }
            if !self.players[i].crashed {
                survivors += 1;
                winner = i;
            }
            i += 1;
        }
        proof {
            assert(news.take(n as int) =~= news);
        }

        let ghost crashes = crash_events_up_to(olds, news, n as int);
        if survivors == 0 {
            events.push(FrameEvent::EveryoneCrashed);
            self.game_over = true;
            proof {
                assert(events@ =~= crashes.push(FrameEvent::EveryoneCrashed));
            }
        } else if survivors == 1 {
            events.push(FrameEvent::PlayerWon(winner));
            self.game_over = true;
            proof {
                assert(events@.take(crashes.len() as int) =~= crashes);
            }
        }
        self.frame = self.frame + 1;

        proof {
            assert(players_view(self.players@) =~= news);
            assert forall|k: int| 0 <= k < n implies player_state_ok(
                #[trigger] news[k],
            ) by {
                assert(news[k].line == advs[k].line);
                assert(advs[k] == advanced_player(olds[k]));
                if !news[k].crashed {
                    assert(!is_crashing(advs, size0, k));
                    assert(spec_in_bounds(advs[k].line.last(), size0));
                }
            }
        }
        events
    }
}

/// Whether a cell is free: inside the arena and on nobody's trail.
pub open spec fn spec_is_vacant(players: Seq<PlayerView>, size: (u16, u16), c: (int, int)) -> bool {
    &&& spec_in_bounds(c, size)
    &&& forall|j: int| 0 <= j < players.len() ==> !#[trigger] players[j].line.contains(c)
}

/// Law: a head landing on the player's own trail anywhere but the current
/// head cell crashes; that the head stands on its own current cell — the
/// one it just claimed — is never by itself a crash.
pub proof fn lemma_self_collision(players: Seq<PlayerView>, size: (u16, u16), i: int)
    requires
        0 <= i < players.len(),
        players[i].line.len() >= 1,
    ensures
        players[i].line.drop_last().contains(players[i].line.last()) ==> is_crashing(
            players,
            size,
            i,
        ),
        ({
            &&& spec_in_bounds(players[i].line.last(), size)
            &&& !players[i].line.drop_last().contains(players[i].line.last())
            &&& forall|j: int|
                0 <= j < players.len() && j != i ==> !#[trigger] players[j].line.contains(
                    players[i].line.last(),
                )
        }) ==> !is_crashing(players, size, i),
{
    let head = players[i].line.last();
    if players[i].line.drop_last().contains(head) {
        assert(obstacle_for(players, i, i).contains(head));
    }
    if spec_in_bounds(head, size) && !players[i].line.drop_last().contains(head) && (forall|j: int|
        0 <= j < players.len() && j != i ==> !#[trigger] players[j].line.contains(head)) {
        assert forall|j: int| 0 <= j < players.len() implies !#[trigger] obstacle_for(
            players,
            i,
            j,
        ).contains(head) by {
            if j != i {
                assert(!players[j].line.contains(head));
            }
        }
    }
}

} // verus!
