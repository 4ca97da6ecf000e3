//! The game: a snake, its food, a move timer and the game-over flag, driven
//! by ticks, direction requests and restarts.

use vstd::prelude::*;
use crate::boundary::{BoundaryPolicy, CollisionKind};
use crate::food::{first_free, has_free_cell, is_free, is_free_cell, place};
use crate::geometry::{Direction, Position};
use crate::snake::{SelfCollisionRule, Snake, hits_itself, moved_body};

verus! {

/// The settings a game is made with. They do not change while it runs.
#[derive(Clone, Debug)]
pub struct GameConfig {
    /// Food appears on the cells of `[0, grid_size)` on both axes.
    pub grid_size: i32,
    /// A move is due once more than this much time has accumulated, in the
    /// unit in which the driver reports elapsed time.
    pub move_interval: u64,
    /// What happens at the edges of the arena.
    pub boundary: BoundaryPolicy,
    /// When running into oneself is fatal.
    pub self_collision: SelfCollisionRule,
    /// The body every game starts with, head first.
    pub initial_body: Vec<Position>,
    /// The heading every game starts with.
    pub initial_direction: Direction,
}

impl GameConfig {
    /// A configuration is usable when the grid and the boundary have a
    /// positive extent, the starting body is not empty, and that body
    /// leaves a cell of the grid free for food.
    pub open spec fn wf(&self) -> bool {
        &&& self.grid_size > 0
        &&& self.boundary.wf()
        &&& self.initial_body@.len() > 0
        &&& has_free_cell(self.grid_size as int, self.initial_body@)
    }

    /// Whether the configuration is usable, as [`GameConfig::wf`] defines it.
    pub fn is_valid(&self) -> (ok: bool)
        ensures
            ok == self.wf(),
    {
        if self.grid_size <= 0 || !self.boundary.is_valid() || self.initial_body.len() == 0 {
            return false;
        }
        let probe = Snake::with_rule(
            self.initial_body.as_slice(),
            self.initial_direction,
            self.self_collision,
        );
        first_free(self.grid_size, &probe).is_some()
    }

    /// The configuration with the given settings, or `None` when they are
    /// not usable.
    pub fn new(
        grid_size: i32,
        move_interval: u64,
        boundary: BoundaryPolicy,
        self_collision: SelfCollisionRule,
        initial_body: Vec<Position>,
        initial_direction: Direction,
    ) -> (config: Option<GameConfig>)
        ensures
            ({
                let wanted = GameConfig {
                    grid_size,
                    move_interval,
                    boundary,
                    self_collision,
                    initial_body,
                    initial_direction,
                };
                config == if wanted.wf() {
                    Some(wanted)
                } else {
                    None
                }
            }),
    {
        let wanted = GameConfig {
            grid_size,
            move_interval,
            boundary,
            self_collision,
            initial_body,
            initial_direction,
        };
        if wanted.is_valid() {
            Some(wanted)
        } else {
            None
        }
    }
}

/// What a game looks like from outside at one moment.
pub struct GameView {
    /// The snake's body, head first.
    pub body: Seq<Position>,
    /// The heading the next move will follow.
    pub direction: Direction,
    /// Where the food lies.
    pub food: Position,
    /// Time accumulated since the last move.
    pub timer: u64,
    /// Whether the game has ended and waits for a restart.
    pub game_over: bool,
}

/// A read-only copy of what a renderer needs.
#[derive(Clone, Debug)]
pub struct Snapshot {
    /// The snake's body, head first.
    pub body: Vec<Position>,
    /// Where the food lies.
    pub food: Position,
    /// Whether the game has ended and waits for a restart.
    pub game_over: bool,
}

/// The timer after `elapsed` more time, held at the largest value a `u64`
/// can take.
pub open spec fn accumulated(timer: u64, elapsed: u64) -> u64 {
    if timer + elapsed > u64::MAX {
        u64::MAX
    } else {
        (timer + elapsed) as u64
    }
}

/// Whether `view` is a fresh game of `config`: the starting body and
/// heading, a cleared timer, play in progress, and food on a free cell.
pub open spec fn is_fresh(config: GameConfig, view: GameView) -> bool {
    &&& view.body == config.initial_body@
    &&& view.direction == config.initial_direction
    &&& view.timer == 0
    &&& !view.game_over
    &&& is_free(config.grid_size as int, view.body, view.food)
}

/// Whether the move from `pre` will eat: the cell the head aims at, as the
/// boundary resolves it, is the cell of the food.
pub open spec fn will_eat(config: GameConfig, pre: GameView) -> bool {
    config.boundary.spec_step(pre.body[0], pre.direction) == Some(pre.food)
}

/// How one move of a game in progress relates the game before it to the
/// game after it.
///
/// A move into a wall ends the game and leaves the snake as it was. Any
/// other move puts the target cell in front of the body and drops the last
/// segment unless the move eats. A self-collision, where the rule applies,
/// ends the game with the food left in place. A move that eats without
/// dying puts new food on a free cell of the grid; if the snake then covers
/// the whole grid, the game ends instead. Every other move leaves the food
/// alone. Heading and timer are not touched.
pub open spec fn stepped(config: GameConfig, pre: GameView, post: GameView) -> bool {
    let grow = will_eat(config, pre);
    &&& post.direction == pre.direction
    &&& post.timer == pre.timer
    &&& match config.boundary.spec_step(pre.body[0], pre.direction) {
        None => post.body == pre.body && post.food == pre.food && post.game_over,
        Some(target) => {
            &&& post.body == moved_body(pre.body, target, grow)
            &&& if config.self_collision.applies(post.body.len() as int) && hits_itself(post.body) {
                post.game_over && post.food == pre.food
            } else if !grow {
                !post.game_over && post.food == pre.food
            } else if has_free_cell(config.grid_size as int, post.body) {
                !post.game_over && is_free(config.grid_size as int, post.body, post.food)
            } else {
                post.game_over && post.food == pre.food
            }
        },
    }
}

/// A running or finished game.
pub struct GameState {
    config: GameConfig,
    snake: Snake,
    food: Position,
    timer: u64,
    game_over: bool,
}

impl View for GameState {
    type V = GameView;

    closed spec fn view(&self) -> GameView {
        GameView {
            body: self.snake@,
            direction: self.snake.spec_direction(),
            food: self.food,
            timer: self.timer,
            game_over: self.game_over,
        }
    }
}

impl GameState {
    /// The settings the game was made with.
    pub closed spec fn spec_config(&self) -> GameConfig {
        self.config
    }

    /// The self-collision rule the snake of this game obeys.
    pub closed spec fn spec_rule_in_force(&self) -> SelfCollisionRule {
        self.snake.spec_rule()
    }

    /// The invariant of every game: usable settings, a body that is not
    /// empty and obeys the configured self-collision rule, food on the
    /// grid, and, while play is in progress, food off the snake.
    pub open spec fn wf(&self) -> bool {
        &&& self.spec_config().wf()
        &&& self@.body.len() > 0
        &&& self.spec_rule_in_force() == self.spec_config().self_collision
        &&& self@.food.within(self.spec_config().grid_size as int)
        &&& !self@.game_over ==> !self@.body.contains(self@.food)
    }

    /// A fresh game of `config`.
    pub fn new(config: GameConfig) -> (game: GameState)
        requires
            config.wf(),
        ensures
            game.wf(),
            game.spec_config() == config,
            is_fresh(config, game@),
    {
        let snake = Snake::with_rule(
            config.initial_body.as_slice(),
            config.initial_direction,
            config.self_collision,
        );
        let food = match place(config.grid_size, &snake) {
            Some(p) => p,
            None => vstd::pervasive::unreached(),
        };
        GameState { config, snake, food, timer: 0, game_over: false }
    }

    /// A fresh game of `config` whose food lies on `food`, or `None` when
    /// that cell is off the grid or under the starting body.
    pub fn with_food(config: GameConfig, food: Position) -> (game: Option<GameState>)
        requires
            config.wf(),
        ensures
            game is Some <==> is_free(config.grid_size as int, config.initial_body@, food),
            match game {
                Some(g) => {
                    &&& g.wf()
                    &&& g.spec_config() == config
                    &&& is_fresh(config, g@)
                    &&& g@.food == food
                },
                None => true,
            },
    {
        let snake = Snake::with_rule(
            config.initial_body.as_slice(),
            config.initial_direction,
            config.self_collision,
        );
        if is_free_cell(config.grid_size, &snake, food) {
            Some(GameState { config, snake, food, timer: 0, game_over: false })
        } else {
            None
        }
    }

    /// The settings the game was made with.
    pub fn config(&self) -> (config: &GameConfig)
        ensures
            *config == self.spec_config(),
    {
        &self.config
    }

    /// The snake.
    pub fn snake(&self) -> (snake: &Snake)
        ensures
            snake@ == self@.body,
            snake.spec_direction() == self@.direction,
            snake.spec_rule() == self.spec_rule_in_force(),
    {
        &self.snake
    }

    /// Where the food lies.
    pub fn food(&self) -> (food: Position)
        ensures
            food == self@.food,
    {
        self.food
    }

    /// Time accumulated since the last move.
    pub fn timer(&self) -> (timer: u64)
        ensures
            timer == self@.timer,
    {
        self.timer
    }

    /// Whether the game has ended and waits for a restart.
    pub fn is_game_over(&self) -> (over: bool)
        ensures
            over == self@.game_over,
    {
        self.game_over
    }

    /// A copy of body, food and game-over flag for a renderer.
    pub fn snapshot(&self) -> (shot: Snapshot)
        ensures
            shot.body@ == self@.body,
            shot.food == self@.food,
            shot.game_over == self@.game_over,
    {
        Snapshot { body: self.snake.body(), food: self.food, game_over: self.game_over }
    }

    /// Forwards a direction request to the snake. A half turn is ignored,
    /// and so is every request once the game is over.
    pub fn request_direction(&mut self, requested: Direction)
        requires
            old(self).wf(),
        ensures
            final(self).wf(),
            final(self).spec_config() == old(self).spec_config(),
            final(self)@ == (GameView {
                direction: if old(self)@.game_over {
                    old(self)@.direction
                } else {
                    old(self)@.direction.spec_turn(requested)
                },
                ..old(self)@
            }),
    {
        if !self.game_over {
            self.snake.change_direction(requested);
        }
    }

    /// Performs one move of the snake, whatever the timer says. Nothing
    /// happens once the game is over.
    pub fn step(&mut self)
        requires
            old(self).wf(),
        ensures
            final(self).wf(),
            final(self).spec_config() == old(self).spec_config(),
            old(self)@.game_over ==> final(self)@ == old(self)@,
            !old(self)@.game_over ==> stepped(old(self).spec_config(), old(self)@, final(self)@),
    {
        if self.game_over {
            return ;
        }
        let head = self.snake.head();
        let grow = match self.config.boundary.step(head, self.snake.direction()) {
            Some(target) => target == self.food,
            None => false,
        };
        match self.snake.advance(grow, self.config.boundary) {
            Err(_) => {
                self.game_over = true;
            },
            Ok(()) => {
                if grow {
                    match place(self.config.grid_size, &self.snake) {
                        Some(p) => {
                            self.food = p;
                        },
                        None => {
                            self.game_over = true;
                        },
                    }
                } else {
                    proof {
                        Self::lemma_food_stays_clear(old(self)@.body, self.snake@[0], self.food);
                    }
                }
            },
        }
    }

    /// Food that was off the body and is not the target of a move that
    /// does not grow is off the body after that move.
    proof fn lemma_food_stays_clear(body: Seq<Position>, target: Position, food: Position)
        requires
            body.len() > 0,
            !body.contains(food),
            target != food,
        ensures
            !moved_body(body, target, false).contains(food),
    {
        let after = moved_body(body, target, false);
        if after.contains(food) {
            let i = choose|i: int| 0 <= i < after.len() && after[i] == food;
            assert(i > 0);
            assert(after[i] == body[i - 1]);
            assert(body.contains(food));
        }
    }

    /// Lets `elapsed` time pass. Once more than the configured interval has
    /// accumulated, the timer is cleared and the snake makes one move, as
    /// [`stepped`] describes. Nothing happens once the game is over.
    pub fn tick(&mut self, elapsed: u64)
        requires
            old(self).wf(),
        ensures
            final(self).wf(),
            final(self).spec_config() == old(self).spec_config(),
            old(self)@.game_over ==> final(self)@ == old(self)@,
            !old(self)@.game_over && accumulated(old(self)@.timer, elapsed) <= old(
                self,
            ).spec_config().move_interval ==> final(self)@ == (GameView {
                timer: accumulated(old(self)@.timer, elapsed),
                ..old(self)@
            }),
            !old(self)@.game_over && accumulated(old(self)@.timer, elapsed) > old(
                self,
            ).spec_config().move_interval ==> stepped(
                old(self).spec_config(),
                GameView { timer: 0, ..old(self)@ },
                final(self)@,
            ),
    {
        if self.game_over {
            return ;
        }
        self.timer = self.timer.saturating_add(elapsed);
        if self.timer > self.config.move_interval {
            self.timer = 0;
            self.step();
        }
    }

    /// Leaves a finished game for a fresh one: the starting body and
    /// heading, new food, a cleared timer. A game in progress is not
    /// touched.
    pub fn restart(&mut self)
        requires
            old(self).wf(),
        ensures
            final(self).wf(),
            final(self).spec_config() == old(self).spec_config(),
            !old(self)@.game_over ==> final(self)@ == old(self)@,
            old(self)@.game_over ==> is_fresh(old(self).spec_config(), final(self)@),
    {
        if !self.game_over {
            return ;
        }
        let snake = Snake::with_rule(
            self.config.initial_body.as_slice(),
            self.config.initial_direction,
            self.config.self_collision,
        );
        let food = match place(self.config.grid_size, &snake) {
            Some(p) => p,
            None => vstd::pervasive::unreached(),
        };
        self.snake = snake;
        self.food = food;
        self.timer = 0;
        self.game_over = false;
    }
}

/// Across one move the target cell becomes the head and the body keeps its
/// length, or gains exactly one segment when the move eats; a move into a
/// wall changes neither body nor food.
pub proof fn lemma_step_shape(config: GameConfig, pre: GameView, post: GameView)
    requires
        pre.body.len() > 0,
        stepped(config, pre, post),
    ensures
        match config.boundary.spec_step(pre.body[0], pre.direction) {
            None => post.body == pre.body && post.food == pre.food && post.game_over,
            Some(target) => {
                &&& post.body[0] == target
                &&& will_eat(config, pre) ==> post.body.len() == pre.body.len() + 1
                &&& !will_eat(config, pre) ==> post.body.len() == pre.body.len()
            },
        },
{
}

/// A move never leaves a game in progress with food under the snake, given
/// that the food was on the grid and off the snake before it.
pub proof fn lemma_step_keeps_food_clear(config: GameConfig, pre: GameView, post: GameView)
    requires
        pre.body.len() > 0,
        is_free(config.grid_size as int, pre.body, pre.food),
        stepped(config, pre, post),
    ensures
        post.food.within(config.grid_size as int),
        !post.game_over ==> is_free(config.grid_size as int, post.body, post.food),
{
    match config.boundary.spec_step(pre.body[0], pre.direction) {
        None => {},
        Some(target) => {
            if !will_eat(config, pre) {
                GameState::lemma_food_stays_clear(pre.body, target, pre.food);
            }
        },
    }
}

} // verus!
