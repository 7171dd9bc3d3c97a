use vstd::prelude::*;
use crate::game_object::{GameObject, Vec2, abs};

verus! {

/// How far each paddle stands from its side edge of the field.
pub const PADDLE_MARGIN: i64 = 4;

/// A side of the field.
#[derive(Clone, Copy, Debug, PartialEq, Eq, Structural)]
pub enum Player {
    Left,
    Right,
}

/// The keys the human player uses; every other key is `Other`.
#[derive(Clone, Copy, Debug, PartialEq, Eq, Structural)]
pub enum Key {
    Up,
    Down,
    Other,
}

/// Why a step was not taken. The state is then left as it was.
#[derive(Clone, Copy, Debug, PartialEq, Eq, Structural)]
pub enum StepError {
    /// The elapsed time was negative.
    NegativeTime,
    /// A position or velocity would leave the range of `i64`.
    Overflow,
}

/// The rules of the field: its extents, the paddles' acceleration in velocity
/// per unit of time, and the share `friction_num / friction_den` of a paddle's
/// vertical velocity that it passes to the ball it hits.
#[derive(Clone, Copy, Debug, PartialEq, Eq, Structural)]
pub struct Config {
    pub width: i64,
    pub height: i64,
    pub paddle_accel: i64,
    pub friction_num: i64,
    pub friction_den: i64,
}

impl Config {
    /// A non-empty field, a non-negative acceleration and a non-negative share
    /// with a positive denominator.
    pub open spec fn wf(&self) -> bool {
        &&& self.width > 0
        &&& self.height > 0
        &&& self.paddle_accel >= 0
        &&& self.friction_num >= 0
        &&& self.friction_den > 0
    }
}

/// The launch of a serve, drawn by the caller: the horizontal speed, which the
/// serving side turns towards the receiver, and the vertical velocity.
#[derive(Clone, Copy, Debug, PartialEq, Eq, Structural)]
pub struct Serve {
    pub speed_x: i64,
    pub vel_y: i64,
}

impl Serve {
    /// The ball leaves the center with some horizontal speed.
    pub open spec fn wf(&self) -> bool {
        self.speed_x > 0
    }
}

/// One match: the human-controlled left paddle `p1`, the tracking right paddle
/// `p2`, the ball, the human's held keys and the side that serves next.
#[derive(Clone, Copy, Debug, PartialEq, Eq, Structural)]
pub struct Pong {
    pub cfg: Config,
    pub p1: GameObject,
    pub p2: GameObject,
    pub ball: GameObject,
    pub up: bool,
    pub down: bool,
    pub server: Player,
}

/// The value is in the range of `i64`.
pub open spec fn fits(x: int) -> bool {
    i64::MIN <= x <= i64::MAX
}

/// The pair of coordinates stored as `i64`.
pub open spec fn vec2(x: int, y: int) -> Vec2 {
    Vec2 { x: x as i64, y: y as i64 }
}

/// Half of a positive extent, rounded up: the distance from an edge at which a
/// center keeps the whole box on the field side of that edge.
pub open spec fn half_up(s: int) -> int {
    (s + 1) / 2
}

/// -1 when the left side serves, +1 when the right side does.
pub open spec fn direction(p: Player) -> int {
    match p {
        Player::Left => -1,
        Player::Right => 1,
    }
}

/// The opposite side.
pub open spec fn other_side(p: Player) -> Player {
    match p {
        Player::Left => Player::Right,
        Player::Right => Player::Left,
    }
}

/// A paddle's vertical velocity after one step of the control law: pushed up or
/// down while a key is held, otherwise braked towards zero without passing it.
pub open spec fn controlled_vel(v: int, up: bool, down: bool, accel: int, dt: int) -> int {
    if up {
        v - accel * dt
    } else if down {
        v + accel * dt
    } else if accel * dt >= abs(v) {
        0
    } else if v > 0 {
        v - accel * dt
    } else {
        v + accel * dt
    }
}

/// The vertical velocity after touching a wall: reversed for the ball, stopped
/// for a paddle.
pub open spec fn wall_vel(v: int, bounce: bool) -> int {
    if bounce {
        -v
    } else {
        0
    }
}

/// The vertical velocity a paddle moving at `v` passes to the ball, rounded
/// towards zero.
pub open spec fn spin(v: int, num: int, den: int) -> int {
    if v >= 0 {
        v * num / den
    } else {
        -((-v) * num / den)
    }
}

/// The paddle after its control step, or `None` when its velocity overflows.
pub open spec fn after_control(o: GameObject, up: bool, down: bool, accel: int, dt: int) -> Option<
    GameObject,
> {
    let v = controlled_vel(o.vel.y as int, up, down, accel, dt);
    if fits(v) {
        Some(GameObject { pos: o.pos, vel: Vec2 { x: o.vel.x, y: v as i64 }, size: o.size })
    } else {
        None
    }
}

/// The object moved by its velocity over `dt` and held inside the field
/// vertically: an edge that reaches the bottom or the top wall puts the object
/// back against that wall, and its vertical velocity is reversed (`bounce`) or
/// stopped. `None` when a coordinate or the velocity leaves the range of `i64`.
pub open spec fn after_motion(o: GameObject, dt: int, bounce: bool, height: int) -> Option<
    GameObject,
> {
    let x = o.pos.x + o.vel.x * dt;
    let y0 = o.pos.y + o.vel.y * dt;
    let at_bottom = 2 * y0 + o.size.y >= 2 * height;
    let y1 = if at_bottom {
        height - half_up(o.size.y as int)
    } else {
        y0
    };
    let v1 = if at_bottom {
        wall_vel(o.vel.y as int, bounce)
    } else {
        o.vel.y as int
    };
    let at_top = 2 * y1 - o.size.y <= 0;
    let y2 = if at_top {
        half_up(o.size.y as int)
    } else {
        y1
    };
    let v2 = if at_top {
        wall_vel(v1, bounce)
    } else {
        v1
    };
    if fits(x) && fits(y2) && fits(v2) {
        Some(GameObject { pos: vec2(x, y2), vel: vec2(o.vel.x as int, v2), size: o.size })
    } else {
        None
    }
}

/// The ball after meeting the paddle: when they intersect, its horizontal
/// velocity is reversed and the paddle's spin is added to its vertical one.
pub open spec fn after_hit(ball: GameObject, paddle: GameObject, num: int, den: int) -> Option<
    GameObject,
> {
    if ball.overlaps(paddle) {
        let vx = -ball.vel.x;
        let vy = ball.vel.y + spin(paddle.vel.y as int, num, den);
        if fits(vx) && fits(vy) {
            Some(GameObject { pos: ball.pos, vel: vec2(vx, vy), size: ball.size })
        } else {
            None
        }
    } else {
        Some(ball)
    }
}

/// Which side, if any, scores with the ball where it is: past the right edge
/// the left side scores, past the left edge the right side does.
pub open spec fn scorer(ball: GameObject, width: int) -> Option<Player> {
    if ball.pos.x > width {
        Some(Player::Left)
    } else if ball.pos.x < 0 {
        Some(Player::Right)
    } else {
        None
    }
}

/// The paddle's vertical velocity after `n` steps with no key held.
pub open spec fn braked(v: int, accel: int, dt: int, n: nat) -> int
    decreases n,
{
    if n == 0 {
        v
    } else {
        controlled_vel(braked(v, accel, dt, (n - 1) as nat), false, false, accel, dt)
    }
}

/// With no key held, one step of the control law never turns a paddle's
/// vertical velocity past zero, and never speeds it up.
pub proof fn lemma_brake_never_reverses(v: int, accel: int, dt: int)
    requires
        accel >= 0,
        dt >= 0,
    ensures
        v >= 0 ==> 0 <= controlled_vel(v, false, false, accel, dt) <= v,
        v <= 0 ==> v <= controlled_vel(v, false, false, accel, dt) <= 0,
{
    assert(accel * dt >= 0) by (nonlinear_arith)
        requires
            accel >= 0,
            dt >= 0,
    ;
}

/// With no key held, a paddle's vertical velocity keeps its sign and loses
/// `accel * dt` of its magnitude each step, down to zero: after `n` steps its
/// magnitude is `max(|v| - n * accel * dt, 0)`, so it is exactly zero once
/// `n * accel * dt` reaches `|v|`.
pub proof fn lemma_brake_settles(v: int, accel: int, dt: int, n: nat)
    requires
        accel >= 0,
        dt >= 0,
    ensures
        v >= 0 ==> braked(v, accel, dt, n) >= 0,
        v <= 0 ==> braked(v, accel, dt, n) <= 0,
        abs(braked(v, accel, dt, n)) == if abs(v) - n * (accel * dt) > 0 {
            abs(v) - n * (accel * dt)
        } else {
            0
        },
        n * (accel * dt) >= abs(v) ==> braked(v, accel, dt, n) == 0,
    decreases n,
{
    let step = accel * dt;
    assert(accel * dt >= 0) by (nonlinear_arith)
        requires
            accel >= 0,
            dt >= 0,
    ;
    if n > 0 {
        lemma_brake_settles(v, accel, dt, (n - 1) as nat);
        lemma_brake_never_reverses(braked(v, accel, dt, (n - 1) as nat), accel, dt);
        assert(n * step == (n - 1) * step + step) by (nonlinear_arith)
            requires
                n > 0,
        ;
    }
}

/// A ball that is past the right edge once it has met the paddles gives the
/// point to the left side: the right side serves next, and the ball is back at
/// the center of the field, launched rightwards by the serve. The paddles are
/// not moved. (The step fails only when the ball's velocity overflows at a
/// paddle.)
pub proof fn lemma_right_exit_scores(s: Pong, serve: Serve)
    requires
        s.wf(),
        serve.wf(),
        s.ball.pos.x > s.cfg.width,
    ensures
        s.ball_resolved(serve) matches Some(n) ==> {
            &&& n.server == Player::Right
            &&& n.ball.pos == vec2(s.cfg.width / 2, s.cfg.height / 2)
            &&& n.ball.vel == (Vec2 { x: serve.speed_x, y: serve.vel_y })
            &&& n.ball.vel.x > 0
            &&& n.p1 == s.p1
            &&& n.p2 == s.p2
        },
{
}

/// An object moving down that reaches the bottom wall is put back against it,
/// its center half its height above the wall (rounded up for an odd height):
/// the ball's vertical velocity is reversed, a paddle's is stopped. This holds
/// for an object that fits in the field, so that it cannot touch both walls.
pub proof fn lemma_bottom_wall(o: GameObject, dt: int, height: int)
    requires
        o.wf(),
        dt >= 0,
        0 < height <= i64::MAX,
        o.vel.y > 0,
        2 * (o.pos.y + o.vel.y * dt) + o.size.y >= 2 * height,
        2 * height > 2 * half_up(o.size.y as int) + o.size.y,
        fits(o.pos.x + o.vel.x * dt),
    ensures
        after_motion(o, dt, true, height) == Some(
            GameObject {
                pos: vec2(o.pos.x + o.vel.x * dt, height - half_up(o.size.y as int)),
                vel: vec2(o.vel.x as int, -o.vel.y),
                size: o.size,
            },
        ),
        after_motion(o, dt, false, height) == Some(
            GameObject {
                pos: vec2(o.pos.x + o.vel.x * dt, height - half_up(o.size.y as int)),
                vel: vec2(o.vel.x as int, 0),
                size: o.size,
            },
        ),
        o.size.y % 2 == 0 ==> half_up(o.size.y as int) == o.size.y / 2,
{
}

impl Pong {
    /// The field's rules are valid and every object has positive extents.
    pub open spec fn wf(&self) -> bool {
        &&& self.cfg.wf()
        &&& self.p1.wf()
        &&& self.p2.wf()
        &&& self.ball.wf()
    }

    /// The ball placed at the center of the field and launched by `serve`: its
    /// horizontal speed leftwards when the left side serves, rightwards when the
    /// right side does.
    pub open spec fn served(&self, serve: Serve) -> Pong {
        Pong {
            ball: GameObject {
                pos: vec2(self.cfg.width / 2, self.cfg.height / 2),
                vel: vec2(serve.speed_x * direction(self.server), serve.vel_y as int),
                size: self.ball.size,
            },
            ..*self
        }
    }

    /// The side that let the point through serves next, then the ball is served.
    pub open spec fn scored(&self, player: Player, serve: Serve) -> Pong {
        Pong { server: other_side(player), ..*self }.served(serve)
    }

    /// The AI paddle's keys: it follows the ball vertically while the ball comes
    /// towards it, and stays idle otherwise.
    pub open spec fn ai_keys(&self) -> (bool, bool) {
        if self.ball.vel.x > 0 {
            (self.ball.pos.y < self.p2.pos.y, self.ball.pos.y > self.p2.pos.y)
        } else {
            (false, false)
        }
    }

    /// Both paddles after their control step.
    pub open spec fn controlled(&self, dt: int) -> Option<Pong> {
        let a = self.cfg.paddle_accel as int;
        let p1 = after_control(self.p1, self.up, self.down, a, dt);
        let p2 = after_control(self.p2, self.ai_keys().0, self.ai_keys().1, a, dt);
        match (p1, p2) {
            (Some(p1), Some(p2)) => Some(Pong { p1, p2, ..*self }),
            _ => None,
        }
    }

    /// All three objects moved and held inside the field.
    pub open spec fn moved(&self, dt: int) -> Option<Pong> {
        let h = self.cfg.height as int;
        match (
            after_motion(self.p1, dt, false, h),
            after_motion(self.p2, dt, false, h),
            after_motion(self.ball, dt, true, h),
        ) {
            (Some(p1), Some(p2), Some(ball)) => Some(Pong { p1, p2, ball, ..*self }),
            _ => None,
        }
    }

    /// The ball after meeting both paddles, then the score, if any.
    pub open spec fn ball_resolved(&self, serve: Serve) -> Option<Pong> {
        let num = self.cfg.friction_num as int;
        let den = self.cfg.friction_den as int;
        match after_hit(self.ball, self.p1, num, den) {
            None => None,
            Some(b1) => match after_hit(b1, self.p2, num, den) {
                None => None,
                Some(b2) => {
                    let s = Pong { ball: b2, ..*self };
                    match scorer(b2, self.cfg.width as int) {
                        Some(p) => Some(s.scored(p, serve)),
                        None => Some(s),
                    }
                },
            },
        }
    }

    /// The state after one step of `dt` units of time, or `None` when a value
    /// would leave the range of `i64`.
    pub open spec fn next_state(&self, dt: int, serve: Serve) -> Option<Pong> {
        match self.controlled(dt) {
            None => None,
            Some(a) => match a.moved(dt) {
                None => None,
                Some(b) => b.ball_resolved(serve),
            },
        }
    }
}

/// The product of two values of at most 2^63 in magnitude, which fits in `i128`.
fn mul_wide(a: i128, b: i128) -> (r: i128)
    requires
        -0x8000_0000_0000_0000 <= a <= 0x8000_0000_0000_0000,
        -0x8000_0000_0000_0000 <= b <= 0x8000_0000_0000_0000,
    ensures
        r == a * b,
        -0x4000_0000_0000_0000_0000_0000_0000_0000 <= r <= 0x4000_0000_0000_0000_0000_0000_0000_0000,
{
    proof {
        let m: int = 0x8000_0000_0000_0000;
        assert(-m * m <= a * b <= m * m) by (nonlinear_arith)
            requires
                -m <= a <= m,
                -m <= b <= m,
        ;
    }
    a * b
}

fn in_i64(x: i128) -> (r: bool)
    ensures
        r == fits(x as int),
{
    i64::MIN as i128 <= x && x <= i64::MAX as i128
}

impl Pong {
    /// A match on the field `cfg` with both paddles and the ball at rest at the
    /// origin, no key held and the left side to serve. `None` unless `cfg` is
    /// valid and all extents are strictly positive.
    pub fn new(cfg: Config, paddle_size: Vec2, ball_size: Vec2) -> (r: Option<Pong>)
        ensures
            r is Some <==> (cfg.wf() && paddle_size.x > 0 && paddle_size.y > 0 && ball_size.x > 0
                && ball_size.y > 0),
            r matches Some(p) ==> {
                &&& p.wf()
                &&& p.cfg == cfg
                &&& p.p1.size == paddle_size
                &&& p.p2.size == paddle_size
                &&& p.ball.size == ball_size
                &&& p.p1.pos == (Vec2 { x: 0, y: 0 }) && p.p1.vel == (Vec2 { x: 0, y: 0 })
                &&& p.p2.pos == (Vec2 { x: 0, y: 0 }) && p.p2.vel == (Vec2 { x: 0, y: 0 })
                &&& p.ball.pos == (Vec2 { x: 0, y: 0 }) && p.ball.vel == (Vec2 { x: 0, y: 0 })
                &&& !p.up && !p.down
                &&& p.server == Player::Left
            },
    {
        if !(cfg.width > 0 && cfg.height > 0 && cfg.paddle_accel >= 0 && cfg.friction_num >= 0
            && cfg.friction_den > 0) {
            return None;
        }
        match (
            GameObject::with_size(paddle_size),
            GameObject::with_size(paddle_size),
            GameObject::with_size(ball_size),
        ) {
            (Some(p1), Some(p2), Some(ball)) => Some(
                Pong { cfg, p1, p2, ball, up: false, down: false, server: Player::Left },
            ),
            _ => None,
        }
    }

    /// Whether the state meets the invariant that the step functions require.
    pub fn is_valid(&self) -> (r: bool)
        ensures
            r == self.wf(),
    {
        self.cfg.width > 0 && self.cfg.height > 0 && self.cfg.paddle_accel >= 0
            && self.cfg.friction_num >= 0 && self.cfg.friction_den > 0 && self.p1.size.x > 0
            && self.p1.size.y > 0 && self.p2.size.x > 0 && self.p2.size.y > 0
            && self.ball.size.x > 0 && self.ball.size.y > 0
    }

    /// Places the paddles at their margins from the side edges, vertically
    /// centered, and serves.
    pub fn start(&mut self, serve: Serve)
        requires
            old(self).wf(),
            serve.wf(),
        ensures
            *final(self) == (Pong {
                p1: GameObject {
                    pos: vec2(
                        old(self).p1.size.x / 2 + PADDLE_MARGIN,
                        old(self).cfg.height / 2,
                    ),
                    ..old(self).p1
                },
                p2: GameObject {
                    pos: vec2(
                        old(self).cfg.width - old(self).p2.size.x / 2 - PADDLE_MARGIN,
                        old(self).cfg.height / 2,
                    ),
                    ..old(self).p2
                },
                ..*old(self)
            }).served(serve),
            final(self).wf(),
    {
        self.p1.pos = Vec2 { x: self.p1.size.x / 2 + PADDLE_MARGIN, y: self.cfg.height / 2 };
        self.p2.pos = Vec2 {
            x: self.cfg.width - self.p2.size.x / 2 - PADDLE_MARGIN,
            y: self.cfg.height / 2,
        };
        self.reset(serve);
    }

    /// Puts the ball at the center of the field and launches it by `serve` in
    /// the direction of the serving side. The paddles are left as they are.
    pub fn reset(&mut self, serve: Serve)
        requires
            old(self).wf(),
            serve.wf(),
        ensures
            *final(self) == old(self).served(serve),
            final(self).wf(),
    {
        self.ball.pos = Vec2 { x: self.cfg.width / 2, y: self.cfg.height / 2 };
        let dir = self.serve_direction();
        let vx = if dir < 0 {
            -serve.speed_x
        } else {
            serve.speed_x
        };
        self.ball.vel = Vec2 { x: vx, y: serve.vel_y };
    }

    /// -1 when the left side serves, +1 when the right side does.
    pub fn serve_direction(&self) -> (r: i64)
        ensures
            r == direction(self.server),
    {
        match self.server {
            Player::Left => -1,
            Player::Right => 1,
        }
    }

    /// Pressing the up or down key holds it; other keys change nothing.
    pub fn key_press(&mut self, key: Key)
        ensures
            *final(self) == (match key {
                Key::Up => Pong { up: true, ..*old(self) },
                Key::Down => Pong { down: true, ..*old(self) },
                Key::Other => *old(self),
            }),
    {
        match key {
            Key::Up => {
                self.up = true;
            },
            Key::Down => {
                self.down = true;
            },
            Key::Other => {},
        }
    }

    /// Releasing the up or down key lets it go; other keys change nothing.
    pub fn key_release(&mut self, key: Key)
        ensures
            *final(self) == (match key {
                Key::Up => Pong { up: false, ..*old(self) },
                Key::Down => Pong { down: false, ..*old(self) },
                Key::Other => *old(self),
            }),
    {
        match key {
            Key::Up => {
                self.up = false;
            },
            Key::Down => {
                self.down = false;
            },
            Key::Other => {},
        }
    }

    /// One step of the control law for a paddle. Returns `false`, and leaves
    /// the paddle as it was, when its velocity would overflow.
    pub fn handle_paddle(paddle: &mut GameObject, up: bool, down: bool, accel: i64, dt: i64) -> (r:
        bool)
        requires
            accel >= 0,
            dt >= 0,
        ensures
            r == after_control(*old(paddle), up, down, accel as int, dt as int) is Some,
            r ==> Some(*final(paddle)) == after_control(
                *old(paddle),
                up,
                down,
                accel as int,
                dt as int,
            ),
            !r ==> *final(paddle) == *old(paddle),
    {
        let v = paddle.vel.y as i128;
        let step = mul_wide(accel as i128, dt as i128);
        let nv: i128 = if up {
            v - step
        } else if down {
            v + step
        } else {
            let mag: i128 = if v < 0 {
                -v
            } else {
                v
            };
            if step >= mag {
                0
            } else if v > 0 {
                v - step
            } else {
                v + step
            }
        };
        if !in_i64(nv) {
            return false;
        }
        paddle.vel.y = nv as i64;
        true
    }

    /// Moves the object by its velocity over `dt` and keeps it inside the field
    /// of the given height, reversing (`bounce`) or stopping its vertical
    /// velocity at a wall. Returns `false`, and leaves the object as it was,
    /// when a value would overflow.
    pub fn handle_game_object(obj: &mut GameObject, dt: i64, bounce: bool, height: i64) -> (r: bool)
        requires
            old(obj).wf(),
        ensures
            r == after_motion(*old(obj), dt as int, bounce, height as int) is Some,
            r ==> Some(*final(obj)) == after_motion(*old(obj), dt as int, bounce, height as int),
            !r ==> *final(obj) == *old(obj),
    {
        let x = obj.pos.x as i128 + mul_wide(obj.vel.x as i128, dt as i128);
        let mut y = obj.pos.y as i128 + mul_wide(obj.vel.y as i128, dt as i128);
        let mut v = obj.vel.y as i128;
        let s = obj.size.y as i128;
        let h = height as i128;
        let half = s / 2;
        let hu = (s + 1) / 2;
        assert(2 * y + s >= 2 * h <==> y >= h - half);
        if y >= h - half {
            y = h - hu;
            v = if bounce {
                -v
            } else {
                0
            };
        }
        assert(2 * y - s <= 0 <==> y <= half);
        if y <= half {
            y = hu;
            v = if bounce {
                -v
            } else {
                0
            };
        }
        if !(in_i64(x) && in_i64(y) && in_i64(v)) {
            return false;
        }
        obj.pos = Vec2 { x: x as i64, y: y as i64 };
        obj.vel = Vec2 { x: obj.vel.x, y: v as i64 };
        true
    }

    /// The ball meets both paddles in turn, then a ball past a side edge scores
    /// and `serve` launches the next rally. Returns `false`, and leaves the
    /// state as it was, when a velocity would overflow.
    pub fn handle_ball(&mut self, serve: Serve) -> (r: bool)
        requires
            old(self).wf(),
            serve.wf(),
        ensures
            r == old(self).ball_resolved(serve) is Some,
            r ==> Some(*final(self)) == old(self).ball_resolved(serve),
            !r ==> *final(self) == *old(self),
            final(self).wf(),
    {
        let mut ball = self.ball;
        if !bounce_off(&mut ball, &self.p1, self.cfg.friction_num, self.cfg.friction_den) {
            return false;
        }
        if !bounce_off(&mut ball, &self.p2, self.cfg.friction_num, self.cfg.friction_den) {
            return false;
        }
        self.ball = ball;
        if self.ball.pos.x > self.cfg.width {
            self.score(Player::Left, serve);
        } else if self.ball.pos.x < 0 {
            self.score(Player::Right, serve);
        }
        true
    }

    /// `player` scores: the other side serves next, and the ball is served.
    pub fn score(&mut self, player: Player, serve: Serve)
        requires
            old(self).wf(),
            serve.wf(),
        ensures
            *final(self) == old(self).scored(player, serve),
            final(self).server == other_side(player),
            final(self).wf(),
    {
        match player {
            Player::Left => {
                self.server = Player::Right;
            },
            Player::Right => {
                self.server = Player::Left;
            },
        }
        self.reset(serve);
    }

    /// Advances the match by `dt` units of time: the AI paddle picks its keys,
    /// both paddles follow the control law, all objects move and are held
    /// inside the field, the ball meets the paddles, and a ball past a side
    /// edge scores, after which `serve` launches the next rally. A negative
    /// `dt` is refused; so is a step in which a value would overflow. Either
    /// way the state is then left as it was.
    pub fn update(&mut self, dt: i64, serve: Serve) -> (r: Result<(), StepError>)
        requires
            old(self).wf(),
            serve.wf(),
        ensures
            final(self).wf(),
            dt < 0 ==> r == Err::<(), StepError>(StepError::NegativeTime) && *final(self) == *old(
                self,
            ),
            dt >= 0 ==> match old(self).next_state(dt as int, serve) {
                Some(n) => r is Ok && *final(self) == n,
                None => r == Err::<(), StepError>(StepError::Overflow) && *final(self) == *old(
                    self,
                ),
            },
    {
        if dt < 0 {
            return Err(StepError::NegativeTime);
        }
        let mut next = *self;
        let mut ai_up = false;
        let mut ai_down = false;
        if next.ball.vel.x > 0 {
            if next.ball.pos.y > next.p2.pos.y {
                ai_down = true;
            } else if next.ball.pos.y < next.p2.pos.y {
                ai_up = true;
            }
        }
        let accel = next.cfg.paddle_accel;
        let height = next.cfg.height;
        if !Pong::handle_paddle(&mut next.p1, next.up, next.down, accel, dt) {
            return Err(StepError::Overflow);
        }
        if !Pong::handle_paddle(&mut next.p2, ai_up, ai_down, accel, dt) {
            return Err(StepError::Overflow);
        }
        let ghost controlled = next;
        if !Pong::handle_game_object(&mut next.p1, dt, false, height) {
            return Err(StepError::Overflow);
        }
        if !Pong::handle_game_object(&mut next.p2, dt, false, height) {
            return Err(StepError::Overflow);
        }
        if !Pong::handle_game_object(&mut next.ball, dt, true, height) {
            return Err(StepError::Overflow);
        }
        assert(controlled.moved(dt as int) == Some(next));
        if !next.handle_ball(serve) {
            return Err(StepError::Overflow);
        }
        *self = next;
        Ok(())
    }
}

/// The ball meets the paddle: when they intersect, its horizontal velocity is
/// reversed and the paddle's spin is added to its vertical velocity. Returns
/// `false`, and leaves the ball as it was, when a velocity would overflow.
fn bounce_off(ball: &mut GameObject, paddle: &GameObject, num: i64, den: i64) -> (r: bool)
    requires
        num >= 0,
        den > 0,
    ensures
        r == after_hit(*old(ball), *paddle, num as int, den as int) is Some,
        r ==> Some(*final(ball)) == after_hit(*old(ball), *paddle, num as int, den as int),
        !r ==> *final(ball) == *old(ball),
{
    if !ball.intersects(paddle) {
        return true;
    }
    let pv = paddle.vel.y as i128;
    let s: i128 = if pv >= 0 {
        mul_wide(pv, num as i128) / (den as i128)
    } else {
        -(mul_wide(-pv, num as i128) / (den as i128))
    };
    let vx = -(ball.vel.x as i128);
    let vy = ball.vel.y as i128 + s;
    if !(in_i64(vx) && in_i64(vy)) {
        return false;
    }
    ball.vel = Vec2 { x: vx as i64, y: vy as i64 };
    true
}

} // verus!
