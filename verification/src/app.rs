//! The animation of one session: where the sprite is, how fast it moves, how
//! it turns round at the edges of its render target, and what is drawn.
//!
//! Speeds are in half cells a tick. At an edge the speed along that axis is
//! drawn afresh: mostly the cruise speed, now and then a burst.

use crate::chance::draw_below;
use crate::geometry::clamp;
use crate::geometry::saturate;
use crate::geometry::Vector2;
use crate::sprite::Pixel;
use crate::sprite::PixelMap;
use rand::rngs::StdRng;
use vstd::prelude::*;

verus! {

/// Cruise speed along x: 1.5 cells a tick.
pub const CRUISE_X: i64 = 3;

/// Burst speed along x: 20 cells a tick.
pub const BURST_X: i64 = 40;

/// Cruise speed along y: 1 cell a tick.
pub const CRUISE_Y: i64 = 2;

/// Burst speed along y: 5 cells a tick.
pub const BURST_Y: i64 = 10;

/// A reflection along x is a burst one time in this many.
pub const BURST_ODDS_X: u32 = 2;

/// A reflection along y is a burst one time in this many.
pub const BURST_ODDS_Y: u32 = 5;

/// The band kept free at the far side along x: 32 cells.
pub const MARGIN_X: i64 = 64;

/// The band kept free at the far side along y: 16 cells.
pub const MARGIN_Y: i64 = 32;

/// The speed above which the sprite is shown alarmed: 10 cells a tick.
pub const ALARM_SPEED: i64 = 20;

/// The burst speed of an axis.
pub open spec fn burst_speed(is_x: bool) -> int {
    if is_x {
        BURST_X as int
    } else {
        BURST_Y as int
    }
}

/// The cruise speed of an axis.
pub open spec fn cruise_speed(is_x: bool) -> int {
    if is_x {
        CRUISE_X as int
    } else {
        CRUISE_Y as int
    }
}

/// The number of sides of the die that is rolled at a reflection.
pub open spec fn burst_odds(is_x: bool) -> int {
    if is_x {
        BURST_ODDS_X as int
    } else {
        BURST_ODDS_Y as int
    }
}

/// One roll of the die decides a burst: the roll 0.
pub open spec fn magnitude_of(roll: int, default: int, is_x: bool) -> int {
    if roll == 0 {
        burst_speed(is_x)
    } else {
        default
    }
}

/// The direction of a velocity component: 1 forwards, -1 backwards. A
/// component at rest counts as forwards.
pub open spec fn heading(v: int) -> int {
    if v >= 0 {
        1
    } else {
        -1
    }
}

/// A velocity component after a reflection: the given magnitude, against the
/// old direction.
pub open spec fn turned(v: int, magnitude: int) -> int {
    if heading(v) == 1 {
        -magnitude
    } else {
        magnitude
    }
}

/// A velocity component after a reflection with a cruise or burst magnitude.
pub open spec fn reflected(v: int, burst: bool, is_x: bool) -> int {
    turned(
        v,
        if burst {
            burst_speed(is_x)
        } else {
            cruise_speed(is_x)
        },
    )
}

/// Whether a velocity is fast enough to alarm the sprite: its Euclidean
/// length exceeds `ALARM_SPEED`. The length counts, not the larger of the
/// two components: a burst along y alone does not alarm.
pub open spec fn alarming(velocity: Vector2) -> bool {
    velocity.x * velocity.x + velocity.y * velocity.y > ALARM_SPEED * ALARM_SPEED
}

/// Where a pixel of a sprite field is drawn on a target of the given height
/// (in cells), seen from the given camera offset.
pub open spec fn projected(pixel: Pixel, offset: Vector2, height: u16) -> Pixel {
    Pixel {
        at: Vector2 {
            x: saturate(pixel.at.x - offset.x) as i64,
            y: saturate(2 * height - pixel.at.y + offset.y) as i64,
        },
        color: pixel.color,
    }
}

/// The drawn points of a whole listing, in its order.
pub open spec fn scene(pixels: Seq<Pixel>, offset: Vector2, height: u16) -> Seq<Pixel> {
    Seq::new(pixels.len(), |i: int| projected(pixels[i], offset, height))
}

/// Which of the four possible reflections of one tick drew a burst.
pub struct Bursts {
    pub top: bool,
    pub bottom: bool,
    pub right: bool,
    pub left: bool,
}

/// Position and velocity of a sprite: an animation state without its random
/// source.
#[derive(Clone, Copy, Debug, PartialEq, Eq, Structural)]
pub struct Motion {
    pub offset: Vector2,
    pub velocity: Vector2,
}

impl Motion {
    /// The motion that every session starts with: at the origin, cruising
    /// backwards along both axes.
    pub open spec fn initial() -> Motion {
        Motion {
            offset: Vector2 { x: 0, y: 0 },
            velocity: Vector2 { x: (-CRUISE_X) as i64, y: (-CRUISE_Y) as i64 },
        }
    }

    /// The sprite has passed the top bound.
    pub open spec fn past_top(self) -> bool {
        self.offset.y > 0
    }

    /// The sprite has passed the bottom bound of a target `height` cells high.
    pub open spec fn past_bottom(self, height: u16) -> bool {
        self.offset.y < -(2 * height - MARGIN_Y)
    }

    /// The sprite has passed the right bound of a target `width` cells wide.
    pub open spec fn past_right(self, width: u16) -> bool {
        self.offset.x < -(2 * width - MARGIN_X)
    }

    /// The sprite has passed the left bound.
    pub open spec fn past_left(self) -> bool {
        self.offset.x > 0
    }

    /// The velocity after the boundary check: each bound that was passed
    /// reflects the velocity on its axis, top before bottom and right before
    /// left.
    pub open spec fn bounced(self, width: u16, height: u16, bursts: Bursts) -> Vector2 {
        let y0 = self.velocity.y as int;
        let y1 = if self.past_top() {
            reflected(y0, bursts.top, false)
        } else {
            y0
        };
        let y2 = if self.past_bottom(height) {
            reflected(y1, bursts.bottom, false)
        } else {
            y1
        };
        let x0 = self.velocity.x as int;
        let x1 = if self.past_right(width) {
            reflected(x0, bursts.right, true)
        } else {
            x0
        };
        let x2 = if self.past_left() {
            reflected(x1, bursts.left, true)
        } else {
            x1
        };
        Vector2 { x: x2 as i64, y: y2 as i64 }
    }

    /// The motion one tick later: the boundary check, then one step of the
    /// new velocity.
    pub open spec fn stepped(self, width: u16, height: u16, bursts: Bursts) -> Motion {
        let velocity = self.bounced(width, height, bursts);
        Motion { offset: self.offset.moved_by(velocity), velocity }
    }

    /// From `self` to `next` the velocity along y has turned round exactly
    /// if one of the two bounds along y was passed, and the same along x.
    pub open spec fn flips_at_one_bound(self, width: u16, height: u16, next: Motion) -> bool {
        &&& (self.past_top() != self.past_bottom(height)) <==> heading(next.velocity.y as int)
            == -heading(self.velocity.y as int)
        &&& (self.past_right(width) != self.past_left()) <==> heading(next.velocity.x as int)
            == -heading(self.velocity.x as int)
    }

    /// The sprite variant shown with this motion depends on the velocity
    /// alone.
    pub open spec fn scared(self) -> bool {
        alarming(self.velocity)
    }
}

/// The magnitude that a roll of the die gives: the burst speed of the axis
/// on a 0, `default` on anything else.
pub fn magnitude_for(roll: u32, default: i64, is_x: bool) -> (magnitude: i64)
    ensures
        magnitude == magnitude_of(roll as int, default as int, is_x),
{
    if roll == 0 {
        if is_x {
            BURST_X
        } else {
            BURST_Y
        }
    } else {
        default
    }
}

/// Turns a velocity component round: the given magnitude, against the old
/// direction.
pub fn turn(v: i64, magnitude: i64) -> (r: i64)
    ensures
        r == saturate(turned(v as int, magnitude as int)),
{
    if v >= 0 {
        clamp(-(magnitude as i128))
    } else {
        magnitude
    }
}

/// Whether a velocity alarms the sprite.
pub fn is_alarming(velocity: Vector2) -> (b: bool)
    ensures
        b == alarming(velocity),
{
    let limit: i64 = ALARM_SPEED;
    if velocity.x > limit || velocity.x < -limit || velocity.y > limit || velocity.y < -limit {
        assert(alarming(velocity)) by (nonlinear_arith)
            requires
                velocity.x > 20 || velocity.x < -20 || velocity.y > 20 || velocity.y < -20,
                ALARM_SPEED == 20,
        ;
        true
    } else {
        assert(0 <= velocity.x * velocity.x <= 400 && 0 <= velocity.y * velocity.y <= 400)
            by (nonlinear_arith)
            requires
                -20 <= velocity.x <= 20,
                -20 <= velocity.y <= 20,
        ;
        velocity.x * velocity.x + velocity.y * velocity.y > limit * limit
    }
}

/// Draws one pixel of a sprite field on a target `height` cells high.
pub fn project(pixel: Pixel, offset: Vector2, height: u16) -> (drawn: Pixel)
    ensures
        drawn == projected(pixel, offset, height),
{
    let x: i128 = pixel.at.x as i128 - offset.x as i128;
    let y: i128 = 2 * (height as i128) - pixel.at.y as i128 + offset.y as i128;
    Pixel { at: Vector2 { x: clamp(x), y: clamp(y) }, color: pixel.color }
}

/// The animation state of one session.
pub struct App {
    /// The camera offset: a growing offset moves the sprite left and down.
    pub offset: Vector2,
    /// The change of the offset in one tick.
    pub velocity: Vector2,
    /// The session's own random source.
    pub rng: StdRng,
}

impl View for App {
    type V = Motion;

    open spec fn view(&self) -> Motion {
        Motion { offset: self.offset, velocity: self.velocity }
    }
}

impl App {
    /// A fresh animation state that draws its magnitudes from `rng`.
    pub fn new(rng: StdRng) -> (app: App)
        ensures
            app@ == Motion::initial(),
            app.rng == rng,
    {
        App { offset: Vector2::zero(), velocity: Vector2 { x: -CRUISE_X, y: -CRUISE_Y }, rng }
    }

    /// Whether the alarmed sprite is shown: a matter of the velocity of the
    /// moment, and of nothing else.
    pub fn is_scared(&self) -> (b: bool)
        ensures
            b == alarming(self.velocity),
    {
        is_alarming(self.velocity)
    }

    /// Rolls the die of an axis, with as many sides as the odds of the axis
    /// say: the burst speed on a 0, `default` otherwise. Position and
    /// velocity stay as they are.
    pub fn generate_magnitude(&mut self, default: i64, is_x: bool) -> (magnitude: i64)
        ensures
            exists|roll: int|
                0 <= roll < burst_odds(is_x) && magnitude == #[trigger] magnitude_of(
                    roll,
                    default as int,
                    is_x,
                ),
            final(self)@ == old(self)@,
    {
        let odds: u32 = if is_x {
            BURST_ODDS_X
        } else {
            BURST_ODDS_Y
        };
        let roll: u32 = draw_below(&mut self.rng, odds);
        magnitude_for(roll, default, is_x)
    }

    /// Reflects the velocity along y.
    pub fn reverse_sy(&mut self)
        ensures
            final(self).offset == old(self).offset,
            final(self).velocity.x == old(self).velocity.x,
            exists|burst: bool|
                final(self).velocity.y == #[trigger] reflected(
                    old(self).velocity.y as int,
                    burst,
                    false,
                ),
    {
        let magnitude: i64 = self.generate_magnitude(CRUISE_Y, false);
        self.velocity.y = turn(self.velocity.y, magnitude);
        assert(self.velocity.y == reflected(
            old(self).velocity.y as int,
            magnitude != CRUISE_Y,
            false,
        ));
    }

    /// Reflects the velocity along x.
    pub fn reverse_sx(&mut self)
        ensures
            final(self).offset == old(self).offset,
            final(self).velocity.y == old(self).velocity.y,
            exists|burst: bool|
                final(self).velocity.x == #[trigger] reflected(
                    old(self).velocity.x as int,
                    burst,
                    true,
                ),
    {
        let magnitude: i64 = self.generate_magnitude(CRUISE_X, true);
        self.velocity.x = turn(self.velocity.x, magnitude);
        assert(self.velocity.x == reflected(
            old(self).velocity.x as int,
            magnitude != CRUISE_X,
            true,
        ));
    }

    /// The boundary check of a tick on a target of `width` by `height`
    /// cells: reflects the velocity on every axis on which the sprite has
    /// passed a bound, once for each bound passed.
    pub fn check_bounds(&mut self, width: u16, height: u16)
        ensures
            final(self).offset == old(self).offset,
            exists|bursts: Bursts|
                final(self).velocity == #[trigger] old(self)@.bounced(width, height, bursts),
            old(self)@.flips_at_one_bound(width, height, final(self)@),
    {
        let ghost start = self@;
        let ghost mut bursts = Bursts { top: false, bottom: false, right: false, left: false };
        if self.offset.y > 0 {
            let ghost before = self.velocity.y;
            self.reverse_sy();
            proof {
                bursts.top = choose|b: bool|
                    self.velocity.y == #[trigger] reflected(before as int, b, false);
            }
        }
        if self.offset.y < -(2 * (height as i64) - MARGIN_Y) {
            let ghost before = self.velocity.y;
            self.reverse_sy();
            proof {
                bursts.bottom = choose|b: bool|
                    self.velocity.y == #[trigger] reflected(before as int, b, false);
            }
        }
        if self.offset.x < -(2 * (width as i64) - MARGIN_X) {
            let ghost before = self.velocity.x;
            self.reverse_sx();
            proof {
                bursts.right = choose|b: bool|
                    self.velocity.x == #[trigger] reflected(before as int, b, true);
            }
        }
        if self.offset.x > 0 {
            let ghost before = self.velocity.x;
            self.reverse_sx();
            proof {
                bursts.left = choose|b: bool|
                    self.velocity.x == #[trigger] reflected(before as int, b, true);
            }
        }
        assert(self.velocity == start.bounced(width, height, bursts));
    }

    /// One tick without drawing: the boundary check, then one step of the
    /// velocity.
    pub fn tick(&mut self, width: u16, height: u16)
        ensures
            exists|bursts: Bursts|
                final(self)@ == #[trigger] old(self)@.stepped(width, height, bursts),
            old(self)@.flips_at_one_bound(width, height, final(self)@),
    {
        let ghost start = self@;
        self.check_bounds(width, height);
        let ghost bursts = choose|bursts: Bursts|
            self.velocity == #[trigger] start.bounced(width, height, bursts);
        self.offset = self.offset.advance(self.velocity);
        assert(self@ == start.stepped(width, height, bursts));
    }

    /// One tick on a target of `width` by `height` cells: moves the sprite
    /// as `tick` does, picks the alarmed field or the calm one by the new
    /// velocity, and returns the points to draw, one for each pixel of that
    /// field and in the field's order.
    pub fn draw(&mut self, width: u16, height: u16, normal: &PixelMap, scared: &PixelMap) -> (dots:
        Vec<Pixel>)
        ensures
            exists|bursts: Bursts|
                final(self)@ == #[trigger] old(self)@.stepped(width, height, bursts),
            old(self)@.flips_at_one_bound(width, height, final(self)@),
            dots@ == scene(
                if final(self)@.scared() {
                    scared.pixels()
                } else {
                    normal.pixels()
                },
                final(self).offset,
                height,
            ),
    {
        self.tick(width, height);
        let field: &PixelMap = if self.is_scared() {
            scared
        } else {
            normal
        };
        let n: usize = field.len();
        let mut dots: Vec<Pixel> = Vec::new();
        let mut i: usize = 0;
        while i < n
            invariant
                i <= n,
                n == field.pixels().len(),
                dots@ == scene(field.pixels().take(i as int), self.offset, height),
            decreases n - i,
        {
            match field.get(i) {
                Some(pixel) => {
                    dots.push(project(pixel, self.offset, height));
                },
                None => {},
            }
            i = i + 1;
        }
        dots
    }
}

/// A bound passed on one side only turns the velocity on that axis round,
/// whatever magnitude is drawn; with no bound passed, or with both, the
/// direction after the tick is the direction before it.
pub proof fn lemma_one_bound_flips(motion: Motion, width: u16, height: u16, bursts: Bursts)
    ensures
        motion.flips_at_one_bound(width, height, motion.stepped(width, height, bursts)),
{
}

/// The die of the x axis has two faces and that of the y axis five. Of the
/// faces of a die exactly one, the 0, gives the burst speed; every other
/// face gives the cruise speed, which is another speed.
pub proof fn lemma_one_face_bursts(is_x: bool, roll: int)
    requires
        0 <= roll < burst_odds(is_x),
    ensures
        burst_odds(is_x) == if is_x {
            2int
        } else {
            5int
        },
        burst_speed(is_x) != cruise_speed(is_x),
        magnitude_of(roll, cruise_speed(is_x), is_x) == burst_speed(is_x) <==> roll == 0,
        roll != 0 ==> magnitude_of(roll, cruise_speed(is_x), is_x) == cruise_speed(is_x),
{
}

/// The sprite variant is decided by the velocity of the moment: two motions
/// with the same velocity show the same variant, wherever they are and
/// however they got there.
pub proof fn lemma_mode_follows_velocity(a: Motion, b: Motion)
    requires
        a.velocity == b.velocity,
    ensures
        a.scared() == b.scared(),
{
}

/// While no bound is passed, a tick adds the velocity to the offset and
/// leaves the velocity alone. The sum is exact wherever it fits the range.
pub proof fn lemma_free_flight(motion: Motion, width: u16, height: u16, bursts: Bursts)
    requires
        !motion.past_top(),
        !motion.past_bottom(height),
        !motion.past_right(width),
        !motion.past_left(),
    ensures
        motion.stepped(width, height, bursts) == (Motion {
            offset: motion.offset.moved_by(motion.velocity),
            velocity: motion.velocity,
        }),
        i64::MIN <= motion.offset.x + motion.velocity.x <= i64::MAX ==> motion.stepped(
            width,
            height,
            bursts,
        ).offset.x == motion.offset.x + motion.velocity.x,
        i64::MIN <= motion.offset.y + motion.velocity.y <= i64::MAX ==> motion.stepped(
            width,
            height,
            bursts,
        ).offset.y == motion.offset.y + motion.velocity.y,
{
}

} // verus!
