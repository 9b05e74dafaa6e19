use vstd::prelude::*;
use crate::asset::Asset;
use crate::body::{Body, PERMILLE, Velocity, moved, moved_part};
use crate::camera::Camera;
use crate::geometry::{Aabb, Extent, Vec2};

verus! {

/// Playback state of a sprite-sheet animation of `cols` by `rows` cells.
#[derive(Clone, Copy, Debug, PartialEq, Eq, Structural)]
pub struct Animation {
    pub cols: u32,
    pub rows: u32,
    pub frame: u32,
    pub loops: bool,
}

impl Animation {
    pub open spec fn frame_count(self) -> int {
        self.cols * self.rows
    }

    pub open spec fn wf(self) -> bool {
        &&& self.cols >= 1
        &&& self.rows >= 1
        &&& self.frame_count() <= u32::MAX
        &&& self.frame < self.frame_count()
    }

    pub open spec fn at_last_frame(self) -> bool {
        self.frame == self.frame_count() - 1
    }

    /// The animation one tick later: the next frame, or back to the first
    /// after the last one when it loops; a finished one stays where it is.
    pub open spec fn advanced(self) -> Animation {
        if self.at_last_frame() {
            if self.loops {
                Animation { frame: 0, ..self }
            } else {
                self
            }
        } else {
            Animation { frame: (self.frame + 1) as u32, ..self }
        }
    }

    /// Advancing past the last frame ends a non-looping animation.
    pub open spec fn finishes(self) -> bool {
        self.at_last_frame() && !self.loops
    }

    /// The animation after `n` ticks.
    pub open spec fn after(self, n: nat) -> Animation
        decreases n,
    {
        if n == 0 {
            self
        } else {
            self.after((n - 1) as nat).advanced()
        }
    }
}

/// How to draw one sprite: the sheet cell `(cell_col, cell_row)` of a
/// `cols` by `rows` sheet, centred on `dest` in view coordinates.
#[derive(Clone, Copy, Debug, PartialEq, Eq, Structural)]
pub struct SpriteDraw {
    pub asset: Asset,
    pub dest: Vec2,
    pub rotation: u8,
    pub scale: Extent,
    pub cell_col: u32,
    pub cell_row: u32,
    pub cols: u32,
    pub rows: u32,
}

/// A body with an animation, a sprite, and a life flag.
#[derive(Clone, Copy, Debug, PartialEq, Eq, Structural)]
pub struct Unit {
    pub is_dead: bool,
    pub asset_key: Asset,
    pub body: Body,
    pub animation: Animation,
}

impl Unit {
    pub open spec fn wf(self) -> bool {
        self.animation.wf()
    }

    /// The unit one tick later: animation advanced, then position moved.
    pub open spec fn updated(self) -> Unit {
        Unit {
            is_dead: self.is_dead || self.animation.finishes(),
            animation: self.animation.advanced(),
            body: Body { pos: moved(self.body.pos, self.body.velocity), ..self.body },
            ..self
        }
    }

    /// The collision box of a live collidable unit.
    pub open spec fn collision_area_spec(self) -> Option<Aabb> {
        if self.body.collidable && !self.is_dead {
            Some(self.body.area_spec())
        } else {
            None
        }
    }

    /// How a live unit is drawn `alpha / 1000` of a tick after its last
    /// update; a dead one is not drawn.
    pub open spec fn drawn(self, alpha: int, camera: Camera) -> Option<SpriteDraw> {
        if self.is_dead {
            None
        } else {
            Some(
                SpriteDraw {
                    asset: self.asset_key,
                    dest: camera.view_spec(moved_part(self.body.pos, self.body.velocity, alpha)),
                    rotation: self.body.rotation,
                    scale: self.body.scale,
                    cell_col: (self.animation.frame % self.animation.cols) as u32,
                    cell_row: (self.animation.frame / self.animation.cols) as u32,
                    cols: self.animation.cols,
                    rows: self.animation.rows,
                },
            )
        }
    }

    /// A live unit on the first frame of a `sheet_w` by `sheet_h` animation.
    pub fn new(body: Body, asset_key: Asset, sheet_w: u32, sheet_h: u32, animation_repeats: bool) -> (r: Unit)
        requires
            sheet_w >= 1,
            sheet_h >= 1,
            sheet_w * sheet_h <= u32::MAX,
        ensures
            r.wf(),
            r == (Unit {
                is_dead: false,
                asset_key,
                body,
                animation: Animation { cols: sheet_w, rows: sheet_h, frame: 0, loops: animation_repeats },
            }),
    {
        assert(sheet_w * sheet_h >= 1) by (nonlinear_arith)
            requires
                sheet_w >= 1,
                sheet_h >= 1,
        ;
        Unit {
            is_dead: false,
            asset_key,
            body,
            animation: Animation { cols: sheet_w, rows: sheet_h, frame: 0, loops: animation_repeats },
        }
    }

    fn update_animation(&mut self)
        requires
            old(self).wf(),
        ensures
            final(self).wf(),
            *final(self) == (Unit {
                is_dead: old(self).is_dead || old(self).animation.finishes(),
                animation: old(self).animation.advanced(),
                ..*old(self)
            }),
    {
        let last = self.animation.cols * self.animation.rows - 1;
        if self.animation.frame == last {
            if self.animation.loops {
                self.animation.frame = 0;
            } else {
                self.set_dead();
            }
        } else {
            self.animation.frame = self.animation.frame + 1;
        }
    }

    /// One tick: advance the animation, then move by the velocity.
    pub fn update(&mut self)
        requires
            old(self).wf(),
        ensures
            final(self).wf(),
            *final(self) == old(self).updated(),
    {
        self.update_animation();
        self.body.update_pos();
    }

    pub fn set_velocity(&mut self, velocity: Velocity)
        ensures
            *final(self) == (Unit { body: Body { velocity, ..old(self).body }, ..*old(self) }),
    {
        self.body.velocity = velocity;
    }

    pub fn get_body(&self) -> (r: Body)
        ensures
            r == self.body,
    {
        self.body
    }

    pub fn set_body(&mut self, body: Body)
        ensures
            *final(self) == (Unit { body, ..*old(self) }),
    {
        self.body = body;
    }

    pub fn is_dead(&self) -> (r: bool)
        ensures
            r == self.is_dead,
    {
        self.is_dead
    }

    pub fn set_dead(&mut self)
        ensures
            *final(self) == (Unit { is_dead: true, ..*old(self) }),
    {
        self.is_dead = true;
    }

    pub fn collision_area(&self) -> (r: Option<Aabb>)
        ensures
            r == self.collision_area_spec(),
    {
        if self.body.collidable && !self.is_dead {
            Some(self.body.area())
        } else {
            None
        }
    }

    pub fn draw(&self, alpha: u32, camera: &Camera) -> (r: Option<SpriteDraw>)
        requires
            self.wf(),
            alpha <= PERMILLE,
        ensures
            r == self.drawn(alpha as int, *camera),
    {
        if self.is_dead {
            None
        } else {
            let (cell_col, cell_row) = self.sheet_cell();
            Some(
                SpriteDraw {
                    asset: self.asset_key,
                    dest: self.body.get_view_position(alpha, camera),
                    rotation: self.body.rotation,
                    scale: self.body.scale,
                    cell_col,
                    cell_row,
                    cols: self.animation.cols,
                    rows: self.animation.rows,
                },
            )
        }
    }

    /// Column and row of the sprite-sheet cell shown now.
    pub fn sheet_cell(&self) -> (r: (u32, u32))
        requires
            self.wf(),
        ensures
            r == (self.animation.frame % self.animation.cols, self.animation.frame / self.animation.cols),
    {
        (self.animation.frame % self.animation.cols, self.animation.frame / self.animation.cols)
    }
}

/// A looping animation that starts on its first frame shows frame `k` after
/// `k` ticks, for each `k` below its frame count.
pub proof fn lemma_loop_counts_up(a: Animation, k: nat)
    requires
        a.wf(),
        a.loops,
        a.frame == 0,
        k < a.frame_count(),
    ensures
        a.after(k).frame == k,
        a.after(k).cols == a.cols && a.after(k).rows == a.rows && a.after(k).loops,
    decreases k,
{
    if k > 0 {
        lemma_loop_counts_up(a, (k - 1) as nat);
    }
}

/// A looping animation that starts on its first frame is back on it after
/// exactly as many ticks as the sheet has cells, and not before.
pub proof fn lemma_loop_period(a: Animation)
    requires
        a.wf(),
        a.loops,
        a.frame == 0,
    ensures
        a.after(a.frame_count() as nat).frame == 0,
        forall|k: nat| 0 < k < a.frame_count() ==> #[trigger] a.after(k).frame != 0,
{
    let n = a.frame_count() as nat;
    lemma_loop_counts_up(a, (n - 1) as nat);
    assert forall|k: nat| 0 < k < a.frame_count() implies #[trigger] a.after(k).frame != 0 by {
        lemma_loop_counts_up(a, k);
    }
}

/// A unit with an animation that does not loop lives through each tick
/// that moves it to a next frame, and is dead after the tick that would
/// take it past its last frame.
pub proof fn lemma_one_shot_ends(u: Unit)
    requires
        u.wf(),
        !u.animation.loops,
    ensures
        u.animation.at_last_frame() ==> u.updated().is_dead,
        !u.animation.at_last_frame() ==> u.updated().is_dead == u.is_dead && u.updated().animation.frame
            == u.animation.frame + 1,
{
}

} // verus!
