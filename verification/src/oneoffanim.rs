//! Transient visual markers (explosions and smoke puffs): spawned at a
//! hit point, rate-limited, advanced frame by frame, and removed once
//! their last frame is reached.

use vstd::prelude::*;
use crate::geom::Vec2i;
use crate::seqs::lemma_filter_push;
use crate::traits::Cleanable;

verus! {

/// Number of frames of the explosion marker.
pub const EXPLOSION_FRAMES: u8 = 10;

/// Number of frames of the smoke marker.
pub const SMOKE_FRAMES: u8 = 6;

/// Smallest spacing between two markers of the same kind, so a burst
/// of hits does not stack markers in one place.
pub const MARKER_ADD_INTERVAL_MS: u64 = 200;

/// Spacing of the shared frame advance.
pub const FRAME_ADVANCE_INTERVAL_MS: u64 = 100;

/// One transient marker: its position and how far its animation got.
#[derive(Clone, Copy, Debug)]
pub struct OneOffAnimation {
    pub current_frame: u8,
    pub position: Vec2i,
}

impl OneOffAnimation {
    pub fn new(position: Vec2i) -> (r: OneOffAnimation)
        ensures
            r.current_frame == 0,
            r.position == position,
    {
        OneOffAnimation { position, current_frame: 0 }
    }

    /// The marker one frame later.
    pub open spec fn advanced_spec(self) -> OneOffAnimation {
        OneOffAnimation { current_frame: (self.current_frame + 1) as u8, position: self.position }
    }
}

/// Whether a rate-limited add is allowed at instant `now`, given the
/// instant of the last add.
pub open spec fn marker_window_open_spec(last: int, now: int) -> bool {
    now > last + MARKER_ADD_INTERVAL_MS
}

/// Owns the transient markers and their shared frame clock.
#[derive(Debug)]
pub struct OneOffAnimationManager {
    pub explosions: Vec<OneOffAnimation>,
    pub smokes: Vec<OneOffAnimation>,
    pub last_updated_ms: u64,
    pub last_smoke_added_ms: u64,
    pub last_explosion_added_ms: u64,
}

/// Remove the markers that have reached `final_frame`.
fn retain_unfinished(v: &mut Vec<OneOffAnimation>, final_frame: u8)
    ensures
        final(v)@ == old(v)@.filter(
            |a: OneOffAnimation| a.current_frame != final_frame,
        ),
{
    let ghost all = v@;
    let ghost pred = |a: OneOffAnimation| a.current_frame != final_frame;
    let mut kept: Vec<OneOffAnimation> = Vec::new();
    let mut i: usize = 0;
    while i < v.len()
        invariant
            i <= all.len(),
            v@ == all,
            pred == (|a: OneOffAnimation| a.current_frame != final_frame),
            kept@ == all.take(i as int).filter(pred),
        decreases all.len() - i,
    {
        let a = v[i];
        proof {
            assert(all.take(i + 1) =~= all.take(i as int).push(all[i as int]));
            lemma_filter_push(all.take(i as int), a, pred);
        }
        if a.current_frame != final_frame {
            kept.push(a);
        }
        i = i + 1;
    }
    proof {
        assert(all.take(all.len() as int) =~= all);
    }
    *v = kept;
}

/// Advance every marker by one frame.
fn advance_frames(v: &mut Vec<OneOffAnimation>)
    requires
        forall|i: int| 0 <= i < old(v)@.len() ==> (#[trigger] old(v)@[i]).current_frame < 250,
    ensures
        final(v)@ == old(v)@.map_values(|a: OneOffAnimation| a.advanced_spec()),
{
    let ghost all = v@;
    let ghost f = |a: OneOffAnimation| a.advanced_spec();
    let mut i: usize = 0;
    while i < v.len()
        invariant
            i <= all.len(),
            v@.len() == all.len(),
            f == (|a: OneOffAnimation| a.advanced_spec()),
            forall|j: int| 0 <= j < all.len() ==> (#[trigger] all[j]).current_frame < 250,
            forall|j: int| i <= j < all.len() ==> v@[j] == all[j],
            forall|j: int| 0 <= j < i ==> v@[j] == f(#[trigger] all[j]),
        decreases all.len() - i,
    {
        proof {
            assert(v@[i as int] == all[i as int]);
            assert(all[i as int].current_frame < 250);
        }
        let mut a = v[i];
        a.current_frame = a.current_frame + 1;
        v[i] = a;
        i = i + 1;
    }
    proof {
        assert(v@ =~= all.map_values(f));
    }
}

impl Cleanable for OneOffAnimationManager {
    /// Cleaning up removes exactly the markers that have reached
    /// their final frame; the clocks are untouched.
    open spec fn cleaned(pre: OneOffAnimationManager, post: OneOffAnimationManager) -> bool {
        &&& post.explosions@ == pre.explosions@.filter(
            |a: OneOffAnimation| a.current_frame != EXPLOSION_FRAMES - 1,
        )
        &&& post.smokes@ == pre.smokes@.filter(
            |a: OneOffAnimation| a.current_frame != SMOKE_FRAMES - 1,
        )
        &&& post.last_updated_ms == pre.last_updated_ms
        &&& post.last_smoke_added_ms == pre.last_smoke_added_ms
        &&& post.last_explosion_added_ms == pre.last_explosion_added_ms
    }

    /// Remove animations that have finished.
    fn clean_up(&mut self) {
        retain_unfinished(&mut self.explosions, EXPLOSION_FRAMES - 1);
        retain_unfinished(&mut self.smokes, SMOKE_FRAMES - 1);
    }
}

impl OneOffAnimationManager {
    /// No marker past its final frame.
    pub open spec fn wf(self) -> bool {
        &&& forall|i: int|
            0 <= i < self.explosions@.len() ==> (#[trigger] self.explosions@[i]).current_frame
                < EXPLOSION_FRAMES
        &&& forall|i: int|
            0 <= i < self.smokes@.len() ==> (#[trigger] self.smokes@[i]).current_frame
                < SMOKE_FRAMES
    }

    pub fn new(now_ms: u64) -> (r: OneOffAnimationManager)
        ensures
            r.explosions@.len() == 0,
            r.smokes@.len() == 0,
            r.last_updated_ms == now_ms,
            r.last_smoke_added_ms == now_ms,
            r.last_explosion_added_ms == now_ms,
            r.wf(),
    {
        OneOffAnimationManager {
            explosions: Vec::new(),
            smokes: Vec::new(),
            last_updated_ms: now_ms,
            last_smoke_added_ms: now_ms,
            last_explosion_added_ms: now_ms,
        }
    }

    fn can_add_explosion(&self, now_ms: u64) -> (r: bool)
        ensures
            r == marker_window_open_spec(self.last_explosion_added_ms as int, now_ms as int),
    {
        now_ms > self.last_explosion_added_ms && now_ms - self.last_explosion_added_ms
            > MARKER_ADD_INTERVAL_MS
    }

    fn can_add_smoke(&self, now_ms: u64) -> (r: bool)
        ensures
            r == marker_window_open_spec(self.last_smoke_added_ms as int, now_ms as int),
    {
        now_ms > self.last_smoke_added_ms && now_ms - self.last_smoke_added_ms
            > MARKER_ADD_INTERVAL_MS
    }

    /// Spawn an explosion marker at `position`, unless one was spawned
    /// too recently.
    pub fn add_explosion(&mut self, position: Vec2i, now_ms: u64)
        ensures
            marker_window_open_spec(old(self).last_explosion_added_ms as int, now_ms as int)
                ==> *final(self) == (OneOffAnimationManager {
                explosions: final(self).explosions,
                last_explosion_added_ms: now_ms,
                ..*old(self)
            }) && final(self).explosions@ == old(self).explosions@.push(
                OneOffAnimation { current_frame: 0, position },
            ),
            !marker_window_open_spec(old(self).last_explosion_added_ms as int, now_ms as int)
                ==> *final(self) == *old(self),
    {
        if !self.can_add_explosion(now_ms) {
            return ;
        }
        self.last_explosion_added_ms = now_ms;
        let marker = OneOffAnimation::new(position);
        self.explosions.push(marker);
    }

    /// Spawn a smoke marker at `position`, unless one was spawned too
    /// recently.
    pub fn add_smoke(&mut self, position: Vec2i, now_ms: u64)
        ensures
            marker_window_open_spec(old(self).last_smoke_added_ms as int, now_ms as int)
                ==> *final(self) == (OneOffAnimationManager {
                smokes: final(self).smokes,
                last_smoke_added_ms: now_ms,
                ..*old(self)
            }) && final(self).smokes@ == old(self).smokes@.push(
                OneOffAnimation { current_frame: 0, position },
            ),
            !marker_window_open_spec(old(self).last_smoke_added_ms as int, now_ms as int)
                ==> *final(self) == *old(self),
    {
        if !self.can_add_smoke(now_ms) {
            return ;
        }
        self.last_smoke_added_ms = now_ms;
        let marker = OneOffAnimation::new(position);
        self.smokes.push(marker);
    }

    /// One marker tick: drop finished markers, then advance every
    /// frame once the shared frame clock allows it.
    pub fn update(&mut self, now_ms: u64)
        requires
            old(self).wf(),
        ensures
            final(self).wf(),
            ({
                let kept_explosions = old(self).explosions@.filter(
                    |a: OneOffAnimation| a.current_frame != EXPLOSION_FRAMES - 1,
                );
                let kept_smokes = old(self).smokes@.filter(
                    |a: OneOffAnimation| a.current_frame != SMOKE_FRAMES - 1,
                );
                let advance = now_ms > old(self).last_updated_ms + FRAME_ADVANCE_INTERVAL_MS;
                &&& final(self).explosions@ == (if advance {
                    kept_explosions.map_values(|a: OneOffAnimation| a.advanced_spec())
                } else {
                    kept_explosions
                })
                &&& final(self).smokes@ == (if advance {
                    kept_smokes.map_values(|a: OneOffAnimation| a.advanced_spec())
                } else {
                    kept_smokes
                })
                &&& final(self).last_updated_ms == (if advance {
                    now_ms
                } else {
                    old(self).last_updated_ms
                })
            }),
            final(self).last_smoke_added_ms == old(self).last_smoke_added_ms,
            final(self).last_explosion_added_ms == old(self).last_explosion_added_ms,
    {
        self.clean_up();
        proof {
            let pred_e = |a: OneOffAnimation| a.current_frame != EXPLOSION_FRAMES - 1;
            let pred_s = |a: OneOffAnimation| a.current_frame != SMOKE_FRAMES - 1;
            let low_e = |a: OneOffAnimation| a.current_frame < EXPLOSION_FRAMES;
            let low_s = |a: OneOffAnimation| a.current_frame < SMOKE_FRAMES;
            crate::seqs::lemma_filter_preserves_all(old(self).explosions@, pred_e, low_e);
            crate::seqs::lemma_filter_preserves_all(old(self).smokes@, pred_s, low_s);
            assert forall|i: int|
                0 <= i < self.explosions@.len() implies (#[trigger] self.explosions@[i]).current_frame
                != EXPLOSION_FRAMES - 1 by {
                old(self).explosions@.lemma_filter_pred(pred_e, i);
            }
            assert forall|i: int|
                0 <= i < self.smokes@.len() implies (#[trigger] self.smokes@[i]).current_frame
                != SMOKE_FRAMES - 1 by {
                old(self).smokes@.lemma_filter_pred(pred_s, i);
            }
        }
        if !self.can_update_frames(now_ms) {
            return ;
        }
        self.last_updated_ms = now_ms;
        advance_frames(&mut self.explosions);
        advance_frames(&mut self.smokes);
    }

    fn can_update_frames(&self, now_ms: u64) -> (r: bool)
        ensures
            r == (now_ms > self.last_updated_ms + FRAME_ADVANCE_INTERVAL_MS),
    {
        now_ms > self.last_updated_ms && now_ms - self.last_updated_ms
            > FRAME_ADVANCE_INTERVAL_MS
    }
}

} // verus!
