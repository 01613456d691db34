//! Body-against-body hit tests between the player and the enemy
//! collection, built on the shared rectangle-intersection primitive.

use vstd::prelude::*;
use crate::geom::{rects_intersect_spec, Rect, Vec2i, COORD_LIMIT};
use crate::humanoid::{body_rect_spec, Humanoid, BODY_SIDE};

verus! {

/// The body boxes of all the given humanoids, in order.
pub fn enemy_rects(enemies: &Vec<Humanoid>) -> (r: Vec<Rect>)
    ensures
        r@.len() == enemies@.len(),
        forall|i: int|
            0 <= i < enemies@.len() ==> r@[i] == body_rect_spec(
                #[trigger] enemies@[i].position,
            ),
{
    let mut rects: Vec<Rect> = Vec::new();
    let mut i: usize = 0;
    while i < enemies.len()
        invariant
            i <= enemies@.len(),
            rects@.len() == i,
            forall|j: int|
                0 <= j < i ==> rects@[j] == body_rect_spec(#[trigger] enemies@[j].position),
        decreases enemies@.len() - i,
    {
        let e = &enemies[i];
        rects.push(Rect::new(e.position.x, e.position.y, BODY_SIDE, BODY_SIDE));
        i = i + 1;
    }
    rects
}

/// Whether the player's body box intersects any enemy's body box.
pub fn player_collided_with_enemy(player_pos: Vec2i, enemies: &Vec<Humanoid>) -> (r: bool)
    requires
        player_pos.bounded(COORD_LIMIT as int),
        forall|i: int| 0 <= i < enemies@.len() ==> (#[trigger] enemies@[i]).wf(),
    ensures
        r == exists|i: int|
            0 <= i < enemies@.len() && rects_intersect_spec(
                body_rect_spec(player_pos),
                body_rect_spec(#[trigger] enemies@[i].position),
            ),
{
    let player_rect = Rect::new(player_pos.x, player_pos.y, BODY_SIDE, BODY_SIDE);
    let rects = enemy_rects(enemies);
    let mut i: usize = 0;
    while i < rects.len()
        invariant
            player_rect == body_rect_spec(player_pos),
            player_pos.bounded(COORD_LIMIT as int),
            i <= rects@.len(),
            rects@.len() == enemies@.len(),
            forall|j: int|
                0 <= j < enemies@.len() ==> rects@[j] == body_rect_spec(
                    #[trigger] enemies@[j].position,
                ),
            forall|j: int| 0 <= j < enemies@.len() ==> (#[trigger] enemies@[j]).wf(),
            forall|j: int|
                0 <= j < i ==> !rects_intersect_spec(
                    body_rect_spec(player_pos),
                    body_rect_spec(#[trigger] enemies@[j].position),
                ),
        decreases rects@.len() - i,
    {
        proof {
            assert(enemies@[i as int].wf());
        }
        if player_rect.intersects(&rects[i]) {
            proof {
                assert(rects_intersect_spec(
                    body_rect_spec(player_pos),
                    body_rect_spec(enemies@[i as int].position),
                ));
            }
            return true;
        }
        i = i + 1;
    }
    false
}

} // verus!
