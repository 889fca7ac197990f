//! The fixed-order frame loop: once per frame the player controller runs
//! first and the camera follower second, so the camera always chases the
//! position the player update of the same frame just wrote.

use vstd::prelude::*;

use crate::camera::Camera;
use crate::camera::camera_step_spec;
use crate::camera::update_camera;
use crate::catalog::AnimationCatalog;
use crate::catalog::AnimationKey;
use crate::motion::InputState;
use crate::player::DT_LIMIT_MS;
use crate::player::Player;
use crate::player::player_step_spec;
use crate::player::update_player;

verus! {

/// Runs one whole frame in the fixed order input -> player -> camera: the
/// player takes its step first, and the camera then follows the player's new
/// position — the same frame's, never the previous frame's. Returns the
/// player's animation switch request, if any, for the renderer.
pub fn update_frame(
    player: &mut Player,
    camera: &mut Camera,
    catalog: &AnimationCatalog,
    input: InputState,
    follow_rate_milli: u32,
    dt_ms: u32,
) -> (switch: Option<AnimationKey>)
    requires
        old(player).wf(),
        old(camera).wf(),
        dt_ms <= DT_LIMIT_MS,
    ensures
        player_step_spec(*old(player), *final(player), catalog@, input, dt_ms, switch),
        camera_step_spec(
            *old(camera),
            *final(camera),
            final(player).position,
            follow_rate_milli,
            dt_ms,
        ),
        final(camera).wf(),
{
    let switch = update_player(player, catalog, input, dt_ms);
    update_camera(camera, player.position, follow_rate_milli, dt_ms);
    switch
}

} // verus!
