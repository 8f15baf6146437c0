use vstd::prelude::*;
use crate::camera::{turned, axis, travel, CameraWrapper, FULL_TURN, Key, Motion};

verus! {

/// Bytes of one entity record in the instance buffer: two 4×4 matrices of
/// 32-bit floats.
pub const ENTITY_DATA_SIZE: u64 = 128;

/// Bytes of the camera uniform: view and projection matrices and a position.
pub const CAMERA_UNIFORM_SIZE: u64 = 144;

/// Bytes of the point-light uniform: a position and a colour.
pub const POINT_LIGHT_UNIFORM_SIZE: u64 = 32;

/// The entity count that keeps every instance-buffer offset inside `u64`.
pub const MAX_ENTITIES: usize = 0xFFFF_FFFF;

/// Microseconds for the light to go once round its orbit at 100° a second.
pub const LIGHT_ORBIT_MICROS: u64 = 3_600_000;

/// The size the presentation surface is configured with.
#[derive(Clone, Copy, Debug, PartialEq, Eq)]
pub struct SurfaceConfig {
    pub width: u32,
    pub height: u32,
}

/// One draw of a frame: pass `pass` draws entity `entity` with a single
/// instance, read from bytes `instance_start..instance_end` of the instance
/// buffer, over the first `index_count` indices of the entity's mesh.
#[derive(Clone, Copy, Debug, PartialEq, Eq)]
pub struct DrawCall {
    pub pass: usize,
    pub entity: usize,
    pub instance_start: u64,
    pub instance_end: u64,
    pub index_count: u32,
}

/// What acquiring the next frame from the surface can fail with.
#[derive(Clone, Copy, Debug, PartialEq, Eq)]
pub enum SurfaceError {
    Timeout,
    Outdated,
    Lost,
    OutOfMemory,
    Other,
}

/// What to do after a frame could not be acquired.
#[derive(Clone, Copy, Debug, PartialEq, Eq)]
pub enum Recovery {
    /// Reconfigure the surface to the window's current size; the frame is
    /// skipped.
    Reconfigure,
    /// Report the error and drop the frame; the loop goes on.
    Report,
}

/// What a frame update hands to the GPU side.
#[derive(Clone, Copy, Debug, PartialEq, Eq)]
pub struct FrameUpdate {
    /// Where the light stands on its orbit, in angle units.
    pub light_angle: u32,
    /// The entity that is moved onto the light.
    pub light_entity: usize,
    /// How far the camera moves.
    pub motion: Motion,
}

/// The state of the frame loop that is not held on the GPU.
pub struct AppState {
    pub surface_config: SurfaceConfig,
    pub is_surface_configured: bool,
    pub camera_wrapper: CameraWrapper,
    /// For each entity, in drawing order, the length of its index list.
    pub index_counts: Vec<u32>,
}

/// Where the light stands `since_start_us` microseconds after start: 100° a
/// second, in angle units.
pub open spec fn light_angle(since_start_us: int) -> int {
    ((since_start_us * FULL_TURN) / LIGHT_ORBIT_MICROS as int) % (FULL_TURN as int)
}

/// `0` becomes `1`; every other size stays.
pub open spec fn at_least_one(n: u32) -> u32 {
    if n == 0 { 1 } else { n }
}

/// The draw for entity `i`, which has `index_count` indices.
pub open spec fn draw_for(i: int, index_count: u32) -> DrawCall {
    DrawCall {
        pass: i as usize,
        entity: i as usize,
        instance_start: (ENTITY_DATA_SIZE * i) as u64,
        instance_end: (ENTITY_DATA_SIZE * (i + 1)) as u64,
        index_count,
    }
}

pub open spec fn recovery_for(e: SurfaceError) -> Recovery {
    match e {
        SurfaceError::Lost | SurfaceError::Outdated => Recovery::Reconfigure,
        _ => Recovery::Report,
    }
}

impl AppState {
    pub open spec fn wf(&self) -> bool {
        &&& self.camera_wrapper.wf()
        &&& self.index_counts@.len() <= MAX_ENTITIES
        &&& self.is_surface_configured ==> self.surface_config.width >= 1
            && self.surface_config.height >= 1
    }

    /// A frame loop over entities with the given index counts, drawn in
    /// that order; the surface has the window's size but is not yet
    /// configured, so nothing is drawn until the first `resize`.
    pub fn new(width: u32, height: u32, index_counts: Vec<u32>) -> (s: AppState)
        requires
            index_counts@.len() <= MAX_ENTITIES,
        ensures
            s.wf(),
            s.surface_config == (SurfaceConfig { width, height }),
            !s.is_surface_configured,
            s.camera_wrapper == CameraWrapper::spec_default(),
            s.index_counts@ == index_counts@,
    {
        AppState {
            surface_config: SurfaceConfig { width, height },
            is_surface_configured: false,
            camera_wrapper: CameraWrapper::default(),
            index_counts,
        }
    }

    /// Configures the surface for a window of `width × height`, raising
    /// each side to at least 1; returns the configuration to apply to the
    /// surface and the depth buffer.
    pub fn resize(&mut self, width: u32, height: u32) -> (c: SurfaceConfig)
        requires
            old(self).wf(),
        ensures
            final(self).wf(),
            c == (SurfaceConfig { width: at_least_one(width), height: at_least_one(height) }),
            c.width >= 1 && c.height >= 1,
            final(self).surface_config == c,
            final(self).is_surface_configured,
            final(self).camera_wrapper == old(self).camera_wrapper,
            final(self).index_counts@ == old(self).index_counts@,
    {
        let c = SurfaceConfig {
            width: if width == 0 { 1 } else { width },
            height: if height == 0 { 1 } else { height },
        };
        self.surface_config = c;
        self.is_surface_configured = true;
        c
    }

    /// The draws of the next frame: none while the surface is not
    /// configured (the frame is skipped); otherwise one per entity, in
    /// order, pass `i` drawing entity `i` from its own record of the
    /// instance buffer.
    pub fn render(&self) -> (plan: Option<Vec<DrawCall>>)
        requires
            self.wf(),
        ensures
            !self.is_surface_configured <==> plan is None,
            plan matches Some(draws) ==> draws@.len() == self.index_counts@.len() && forall|i: int|
                0 <= i < draws@.len() ==> #[trigger] draws@[i] == draw_for(
                    i,
                    self.index_counts@[i],
                ),
    {
        if !self.is_surface_configured {
            return None;
        }
        let n = self.index_counts.len();
        let mut draws: Vec<DrawCall> = Vec::new();
        let mut i: usize = 0;
        while i < n
            invariant
                n == self.index_counts@.len(),
                n <= MAX_ENTITIES,
                i <= n,
                draws@.len() == i,
                forall|j: int| 0 <= j < i ==> #[trigger] draws@[j] == draw_for(j, self.index_counts@[j]),
            decreases n - i,
        {
            let start: u64 = ENTITY_DATA_SIZE * i as u64;
            draws.push(
                DrawCall {
                    pass: i,
                    entity: i,
                    instance_start: start,
                    instance_end: start + ENTITY_DATA_SIZE,
                    index_count: self.index_counts[i],
                },
            );
            i = i + 1;
        }
        Some(draws)
    }

    /// Advances the frame: the light moves to its place on the orbit for
    /// `since_start_us`, entity 0 is moved onto it, and the camera advances
    /// by `dt_us`.
    pub fn update(&mut self, dt_us: u64, since_start_us: u64) -> (u: FrameUpdate)
        requires
            old(self).wf(),
        ensures
            final(self).wf(),
            u.light_angle == light_angle(since_start_us as int),
            u.light_entity == 0,
            (final(self).camera_wrapper.camera, final(self).camera_wrapper.camera_controller)
                == turned(
                old(self).camera_wrapper.camera,
                old(self).camera_wrapper.camera_controller,
                dt_us as int,
            ),
            u.motion.forward == axis(
                old(self).camera_wrapper.camera_controller.forward,
                old(self).camera_wrapper.camera_controller.backward,
            ) * travel(old(self).camera_wrapper.camera_controller.speed as int, dt_us as int),
            u.motion.right == axis(
                old(self).camera_wrapper.camera_controller.right,
                old(self).camera_wrapper.camera_controller.left,
            ) * travel(old(self).camera_wrapper.camera_controller.speed as int, dt_us as int),
            final(self).surface_config == old(self).surface_config,
            final(self).is_surface_configured == old(self).is_surface_configured,
            final(self).index_counts@ == old(self).index_counts@,
    {
        let light_angle = orbit_angle(since_start_us);
        let motion = self.camera_wrapper.update(dt_us);
        FrameUpdate { light_angle, light_entity: 0, motion }
    }

    pub fn handle_keyboard(&mut self, key: Key, pressed: bool)
        requires
            old(self).wf(),
        ensures
            final(self).wf(),
            final(self).camera_wrapper.camera == old(self).camera_wrapper.camera,
            final(self).camera_wrapper.camera_controller == (match key {
                Key::Forward => crate::camera::CameraController {
                    forward: pressed,
                    ..old(self).camera_wrapper.camera_controller
                },
                Key::Backward => crate::camera::CameraController {
                    backward: pressed,
                    ..old(self).camera_wrapper.camera_controller
                },
                Key::Left => crate::camera::CameraController {
                    left: pressed,
                    ..old(self).camera_wrapper.camera_controller
                },
                Key::Right => crate::camera::CameraController {
                    right: pressed,
                    ..old(self).camera_wrapper.camera_controller
                },
                Key::Unbound => old(self).camera_wrapper.camera_controller,
            }),
            final(self).surface_config == old(self).surface_config,
            final(self).is_surface_configured == old(self).is_surface_configured,
            final(self).index_counts@ == old(self).index_counts@,
    {
        self.camera_wrapper.handle_keyboard(key, pressed);
    }

    pub fn handle_mouse_motion(&mut self, dx: i32, dy: i32)
        requires
            old(self).wf(),
        ensures
            final(self).wf(),
            final(self).camera_wrapper.camera == old(self).camera_wrapper.camera,
            final(self).camera_wrapper.camera_controller == (crate::camera::CameraController {
                rotate_horizontal: dx,
                rotate_vertical: dy,
                ..old(self).camera_wrapper.camera_controller
            }),
            final(self).surface_config == old(self).surface_config,
            final(self).is_surface_configured == old(self).is_surface_configured,
            final(self).index_counts@ == old(self).index_counts@,
    {
        self.camera_wrapper.handle_mouse_motion(dx, dy);
    }

    /// How the loop goes on after acquiring a frame failed with `e`: a lost
    /// or outdated surface is reconfigured, anything else is reported.
    pub fn recovery(e: SurfaceError) -> (r: Recovery)
        ensures
            r == recovery_for(e),
    {
        match e {
            SurfaceError::Lost | SurfaceError::Outdated => Recovery::Reconfigure,
            _ => Recovery::Report,
        }
    }
}

/// The surface format to render to, given for each offered format whether
/// it is sRGB: the first sRGB one, else the first one; none where nothing is
/// offered.
pub fn preferred_format(is_srgb: &Vec<bool>) -> (r: Option<usize>)
    ensures
        is_srgb@.len() == 0 <==> r is None,
        r matches Some(i) ==> i < is_srgb@.len() && if exists|j: int|
            0 <= j < is_srgb@.len() && #[trigger] is_srgb@[j] {
            is_srgb@[i as int] && forall|j: int| 0 <= j < i ==> !#[trigger] is_srgb@[j]
        } else {
            i == 0
        },
{
    let mut i: usize = 0;
    while i < is_srgb.len()
        invariant
            i <= is_srgb@.len(),
            forall|j: int| 0 <= j < i ==> !#[trigger] is_srgb@[j],
        decreases is_srgb@.len() - i,
    {
        if is_srgb[i] {
            return Some(i);
        }
        i = i + 1;
    }
    if is_srgb.len() == 0 {
        None
    } else {
        Some(0)
    }
}

fn orbit_angle(since_start_us: u64) -> (a: u32)
    ensures
        a == light_angle(since_start_us as int),
{
    let p: u128 = since_start_us as u128 * 0x1_0000_0000;
    let a: u128 = (p / 3_600_000) % 0x1_0000_0000;
    a as u32
}

} // verus!
