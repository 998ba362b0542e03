//! The state that drives the GPU each frame, held as plain values: the size
//! of the render surface and the shader parameters, together with the
//! decisions taken on a resize and on each redraw.

use vstd::prelude::*;
use crate::compute::{ShaderParams, is_native_bytes_of, native_bytes, native_value};

verus! {

/// Edge length, in pixels, of the square workgroup the compute shader runs
/// on.
pub const WORKGROUP_SIZE: u32 = 8;

/// `n / d` rounded up.
pub open spec fn div_ceil(n: int, d: int) -> int {
    (n + d - 1) / d
}

/// A surface or window size in physical pixels.
#[derive(Clone, Copy, Debug, PartialEq, Eq, Structural)]
pub struct SurfaceSize {
    pub width: u32,
    pub height: u32,
}

/// `d`, raised to 1 when it is 0.
pub open spec fn at_least_one(d: u32) -> u32 {
    if d == 0 {
        1
    } else {
        d
    }
}

impl SurfaceSize {
    pub fn new(width: u32, height: u32) -> (size: Self)
        ensures
            size.width == width,
            size.height == height,
    {
        SurfaceSize { width, height }
    }

    /// This size with each side raised to at least one pixel.
    pub open spec fn at_least_one_pixel_spec(self) -> Self {
        SurfaceSize { width: at_least_one(self.width), height: at_least_one(self.height) }
    }

    /// This size with each side raised to at least one pixel: a surface
    /// cannot be configured with a zero side.
    pub fn at_least_one_pixel(self) -> (size: Self)
        ensures
            size == self.at_least_one_pixel_spec(),
    {
        let width: u32 = if self.width > 1 { self.width } else { 1 };
        let height: u32 = if self.height > 1 { self.height } else { 1 };
        SurfaceSize { width, height }
    }
}

/// The number of workgroups needed along one axis to cover `extent` pixels.
pub fn workgroup_count(extent: u32) -> (count: u32)
    ensures
        count == div_ceil(extent as int, WORKGROUP_SIZE as int),
        count * WORKGROUP_SIZE >= extent,
        extent > (count - 1) * WORKGROUP_SIZE,
{
    let whole: u32 = extent / WORKGROUP_SIZE;
    if extent % WORKGROUP_SIZE == 0 {
        whole
    } else {
        whole + 1
    }
}

/// The workgroup grid that covers a surface of the given size: one
/// workgroup per started 8 by 8 tile, one layer deep.
pub fn dispatch_size(size: SurfaceSize) -> (grid: (u32, u32, u32))
    ensures
        grid.0 == div_ceil(size.width as int, WORKGROUP_SIZE as int),
        grid.1 == div_ceil(size.height as int, WORKGROUP_SIZE as int),
        grid.2 == 1,
{
    (workgroup_count(size.width), workgroup_count(size.height), 1)
}

/// Every pixel of a surface lies in a workgroup of its dispatch grid, and
/// the grid holds no workgroup wholly outside the surface.
pub proof fn lemma_dispatch_covers_surface(size: SurfaceSize, x: u32, y: u32)
    requires
        x < size.width,
        y < size.height,
    ensures
        x / WORKGROUP_SIZE < div_ceil(size.width as int, WORKGROUP_SIZE as int),
        y / WORKGROUP_SIZE < div_ceil(size.height as int, WORKGROUP_SIZE as int),
        (div_ceil(size.width as int, WORKGROUP_SIZE as int) - 1) * WORKGROUP_SIZE < size.width,
        (div_ceil(size.height as int, WORKGROUP_SIZE as int) - 1) * WORKGROUP_SIZE < size.height,
{
}

/// Raising a size to at least one pixel per side leaves a size that has no
/// zero side as it is, so doing it twice changes nothing more than once; and
/// the dispatch grid of such a size has at least one workgroup on each axis.
pub proof fn lemma_at_least_one_pixel(size: SurfaceSize)
    ensures
        size.at_least_one_pixel_spec().width >= 1,
        size.at_least_one_pixel_spec().height >= 1,
        size.width > 0 && size.height > 0 ==> size.at_least_one_pixel_spec() == size,
        size.at_least_one_pixel_spec().at_least_one_pixel_spec() == size.at_least_one_pixel_spec(),
        div_ceil(size.at_least_one_pixel_spec().width as int, WORKGROUP_SIZE as int) >= 1,
        div_ceil(size.at_least_one_pixel_spec().height as int, WORKGROUP_SIZE as int) >= 1,
{
}

/// What acquiring the next surface texture reported.
#[derive(Clone, Copy, Debug, PartialEq, Eq, Structural)]
pub enum SurfaceStatus {
    /// A texture was acquired and matches the surface.
    Success,
    /// A texture was acquired but no longer matches the surface.
    Suboptimal,
    /// Acquiring timed out.
    Timeout,
    /// The window is occluded.
    Occluded,
    /// The surface configuration is outdated.
    Outdated,
    /// The surface was lost.
    Lost,
    /// A validation error was raised while acquiring.
    Validation,
}

/// The compute pass and uniform update of one drawn frame.
#[derive(Debug)]
pub struct DrawCommand {
    /// The workgroup grid of the ray-tracing pass.
    pub workgroups: (u32, u32, u32),
    /// The bytes to write to the uniform buffer once the frame is presented.
    pub uniform: Vec<u8>,
}

/// What to do with the surface texture that was (or was not) acquired.
#[derive(Debug)]
pub enum FrameAction {
    /// Run the ray-tracing and blit passes, present the frame, then write
    /// the uniform buffer.
    Draw(DrawCommand),
    /// Draw nothing this time and try again on the next redraw.
    Skip,
    /// Release any acquired texture and configure the surface again.
    Reconfigure,
    /// Create the surface anew from the window, then configure it.
    RecreateSurface,
}

/// Whether `status` leads to a drawn frame.
pub open spec fn draws(status: SurfaceStatus) -> bool {
    status is Success
}

/// The frame count after handling a surface status: one more when a frame
/// is drawn.
pub open spec fn frame_count_after(count: int, status: SurfaceStatus) -> int {
    if draws(status) {
        count + 1
    } else {
        count
    }
}

/// The action taken on `status`, apart from the data of a drawn frame. A
/// validation error has no action: it stops the program before any state is
/// touched.
pub open spec fn action_matches(status: SurfaceStatus, action: FrameAction) -> bool {
    match status {
        SurfaceStatus::Success => action is Draw,
        SurfaceStatus::Suboptimal | SurfaceStatus::Outdated => action is Reconfigure,
        SurfaceStatus::Timeout | SurfaceStatus::Occluded => action is Skip,
        SurfaceStatus::Lost => action is RecreateSurface,
        SurfaceStatus::Validation => false,
    }
}

/// The frame-to-frame state of the renderer, as plain values.
pub struct GpuState {
    size: SurfaceSize,
    shader_params: ShaderParams,
}

impl GpuState {
    /// The size of the render surface and of the output texture.
    pub closed spec fn spec_size(&self) -> SurfaceSize {
        self.size
    }

    /// The frame count held in the shader parameters.
    pub closed spec fn spec_frame_count(&self) -> u32 {
        self.shader_params@
    }

    /// The state of a renderer just set up for a window of the given inner
    /// size: that size, taken as it is, and no frame rendered.
    pub fn new(size: SurfaceSize) -> (state: Self)
        ensures
            state.spec_size() == size,
            state.spec_frame_count() == 0,
    {
        GpuState { size, shader_params: ShaderParams::new() }
    }

    pub fn size(&self) -> (size: SurfaceSize)
        ensures
            size == self.spec_size(),
    {
        self.size
    }

    pub fn shader_params(&self) -> (params: ShaderParams)
        ensures
            params@ == self.spec_frame_count(),
    {
        self.shader_params
    }

    /// Takes the new size of the window, each side raised to at least one
    /// pixel. The caller then configures the surface and recreates the output
    /// texture and the bind groups that use it at `final(self).spec_size()`.
    pub fn resize(&mut self, new_size: SurfaceSize)
        ensures
            call_step(*old(self), GpuCall::Resize(new_size), *final(self)),
            final(self).spec_size() == new_size.at_least_one_pixel_spec(),
            final(self).spec_frame_count() == old(self).spec_frame_count(),
    {
        self.size = new_size.at_least_one_pixel();
    }

    /// Decides what to do with a redraw on the given surface status. A drawn
    /// frame dispatches a grid that covers the surface and counts one more
    /// frame; the uniform bytes it returns hold the new count. No other
    /// status changes the state. A validation error is no input: it stops the
    /// program before this is called.
    pub fn render(&mut self, status: SurfaceStatus) -> (action: FrameAction)
        requires
            status != SurfaceStatus::Validation,
            draws(status) ==> old(self).spec_frame_count() < u32::MAX,
        ensures
            call_step(*old(self), GpuCall::Render(status), *final(self)),
            action_matches(status, action),
            final(self).spec_size() == old(self).spec_size(),
            final(self).spec_frame_count() == frame_count_after(
                old(self).spec_frame_count() as int,
                status,
            ),
            action matches FrameAction::Draw(cmd) ==> {
                &&& cmd.workgroups.0 == div_ceil(
                    old(self).spec_size().width as int,
                    WORKGROUP_SIZE as int,
                )
                &&& cmd.workgroups.1 == div_ceil(
                    old(self).spec_size().height as int,
                    WORKGROUP_SIZE as int,
                )
                &&& cmd.workgroups.2 == 1
                &&& is_native_bytes_of(cmd.uniform@, final(self).spec_frame_count())
                &&& cmd.uniform@ == native_bytes(final(self).spec_frame_count())
                &&& native_value(cmd.uniform@) == old(self).spec_frame_count() + 1
            },
    {
        match status {
            SurfaceStatus::Success => {
                let workgroups = dispatch_size(self.size);
                self.shader_params.increment_frame_count();
                let uniform = self.shader_params.uniform_bytes();
                FrameAction::Draw(DrawCommand { workgroups, uniform })
            },
            SurfaceStatus::Timeout | SurfaceStatus::Occluded => FrameAction::Skip,
            SurfaceStatus::Suboptimal | SurfaceStatus::Outdated => FrameAction::Reconfigure,
            SurfaceStatus::Lost => FrameAction::RecreateSurface,
            SurfaceStatus::Validation => {
                proof {
                    assert(false);
                }
                FrameAction::Skip
            },
        }
    }
}

/// A call that changes the renderer's state.
#[derive(Clone, Copy, Debug, PartialEq, Eq, Structural)]
pub enum GpuCall {
    /// `GpuState::render` on the given surface status.
    Render(SurfaceStatus),
    /// `GpuState::resize` to the given window size.
    Resize(SurfaceSize),
}

/// `after` is a state that `call` can leave when made on `before`: what the
/// `ensures` of `render` and `resize` say of the state.
pub open spec fn call_step(before: GpuState, call: GpuCall, after: GpuState) -> bool {
    match call {
        GpuCall::Render(status) => {
            &&& after.spec_size() == before.spec_size()
            &&& after.spec_frame_count() == frame_count_after(
                before.spec_frame_count() as int,
                status,
            )
        },
        GpuCall::Resize(new_size) => {
            &&& after.spec_size() == new_size.at_least_one_pixel_spec()
            &&& after.spec_frame_count() == before.spec_frame_count()
        },
    }
}

/// The number of calls in `calls` that render a frame.
pub open spec fn successful_renders(calls: Seq<GpuCall>) -> int
    decreases calls.len(),
{
    if calls.len() == 0 {
        0
    } else {
        successful_renders(calls.drop_last()) + (if calls.last() matches GpuCall::Render(status)
            && draws(status) {
            1int
        } else {
            0int
        })
    }
}

/// Along any run of calls from `GpuState::new(start)`, with `states[i]` the
/// state before `calls[i]`:
/// - the shader's frame count is the number of frames rendered so far, so
///   the frame rendered by `calls[i]` is dispatched while the uniform buffer
///   still holds the count of the frames before it;
/// - when `start` has no zero side, neither has any state reached.
pub proof fn lemma_runs_from_new(start: SurfaceSize, calls: Seq<GpuCall>, states: Seq<GpuState>)
    requires
        states.len() == calls.len() + 1,
        states[0].spec_size() == start,
        states[0].spec_frame_count() == 0,
        forall|i: int| 0 <= i < calls.len() ==> call_step(states[i], calls[i], states[i + 1]),
    ensures
        forall|i: int|
            0 <= i <= calls.len() ==> #[trigger] states[i].spec_frame_count()
                == successful_renders(calls.take(i)),
        start.width >= 1 && start.height >= 1 ==> forall|i: int|
            0 <= i <= calls.len() ==> #[trigger] states[i].spec_size().width >= 1
                && states[i].spec_size().height >= 1,
    decreases calls.len(),
{
    let n = calls.len() as int;
    if n == 0 {
        assert(calls.take(0) =~= Seq::<GpuCall>::empty());
    } else {
        let calls0 = calls.drop_last();
        let states0 = states.drop_last();
        assert forall|i: int| 0 <= i < calls0.len() implies call_step(
            states0[i],
            calls0[i],
            states0[i + 1],
        ) by {
            assert(call_step(states[i], calls[i], states[i + 1]));
        }
        lemma_runs_from_new(start, calls0, states0);
        assert forall|i: int| 0 <= i <= n implies #[trigger] states[i].spec_frame_count()
            == successful_renders(calls.take(i)) by {
            if i < n {
                assert(calls0.take(i) =~= calls.take(i));
                assert(states0[i] == states[i]);
            } else {
                assert(calls0.take(n - 1) =~= calls0);
                assert(calls.take(n) =~= calls);
                assert(states0[n - 1] == states[n - 1]);
                assert(call_step(states[n - 1], calls[n - 1], states[n]));
                assert(calls.last() == calls[n - 1]);
            }
        }
        if start.width >= 1 && start.height >= 1 {
            assert forall|i: int| 0 <= i <= n implies #[trigger] states[i].spec_size().width >= 1
                && states[i].spec_size().height >= 1 by {
                if i < n {
                    assert(states0[i] == states[i]);
                } else {
                    assert(states0[n - 1] == states[n - 1]);
                    assert(call_step(states[n - 1], calls[n - 1], states[n]));
                }
            }
        }
    }
}

} // verus!
