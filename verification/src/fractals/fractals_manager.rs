//! The zoom and iteration state machine of the fractal window.
//!
//! Positions and extents are fixed-point numbers, `FIXED_ONE` units to 1.0,
//! so every frame step is exact integer arithmetic. A click picks a target
//! centre and a zoom direction; each frame then moves the centre a tenth of
//! the way to the target, scales the extent by one percent, and lowers the
//! iteration count towards its minimum. While no zoom is active the
//! iteration count climbs back to its baseline.
//!
//! The only limits are those of the 64-bit integers that hold the values:
//! an extent or a coordinate that would leave their range stays at its end,
//! and an extent never falls below one unit, the smallest positive extent.

use vstd::prelude::*;
use crate::rendering::gpu::FIXED_ONE;

verus! {

/// The smallest extent: one fixed-point unit.
pub const MIN_EXTENT: i64 = 1;

pub const DEFAULT_MINIMUM_ITERATIONS: i32 = 50;

pub const DEFAULT_BASELINE_ITERATIONS: i32 = 500;

pub const DEFAULT_ITERATION_STEP: i32 = 10;

/// How the extent changes per frame.
#[derive(Clone, Copy, Debug, PartialEq, Eq, Structural)]
pub enum ZoomFactor {
    /// The extent stays as it is.
    Hold,
    /// The extent shrinks by one percent per frame.
    In,
    /// The extent grows by one percent per frame.
    Out,
}

impl ZoomFactor {
    /// The factor in percent.
    pub open spec fn percent(self) -> int {
        match self {
            ZoomFactor::Hold => 100,
            ZoomFactor::In => 99,
            ZoomFactor::Out => 101,
        }
    }
}

/// A pointer click on the canvas: where the pointer is, measured from the
/// top left corner of the canvas, and how large the canvas is, all in one
/// unit, fixed-point or not.
#[derive(Clone, Copy, Debug, PartialEq, Eq, Structural)]
pub struct Click {
    pub x: i64,
    pub y: i64,
    pub width: i64,
    pub height: i64,
    pub primary: bool,
    pub secondary: bool,
}

impl Click {
    /// A button went down inside a canvas that has an area.
    pub open spec fn lands(self) -> bool {
        &&& self.primary || self.secondary
        &&& self.width > 0
        &&& self.height > 0
        &&& 0 <= self.x <= self.width
        &&& 0 <= self.y <= self.height
    }

    /// The zoom direction the click asks for: the secondary button zooms
    /// out, whatever else is pressed; the primary button alone zooms in.
    pub open spec fn factor(self) -> ZoomFactor {
        if self.secondary {
            ZoomFactor::Out
        } else {
            ZoomFactor::In
        }
    }
}

/// Which part of the fractal window the user acted on.
#[derive(Clone, Copy, Debug, PartialEq, Eq, Structural)]
pub enum FractalsMenu {
    Nothing,
    Close,
    Mandelbrot,
    Julia,
}

/// Which fractal to paint.
#[derive(Clone, Copy, Debug, PartialEq, Eq, Structural)]
pub enum FractalChoice {
    Mandelbrot,
    Julia,
    Nothing,
}

/// What one frame of the Mandelbrot view is painted with.
#[derive(Clone, Copy, Debug, PartialEq, Eq, Structural)]
pub struct ZoomSnapshot {
    pub iterations: i32,
    pub center_x: i64,
    pub center_y: i64,
    pub size: i64,
}

/// The view state as plain values.
pub struct FractalViewState {
    pub center_x: int,
    pub center_y: int,
    pub target_x: int,
    pub target_y: int,
    pub extent: int,
    pub zooming: bool,
    pub factor: ZoomFactor,
    pub iterations: int,
    pub minimum: int,
    pub baseline: int,
    pub step: int,
}

pub open spec fn clamp(value: int, low: int, high: int) -> int {
    if value < low {
        low
    } else if value > high {
        high
    } else {
        value
    }
}

/// The centre one frame later: a tenth of the way to the target, the tenth
/// rounded towards the centre.
pub open spec fn toward(center: int, target: int) -> int {
    if target >= center {
        center + (target - center) / 10
    } else {
        center - (center - target) / 10
    }
}

/// A value as a 64-bit integer can hold it.
pub open spec fn held(value: int) -> int {
    clamp(value, i64::MIN as int, i64::MAX as int)
}

/// The extent one frame later: the extent times the factor, as far as one
/// unit at least and a 64-bit integer at most can hold it.
pub open spec fn scaled(extent: int, factor: ZoomFactor) -> int {
    clamp(extent * factor.percent() / 100, MIN_EXTENT as int, i64::MAX as int)
}

/// The distance between two coordinates.
pub open spec fn distance(a: int, b: int) -> int {
    if a >= b {
        a - b
    } else {
        b - a
    }
}

impl FractalViewState {
    /// The iteration limits are sane and the count is within them, the
    /// extent is one unit at least, and every value fits a 64-bit integer.
    pub open spec fn valid(self) -> bool {
        &&& 0 <= self.minimum <= self.baseline <= i32::MAX
        &&& 0 < self.step <= i32::MAX
        &&& self.minimum <= self.iterations <= self.baseline
        &&& MIN_EXTENT <= self.extent <= i64::MAX
        &&& i64::MIN <= self.center_x <= i64::MAX
        &&& i64::MIN <= self.center_y <= i64::MAX
        &&& i64::MIN <= self.target_x <= i64::MAX
        &&& i64::MIN <= self.target_y <= i64::MAX
    }

    /// The view as first shown: centred on the origin, extent 1.0, idle,
    /// iterations at the baseline.
    pub open spec fn initial(minimum: int, baseline: int, step: int) -> FractalViewState {
        FractalViewState {
            center_x: 0,
            center_y: 0,
            target_x: 0,
            target_y: 0,
            extent: FIXED_ONE as int,
            zooming: false,
            factor: ZoomFactor::Hold,
            iterations: baseline,
            minimum,
            baseline,
            step,
        }
    }

    /// The iteration count one frame later: a step down, floored at the
    /// minimum, while zooming; a step up, capped at the baseline, otherwise.
    pub open spec fn next_iterations(self) -> int {
        if self.zooming {
            if self.iterations - self.step < self.minimum {
                self.minimum
            } else {
                self.iterations - self.step
            }
        } else if self.iterations + self.step > self.baseline {
            self.baseline
        } else {
            self.iterations + self.step
        }
    }

    /// The state one frame later.
    pub open spec fn frame(self) -> FractalViewState {
        if self.zooming {
            FractalViewState {
                iterations: self.next_iterations(),
                extent: scaled(self.extent, self.factor),
                center_x: toward(self.center_x, self.target_x),
                center_y: toward(self.center_y, self.target_y),
                ..self
            }
        } else {
            FractalViewState { iterations: self.next_iterations(), ..self }
        }
    }

    /// The fractal-space abscissa under a click: the left edge of the view
    /// plus the click's share of the extent.
    pub open spec fn target_x_of(self, click: Click) -> int {
        held(self.center_x - self.extent / 2 + click.x * self.extent / (click.width as int))
    }

    /// The fractal-space ordinate under a click: the top edge of the view
    /// minus the click's share of the extent, pixel rows running downwards.
    pub open spec fn target_y_of(self, click: Click) -> int {
        held(self.center_y + self.extent / 2 - click.y * self.extent / (click.height as int))
    }

    /// The state once the zoom is ended: the view rests where it is.
    pub open spec fn stopped(self) -> FractalViewState {
        FractalViewState { zooming: false, ..self }
    }

    /// The state after a click: a click that lands sets the target and the
    /// direction and starts the zoom; any other click changes nothing.
    pub open spec fn clicked(self, click: Click) -> FractalViewState {
        if click.lands() {
            FractalViewState {
                target_x: self.target_x_of(click),
                target_y: self.target_y_of(click),
                zooming: true,
                factor: click.factor(),
                ..self
            }
        } else {
            self
        }
    }

    /// What the Mandelbrot shader is fed this frame.
    pub open spec fn snapshot(self) -> ZoomSnapshot {
        ZoomSnapshot {
            iterations: self.iterations as i32,
            center_x: self.center_x as i64,
            center_y: self.center_y as i64,
            size: self.extent as i64,
        }
    }
}

/// The window as plain values: what is shown, and the view state.
pub struct FractalsView {
    pub shown: bool,
    pub show_mandelbrot: bool,
    pub show_julia: bool,
    pub state: FractalViewState,
}

impl FractalsView {
    /// The fractal to paint: Mandelbrot where it is selected, else Julia
    /// where that is selected, else nothing.
    pub open spec fn choice(self) -> FractalChoice {
        if self.show_mandelbrot {
            FractalChoice::Mandelbrot
        } else if self.show_julia {
            FractalChoice::Julia
        } else {
            FractalChoice::Nothing
        }
    }

    /// The window as first created: hidden, Mandelbrot selected.
    pub open spec fn initial(state: FractalViewState) -> FractalsView {
        FractalsView { shown: false, show_mandelbrot: true, show_julia: false, state }
    }
}

pub struct FractalsManager {
    show_fractals: bool,
    show_mandelbrot: bool,
    show_julia: bool,
    zoom_center_x: i64,
    zoom_center_y: i64,
    zoom_center_target_x: i64,
    zoom_center_target_y: i64,
    zoom_size: i64,
    zoom_stop: bool,
    zoom_factor: ZoomFactor,
    zoom_max_iterations: i32,
    minimum_iterations: i32,
    baseline_iterations: i32,
    iteration_step: i32,
}

impl View for FractalsManager {
    type V = FractalsView;

    closed spec fn view(&self) -> FractalsView {
        FractalsView {
            shown: self.show_fractals,
            show_mandelbrot: self.show_mandelbrot,
            show_julia: self.show_julia,
            state: FractalViewState {
                center_x: self.zoom_center_x as int,
                center_y: self.zoom_center_y as int,
                target_x: self.zoom_center_target_x as int,
                target_y: self.zoom_center_target_y as int,
                extent: self.zoom_size as int,
                zooming: !self.zoom_stop,
                factor: self.zoom_factor,
                iterations: self.zoom_max_iterations as int,
                minimum: self.minimum_iterations as int,
                baseline: self.baseline_iterations as int,
                step: self.iteration_step as int,
            },
        }
    }
}

fn approach(center: i64, target: i64) -> (next: i64)
    ensures
        next == toward(center as int, target as int),
{
    if target >= center {
        let gap: i128 = (target as i128) - (center as i128);
        ((center as i128) + gap / 10) as i64
    } else {
        let gap: i128 = (center as i128) - (target as i128);
        ((center as i128) - gap / 10) as i64
    }
}

fn rescale(extent: i64, factor: ZoomFactor) -> (next: i64)
    requires
        MIN_EXTENT <= extent,
    ensures
        next == scaled(extent as int, factor),
        MIN_EXTENT <= next,
{
    let percent: i128 = match factor {
        ZoomFactor::Hold => 100,
        ZoomFactor::In => 99,
        ZoomFactor::Out => 101,
    };
    let raw: i128 = (extent as i128) * percent / 100;
    if raw < MIN_EXTENT as i128 {
        MIN_EXTENT
    } else if raw > i64::MAX as i128 {
        i64::MAX
    } else {
        raw as i64
    }
}

/// The click's share of the extent: `position * extent / size`.
fn share(position: i64, size: i64, extent: i64) -> (part: i64)
    requires
        0 < size,
        0 <= position <= size,
        MIN_EXTENT <= extent,
    ensures
        part == position * extent / (size as int),
        0 <= part <= extent,
{
    proof {
        let p = position as int;
        let e = extent as int;
        assert(0 <= p * e <= 0x7fff_ffff_ffff_ffff * 0x7fff_ffff_ffff_ffff) by (nonlinear_arith)
            requires
                0 <= p <= 0x7fff_ffff_ffff_ffff,
                0 <= e <= 0x7fff_ffff_ffff_ffff,
        ;
    }
    let product: i128 = (position as i128) * (extent as i128);
    let part: i128 = product / (size as i128);
    proof {
        let p = position as int;
        let s = size as int;
        let e = extent as int;
        assert(0 <= p * e <= s * e) by (nonlinear_arith)
            requires
                0 <= p <= s,
                0 <= e,
        ;
        assert(0 <= (p * e) / s <= e) by (nonlinear_arith)
            requires
                0 <= p * e <= s * e,
                0 < s,
        ;
    }
    part as i64
}

fn hold(value: i128) -> (bounded: i64)
    ensures
        bounded == held(value as int),
{
    if value < i64::MIN as i128 {
        i64::MIN
    } else if value > i64::MAX as i128 {
        i64::MAX
    } else {
        value as i64
    }
}

impl FractalsManager {
    #[verifier::type_invariant]
    spec fn within_limits(&self) -> bool {
        self@.state.valid()
    }

    /// The fractal window as first created: hidden, Mandelbrot selected,
    /// the view at its defaults with iterations between 50 and 500 in
    /// steps of 10.
    pub fn new() -> (manager: FractalsManager)
        ensures
            manager@ == FractalsView::initial(FractalViewState::initial(50, 500, 10)),
            manager@.state.valid(),
    {
        FractalsManager {
            show_fractals: false,
            show_mandelbrot: true,
            show_julia: false,
            zoom_center_x: 0,
            zoom_center_y: 0,
            zoom_center_target_x: 0,
            zoom_center_target_y: 0,
            zoom_size: FIXED_ONE,
            zoom_stop: true,
            zoom_factor: ZoomFactor::Hold,
            zoom_max_iterations: DEFAULT_BASELINE_ITERATIONS,
            minimum_iterations: DEFAULT_MINIMUM_ITERATIONS,
            baseline_iterations: DEFAULT_BASELINE_ITERATIONS,
            iteration_step: DEFAULT_ITERATION_STEP,
        }
    }

    /// The fractal window with configured iteration limits, where they are
    /// sane: `0 <= minimum <= baseline` and `step > 0`.
    pub fn with_limits(minimum: i32, baseline: i32, step: i32) -> (manager: Option<
        FractalsManager,
    >)
        ensures
            manager is Some <==> 0 <= minimum <= baseline && step > 0,
            manager matches Some(m) ==> m@ == FractalsView::initial(
                FractalViewState::initial(minimum as int, baseline as int, step as int),
            ) && m@.state.valid(),
    {
        if 0 <= minimum && minimum <= baseline && step > 0 {
            Some(
                FractalsManager {
                    show_fractals: false,
                    show_mandelbrot: true,
                    show_julia: false,
                    zoom_center_x: 0,
                    zoom_center_y: 0,
                    zoom_center_target_x: 0,
                    zoom_center_target_y: 0,
                    zoom_size: FIXED_ONE,
                    zoom_stop: true,
                    zoom_factor: ZoomFactor::Hold,
                    zoom_max_iterations: baseline,
                    minimum_iterations: minimum,
                    baseline_iterations: baseline,
                    iteration_step: step,
                },
            )
        } else {
            None
        }
    }

    /// The fractal window looking at a given part of the plane, where the
    /// extent is one unit at least; everything else is as in `new`.
    pub fn with_view(center_x: i64, center_y: i64, extent: i64) -> (manager: Option<
        FractalsManager,
    >)
        ensures
            manager is Some <==> MIN_EXTENT <= extent,
            manager matches Some(m) ==> m@ == FractalsView::initial(
                FractalViewState {
                    center_x: center_x as int,
                    center_y: center_y as int,
                    target_x: center_x as int,
                    target_y: center_y as int,
                    extent: extent as int,
                    ..FractalViewState::initial(50, 500, 10)
                },
            ) && m@.state.valid(),
    {
        if MIN_EXTENT <= extent {
            Some(
                FractalsManager {
                    show_fractals: false,
                    show_mandelbrot: true,
                    show_julia: false,
                    zoom_center_x: center_x,
                    zoom_center_y: center_y,
                    zoom_center_target_x: center_x,
                    zoom_center_target_y: center_y,
                    zoom_size: extent,
                    zoom_stop: true,
                    zoom_factor: ZoomFactor::Hold,
                    zoom_max_iterations: DEFAULT_BASELINE_ITERATIONS,
                    minimum_iterations: DEFAULT_MINIMUM_ITERATIONS,
                    baseline_iterations: DEFAULT_BASELINE_ITERATIONS,
                    iteration_step: DEFAULT_ITERATION_STEP,
                },
            )
        } else {
            None
        }
    }

    /// Whether the window is shown.
    pub fn show_fractals(&self) -> (shown: bool)
        ensures
            shown == self@.shown,
    {
        self.show_fractals
    }

    /// What the shader would be fed now. The values are always within
    /// their limits: the iteration count never leaves the range from the
    /// minimum to the baseline.
    pub fn snapshot(&self) -> (snapshot: ZoomSnapshot)
        ensures
            snapshot == self@.state.snapshot(),
            self@.state.valid(),
    {
        proof {
            use_type_invariant(self);
        }
        ZoomSnapshot {
            iterations: self.zoom_max_iterations,
            center_x: self.zoom_center_x,
            center_y: self.zoom_center_y,
            size: self.zoom_size,
        }
    }

    /// Whether a zoom is active.
    pub fn zooming(&self) -> (zooming: bool)
        ensures
            zooming == self@.state.zooming,
    {
        !self.zoom_stop
    }

    /// The zoom direction last chosen.
    pub fn zoom_factor(&self) -> (factor: ZoomFactor)
        ensures
            factor == self@.state.factor,
    {
        self.zoom_factor
    }

    /// The target centre last chosen.
    pub fn zoom_center_target(&self) -> (target: (i64, i64))
        ensures
            target.0 == self@.state.target_x,
            target.1 == self@.state.target_y,
    {
        (self.zoom_center_target_x, self.zoom_center_target_y)
    }

    /// Advances the view by one frame.
    pub fn step_frame(&mut self)
        ensures
            final(self)@ == (FractalsView { state: old(self)@.state.frame(), ..old(self)@ }),
            final(self)@.state.valid(),
    {
        proof {
            use_type_invariant(&*self);
        }
        let step = self.iteration_step as i64;
        let iterations = self.zoom_max_iterations as i64;
        if !self.zoom_stop {
            let lowered = iterations - step;
            self.zoom_max_iterations = if lowered < self.minimum_iterations as i64 {
                self.minimum_iterations
            } else {
                lowered as i32
            };
            self.zoom_size = rescale(self.zoom_size, self.zoom_factor);
            self.zoom_center_x = approach(self.zoom_center_x, self.zoom_center_target_x);
            self.zoom_center_y = approach(self.zoom_center_y, self.zoom_center_target_y);
        } else {
            let raised = iterations + step;
            self.zoom_max_iterations = if raised > self.baseline_iterations as i64 {
                self.baseline_iterations
            } else {
                raised as i32
            };
        }
    }

    /// Ends the zoom: the view rests where it is, and from the next frame
    /// on the iteration count recovers towards the baseline.
    pub fn stop_zoom(&mut self)
        ensures
            final(self)@ == (FractalsView { state: old(self)@.state.stopped(), ..old(self)@ }),
            final(self)@.state.valid(),
    {
        proof {
            use_type_invariant(&*self);
        }
        self.zoom_stop = true;
    }

    /// Takes a click: one that lands sets the target under the pointer and
    /// the zoom direction, and starts the zoom.
    pub fn on_click(&mut self, click: Click)
        ensures
            final(self)@ == (FractalsView { state: old(self)@.state.clicked(click), ..old(self)@ }),
            final(self)@.state.valid(),
    {
        proof {
            use_type_invariant(&*self);
        }
        let pressed = click.primary || click.secondary;
        if pressed && click.width > 0 && click.height > 0 && 0 <= click.x && click.x
            <= click.width && 0 <= click.y && click.y <= click.height {
            let half = self.zoom_size / 2;
            let across = share(click.x, click.width, self.zoom_size);
            let down = share(click.y, click.height, self.zoom_size);
            self.zoom_center_target_x = hold(
                (self.zoom_center_x as i128) - (half as i128) + (across as i128),
            );
            self.zoom_center_target_y = hold(
                (self.zoom_center_y as i128) + (half as i128) - (down as i128),
            );
            self.zoom_stop = false;
            self.zoom_factor = if click.secondary {
                ZoomFactor::Out
            } else {
                ZoomFactor::In
            };
        }
    }

    /// A primary click at `(x, y)` on a canvas of the given size: zoom in
    /// on the point under the pointer.
    pub fn on_primary_click(&mut self, x: i64, y: i64, width: i64, height: i64)
        ensures
            final(self)@ == (FractalsView {
                state: old(self)@.state.clicked(
                    Click { x, y, width, height, primary: true, secondary: false },
                ),
                ..old(self)@
            }),
            final(self)@.state.valid(),
    {
        self.on_click(Click { x, y, width, height, primary: true, secondary: false });
    }

    /// A secondary click at `(x, y)` on a canvas of the given size: zoom
    /// out from the point under the pointer.
    pub fn on_secondary_click(&mut self, x: i64, y: i64, width: i64, height: i64)
        ensures
            final(self)@ == (FractalsView {
                state: old(self)@.state.clicked(
                    Click { x, y, width, height, primary: false, secondary: true },
                ),
                ..old(self)@
            }),
            final(self)@.state.valid(),
    {
        self.on_click(Click { x, y, width, height, primary: false, secondary: true });
    }

    /// One frame of the Mandelbrot view: advance the zoom, take the values
    /// to paint with, then take the frame's click, which shows from the
    /// next frame on.
    pub fn paint_mandelbrot(&mut self, click: Option<Click>) -> (snapshot: ZoomSnapshot)
        ensures
            snapshot == old(self)@.state.frame().snapshot(),
            final(self)@ == (FractalsView {
                state: match click {
                    Some(c) => old(self)@.state.frame().clicked(c),
                    None => old(self)@.state.frame(),
                },
                ..old(self)@
            }),
            final(self)@.state.valid(),
    {
        self.step_frame();
        let snapshot = self.snapshot();
        match click {
            Some(c) => {
                self.on_click(c);
            },
            None => {},
        }
        snapshot
    }

    /// One frame of the window itself: it counts as shown, the menu
    /// selection is applied, and the result says which fractal to paint.
    pub fn update(&mut self, menu: FractalsMenu) -> (paint: FractalChoice)
        ensures
            final(self)@ == (FractalsView {
                shown: !(menu is Close),
                show_mandelbrot: match menu {
                    FractalsMenu::Mandelbrot => true,
                    FractalsMenu::Julia => false,
                    _ => old(self)@.show_mandelbrot,
                },
                show_julia: match menu {
                    FractalsMenu::Mandelbrot => false,
                    FractalsMenu::Julia => true,
                    _ => old(self)@.show_julia,
                },
                ..old(self)@
            }),
            paint == final(self)@.choice(),
    {
        proof {
            use_type_invariant(&*self);
        }
        self.show_fractals = true;
        match menu {
            FractalsMenu::Close => {
                self.show_fractals = false;
            },
            FractalsMenu::Mandelbrot => {
                self.show_julia = false;
                self.show_mandelbrot = true;
            },
            FractalsMenu::Julia => {
                self.show_mandelbrot = false;
                self.show_julia = true;
            },
            FractalsMenu::Nothing => {},
        }
        if self.show_mandelbrot {
            FractalChoice::Mandelbrot
        } else if self.show_julia {
            FractalChoice::Julia
        } else {
            FractalChoice::Nothing
        }
    }
}

/// Zoom convergence. A frame never moves the centre away from the target
/// and never past it. While the centre is at least ten units from the
/// target, the frame brings it strictly closer and yet not onto the target;
/// closer than ten units, a tenth of the distance rounds to nothing and the
/// centre rests.
pub proof fn lemma_zoom_converges(center: int, target: int)
    ensures
        distance(toward(center, target), target) <= distance(center, target),
        target >= center ==> center <= toward(center, target) <= target,
        target <= center ==> target <= toward(center, target) <= center,
        distance(center, target) >= 10 ==> 0 < distance(toward(center, target), target)
            < distance(center, target),
        distance(center, target) < 10 ==> toward(center, target) == center,
        10 * distance(toward(center, target), target) >= 9 * distance(center, target),
{
}

/// The centre after `frames` frames towards a fixed target.
pub open spec fn toward_repeated(center: int, target: int, frames: nat) -> int
    decreases frames,
{
    if frames == 0 {
        center
    } else {
        toward(toward_repeated(center, target, (frames - 1) as nat), target)
    }
}

/// Repeated frames towards a fixed target close in on it: the distance
/// never grows, the centre never crosses the target, and as long as the
/// distance is still ten units or more, every one of the frames so far has
/// shortened it, so that it has shrunk by at least one unit per frame.
pub proof fn lemma_zoom_converges_repeated(center: int, target: int, frames: nat)
    ensures
        distance(toward_repeated(center, target, frames), target) <= distance(center, target),
        target >= center ==> center <= toward_repeated(center, target, frames) <= target,
        target <= center ==> target <= toward_repeated(center, target, frames) <= center,
        distance(toward_repeated(center, target, frames), target) >= 10 ==> distance(
            toward_repeated(center, target, frames),
            target,
        ) + frames <= distance(center, target),
        distance(center, target) > 0 ==> distance(toward_repeated(center, target, frames), target)
            > 0,
    decreases frames,
{
    if frames > 0 {
        let before = toward_repeated(center, target, (frames - 1) as nat);
        lemma_zoom_converges_repeated(center, target, (frames - 1) as nat);
        lemma_zoom_converges(before, target);
    }
}

/// One multiplication per frame: while zooming, a frame multiplies the
/// extent by the factor, whatever time has passed, as long as the product
/// is one unit at least and fits a 64-bit integer. Zooming in from more
/// than one unit shrinks the extent and keeps it positive; zooming out from
/// a hundred units or more grows it. Below that a hundredth of the extent
/// rounds to nothing.
pub proof fn lemma_frame_scales_extent(state: FractalViewState)
    requires
        state.valid(),
        state.zooming,
    ensures
        MIN_EXTENT <= state.extent * state.factor.percent() / 100 <= i64::MAX
            ==> state.frame().extent == state.extent * state.factor.percent() / 100,
        state.factor == ZoomFactor::In && state.extent > 1 ==> 0 < state.frame().extent
            < state.extent,
        state.factor == ZoomFactor::Out && state.extent >= 100 && state.extent * 101 / 100
            <= i64::MAX ==> state.frame().extent > state.extent,
        state.factor == ZoomFactor::Hold ==> state.frame().extent == state.extent,
        state.frame().target_x == state.target_x,
        state.frame().target_y == state.target_y,
        state.frame().factor == state.factor,
        state.frame().zooming,
{
}

/// The target of a click that lands is the point under the pointer: the
/// left edge of the view plus the click's share of the extent across, the
/// top edge minus its share down, for a primary and a secondary click
/// alike, wherever that point can be held in 64 bits. The click leaves the
/// centre, the extent and the iteration count as they are.
pub proof fn lemma_click_targets_the_point(state: FractalViewState, click: Click)
    requires
        state.valid(),
        click.lands(),
    ensures
        ({
            let x = state.center_x - state.extent / 2 + click.x * state.extent / (
            click.width as int);
            i64::MIN <= x <= i64::MAX ==> state.clicked(click).target_x == x
        }),
        ({
            let y = state.center_y + state.extent / 2 - click.y * state.extent / (
            click.height as int);
            i64::MIN <= y <= i64::MAX ==> state.clicked(click).target_y == y
        }),
        state.clicked(click).zooming,
        state.clicked(click).factor == click.factor(),
        state.clicked(click).center_x == state.center_x,
        state.clicked(click).center_y == state.center_y,
        state.clicked(click).extent == state.extent,
        state.clicked(click).iterations == state.iterations,
{
}

/// The iteration count stays between the configured minimum and baseline
/// through every frame and every click, whether zooming or recovering.
pub proof fn lemma_iterations_stay_in_range(state: FractalViewState, click: Click)
    requires
        state.valid(),
    ensures
        state.frame().valid(),
        state.clicked(click).valid(),
        state.minimum <= state.frame().iterations <= state.baseline,
        state.zooming ==> state.frame().iterations <= state.iterations,
        !state.zooming ==> state.frame().iterations >= state.iterations,
        state.clicked(click).iterations == state.iterations,
        state.stopped().valid(),
        state.stopped().iterations == state.iterations,
{
    let e = state.extent;
    if click.lands() {
        let x = click.x as int;
        let w = click.width as int;
        assert(0 <= x * e <= w * e) by (nonlinear_arith)
            requires
                0 <= x <= w,
                0 <= e,
        ;
        assert(0 <= (x * e) / w <= e) by (nonlinear_arith)
            requires
                0 <= x * e <= w * e,
                0 < w,
        ;
    }
}

/// A click that lands always starts the zoom, and the secondary button
/// decides the direction: with it the zoom goes out, whether or not the
/// primary button is reported too; without it the zoom goes in.
pub proof fn lemma_secondary_click_zooms_out(state: FractalViewState, click: Click)
    requires
        click.lands(),
    ensures
        state.clicked(click).zooming,
        click.secondary ==> state.clicked(click).factor == ZoomFactor::Out,
        !click.secondary ==> state.clicked(click).factor == ZoomFactor::In,
        state.clicked(click).factor.percent() < 100 <==> !click.secondary,
{
}

/// A click on the exact middle of the canvas, on a view whose extent is a
/// whole number of half units, targets the current centre: no displacement.
pub proof fn lemma_center_click_keeps_center(state: FractalViewState, click: Click)
    requires
        state.valid(),
        click.lands(),
        2 * click.x == click.width,
        2 * click.y == click.height,
        state.extent % 2 == 0,
    ensures
        state.clicked(click).target_x == state.center_x,
        state.clicked(click).target_y == state.center_y,
        state.clicked(click).zooming,
{
    let e = state.extent;
    let half = e / 2;
    let x = click.x as int;
    let y = click.y as int;
    assert((x * e) / (2 * x) == half) by (nonlinear_arith)
        requires
            x > 0,
            e == 2 * half,
    ;
    assert((y * e) / (2 * y) == half) by (nonlinear_arith)
        requires
            y > 0,
            e == 2 * half,
    ;
}

} // verus!
