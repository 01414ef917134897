//! Pointer gestures: telling a click from a drag, and a drag into a rectangle.
//!
//! The renderer shows a card scaled into the space it has and reports where
//! it drew the card and what the pointer did, all in display coordinates. The
//! controller turns that stream into two things: a click that selects the
//! region under the pointer, or a drag that draws a new rectangle in the
//! card's pixel space.
//!
//! Display coordinates and the scale are fixed-point numbers in thousandths:
//! the point `(1500, 250)` lies one and a half display pixels right of the
//! origin and a quarter pixel below it, and a scale of `2000` shows each card
//! pixel two display pixels wide. With both in thousandths, a display length
//! divided by the scale is a length in card pixels.

use crate::geometry::{CardSize, Rect};
use crate::region::{first_hit, lemma_first_hit, RegionStore, RegionView};
use vstd::prelude::*;

verus! {

/// Thousandths in one display pixel.
pub const SUBPIXELS: u32 = 1000;

/// How far the pointer must move from where it was pressed before the
/// gesture is a drag: more than four display pixels.
pub const DRAG_THRESHOLD: i64 = 4000;

/// The smallest scale: a tenth.
pub const MIN_SCALE: u32 = 100;

/// The largest scale: four.
pub const MAX_SCALE: u32 = 4000;

/// Display space kept free around the card when the scale is fitted: twenty
/// display pixels.
pub const FIT_MARGIN: u32 = 20000;

/// The least display space that the scale is fitted to: ten display pixels.
pub const FIT_FLOOR: u32 = 10000;

/// A point of the display, in thousandths of a display pixel.
#[derive(Clone, Copy, Debug, PartialEq, Eq, Structural)]
pub struct ScreenPoint {
    pub x: i32,
    pub y: i32,
}

/// A rectangle of the display, in thousandths of a display pixel: its
/// top-left corner and its size.
#[derive(Clone, Copy, Debug, PartialEq, Eq, Structural)]
pub struct ScreenRect {
    pub x: i32,
    pub y: i32,
    pub width: u32,
    pub height: u32,
}

/// Display pixels per card pixel, in thousandths, between a tenth and four.
#[derive(Clone, Copy, Debug, PartialEq, Eq, Structural)]
pub struct Scale {
    milli: u32,
}

/// Where the card is drawn and at what scale.
#[derive(Clone, Copy, Debug, PartialEq, Eq, Structural)]
pub struct DisplayFrame {
    pub rect: ScreenRect,
    pub scale: Scale,
}

/// A button of the pointer. Only the primary button draws and selects.
#[derive(Clone, Copy, Debug, PartialEq, Eq, Structural)]
pub enum PointerButton {
    Primary,
    Secondary,
    Middle,
}

/// What the pointer did.
#[derive(Clone, Copy, Debug, PartialEq, Eq, Structural)]
pub enum PointerEvent {
    Press { pos: ScreenPoint, button: PointerButton },
    Move { pos: ScreenPoint },
    Release { pos: ScreenPoint, button: PointerButton },
}

/// Where a gesture stands.
#[derive(Clone, Copy, Debug, PartialEq, Eq, Structural)]
pub enum GestureState {
    /// No gesture is under way.
    Idle,
    /// The button went down on the card; the pointer has not yet moved far
    /// enough for a drag.
    PressedMaybeDrag { origin: ScreenPoint },
    /// The pointer is dragging. `preview` is the rectangle, in card pixels,
    /// between `origin` and `current` as of the last move.
    Dragging { origin: ScreenPoint, current: ScreenPoint, preview: Rect },
    /// A drag was completed; its rectangle waits to be named or dropped.
    PendingRegion { rect: Rect },
}

/// What an event led to.
#[derive(Clone, Copy, Debug, PartialEq, Eq, Structural)]
pub enum GestureOutput {
    /// Nothing to act on.
    Idle,
    /// A click landed on the region at this position: select it.
    Selected(usize),
    /// A click landed on no region: clear the selection.
    Deselected,
    /// The drag goes on: show this rectangle.
    DragPreview(Rect),
    /// The drag ended: this rectangle waits for a name.
    PendingRegion(Rect),
}

/// `v`, held between `lo` and `hi`.
pub open spec fn clamp_between(v: int, lo: int, hi: int) -> int {
    if v < lo {
        lo
    } else if v > hi {
        hi
    } else {
        v
    }
}

/// `a / s` rounded to the nearest integer, halves upward, for `a >= 0` and
/// `s > 0`.
pub open spec fn round_div(a: int, s: int) -> int {
    (2 * a + s) / (2 * s)
}

/// Whether two points lie more than the drag threshold apart.
pub open spec fn beyond_threshold(a: ScreenPoint, b: ScreenPoint) -> bool {
    (a.x - b.x) * (a.x - b.x) + (a.y - b.y) * (a.y - b.y) > DRAG_THRESHOLD * DRAG_THRESHOLD
}

impl ScreenRect {
    /// Whether a point lies in the rectangle; its edges belong to it.
    pub open spec fn spec_contains(&self, p: ScreenPoint) -> bool {
        &&& self.x <= p.x <= self.x + self.width
        &&& self.y <= p.y <= self.y + self.height
    }

    #[verifier::when_used_as_spec(spec_contains)]
    pub fn contains(&self, p: ScreenPoint) -> (inside: bool)
        ensures
            inside == self.spec_contains(p),
    {
        let px: i64 = p.x as i64;
        let py: i64 = p.y as i64;
        let left: i64 = self.x as i64;
        let top: i64 = self.y as i64;
        left <= px && px <= left + self.width as i64 && top <= py && py <= top
            + self.height as i64
    }
}

impl Scale {
    /// The scale in thousandths.
    pub closed spec fn spec_milli(&self) -> u32 {
        self.milli
    }

    /// A scale is valid when it lies between a tenth and four.
    pub open spec fn wf(&self) -> bool {
        MIN_SCALE <= self.spec_milli() <= MAX_SCALE
    }

    /// The scale that fits a card into the space available, both display
    /// lengths in thousandths: the margin is kept free, at least the floor is
    /// assumed to be there, the smaller of the two ratios is taken, and the
    /// result is held between a tenth and four.
    pub open spec fn spec_fit(available_width: u32, available_height: u32, card: CardSize) -> int {
        let usable_width = if available_width - FIT_MARGIN > FIT_FLOOR {
            available_width - FIT_MARGIN
        } else {
            FIT_FLOOR as int
        };
        let usable_height = if available_height - FIT_MARGIN > FIT_FLOOR {
            available_height - FIT_MARGIN
        } else {
            FIT_FLOOR as int
        };
        let by_width = usable_width / card.width() as int;
        let by_height = usable_height / card.height() as int;
        clamp_between(
            if by_width < by_height {
                by_width
            } else {
                by_height
            },
            MIN_SCALE as int,
            MAX_SCALE as int,
        )
    }

    /// A scale of so many thousandths, held between a tenth and four.
    pub fn from_milli(milli: u32) -> (scale: Scale)
        ensures
            scale.wf(),
            scale.spec_milli() == clamp_between(milli as int, MIN_SCALE as int, MAX_SCALE as int),
    {
        Scale {
            milli: if milli < MIN_SCALE {
                MIN_SCALE
            } else if milli > MAX_SCALE {
                MAX_SCALE
            } else {
                milli
            },
        }
    }

    /// The scale at which a card fits the space available.
    pub fn fit(available_width: u32, available_height: u32, card: CardSize) -> (scale: Scale)
        requires
            card.wf(),
        ensures
            scale.wf(),
            scale.spec_milli() == Scale::spec_fit(available_width, available_height, card),
    {
        let usable_width: u32 = if available_width > FIT_MARGIN && available_width - FIT_MARGIN
            > FIT_FLOOR {
            available_width - FIT_MARGIN
        } else {
            FIT_FLOOR
        };
        let usable_height: u32 = if available_height > FIT_MARGIN && available_height
            - FIT_MARGIN > FIT_FLOOR {
            available_height - FIT_MARGIN
        } else {
            FIT_FLOOR
        };
        let by_width: u32 = (usable_width as usize / card.width()) as u32;
        let by_height: u32 = (usable_height as usize / card.height()) as u32;
        Scale::from_milli(if by_width < by_height { by_width } else { by_height })
    }

    #[verifier::when_used_as_spec(spec_milli)]
    pub fn milli(&self) -> (milli: u32)
        ensures
            milli == self.spec_milli(),
    {
        self.milli
    }

    /// The size at which a card is shown, in thousandths of a display pixel.
    pub fn displayed(&self, card: CardSize) -> (size: (u128, u128))
        ensures
            size.0 == card.width() * self.spec_milli(),
            size.1 == card.height() * self.spec_milli(),
    {
        assert(card.width() * self.milli <= 0xffff_ffff_ffff_ffff * 0xffff_ffff && card.height()
            * self.milli <= 0xffff_ffff_ffff_ffff * 0xffff_ffff) by (nonlinear_arith)
            requires
                0 <= card.width() <= 0xffff_ffff_ffff_ffff,
                0 <= card.height() <= 0xffff_ffff_ffff_ffff,
                0 <= self.milli <= 0xffff_ffff,
        ;
        (
            (card.width() as u128) * (self.milli as u128),
            (card.height() as u128) * (self.milli as u128),
        )
    }
}

/// The rectangle, in card pixels, that a drag from `origin` to `current`
/// draws. Both points are held inside the displayed card, the rectangle
/// between them is taken whatever the direction of the drag, and its corner
/// and size are divided by the scale and rounded; the size is at least
/// one pixel each way.
pub open spec fn preview_rect(origin: ScreenPoint, current: ScreenPoint, frame: DisplayFrame) -> Rect {
    let scale = frame.scale.milli() as int;
    let sx = clamp_between(origin.x - frame.rect.x, 0, frame.rect.width as int);
    let sy = clamp_between(origin.y - frame.rect.y, 0, frame.rect.height as int);
    let ex = clamp_between(current.x - frame.rect.x, 0, frame.rect.width as int);
    let ey = clamp_between(current.y - frame.rect.y, 0, frame.rect.height as int);
    let left = if sx < ex { sx } else { ex };
    let top = if sy < ey { sy } else { ey };
    let across = if sx < ex { ex - sx } else { sx - ex };
    let down = if sy < ey { ey - sy } else { sy - ey };
    let width = round_div(across, scale);
    let height = round_div(down, scale);
    Rect {
        x: round_div(left, scale) as usize,
        y: round_div(top, scale) as usize,
        width: (if width < 1 { 1 } else { width }) as usize,
        height: (if height < 1 { 1 } else { height }) as usize,
    }
}

/// The card pixel under a point of the displayed card: the offset from the
/// card's corner divided by the scale, rounded down.
pub open spec fn card_pixel(pos: ScreenPoint, frame: DisplayFrame) -> (usize, usize) {
    (
        ((pos.x - frame.rect.x) / frame.scale.milli() as int) as usize,
        ((pos.y - frame.rect.y) / frame.scale.milli() as int) as usize,
    )
}

/// What a click at a point does: it selects the first region, in order,
/// that holds the card pixel under the point, and clears the selection where
/// there is none or the point lies off the card.
pub open spec fn click_select(pos: ScreenPoint, frame: DisplayFrame, regions: Seq<RegionView>) -> GestureOutput {
    if frame.rect.contains(pos) {
        let pixel = card_pixel(pos, frame);
        match first_hit(regions, pixel.0, pixel.1) {
            Some(i) => GestureOutput::Selected(i as usize),
            None => GestureOutput::Deselected,
        }
    } else {
        GestureOutput::Deselected
    }
}

/// A state is valid when the rectangles it holds are at least one pixel wide
/// and high.
pub open spec fn state_wf(state: GestureState) -> bool {
    match state {
        GestureState::Dragging { preview, .. } => preview.width >= 1 && preview.height >= 1,
        GestureState::PendingRegion { rect } => rect.width >= 1 && rect.height >= 1,
        _ => true,
    }
}

/// The transition of the controller: the state and the output that an event
/// leads to. `frame` is where the card is shown, `None` while no card is
/// shown; `regions` are the regions that a click may select.
///
/// - While no card is shown, and for buttons other than the primary one,
///   the event is ignored.
/// - A press on the card starts a gesture from any state; a pending
///   rectangle is dropped by it. A press off the card ends a gesture under
///   way and leaves a pending rectangle alone.
/// - A move turns a press into a drag once the pointer is beyond the
///   threshold, and a drag follows every move with a new preview.
/// - A release ends a drag with its last preview as the pending rectangle,
///   ends a press that never became a drag with a click, and otherwise, being
///   the release of a press off the card, clears the selection.
pub open spec fn step(
    state: GestureState,
    event: PointerEvent,
    frame: Option<DisplayFrame>,
    regions: Seq<RegionView>,
) -> (GestureState, GestureOutput) {
    match frame {
        None => (state, GestureOutput::Idle),
        Some(frame) => match event {
            PointerEvent::Press { pos, button } => if button != PointerButton::Primary {
                (state, GestureOutput::Idle)
            } else if frame.rect.contains(pos) {
                (GestureState::PressedMaybeDrag { origin: pos }, GestureOutput::Idle)
            } else {
                match state {
                    GestureState::PendingRegion { .. } => (state, GestureOutput::Idle),
                    _ => (GestureState::Idle, GestureOutput::Idle),
                }
            },
            PointerEvent::Move { pos } => match state {
                GestureState::PressedMaybeDrag { origin } => if beyond_threshold(pos, origin) {
                    let preview = preview_rect(origin, pos, frame);
                    (
                        GestureState::Dragging { origin, current: pos, preview },
                        GestureOutput::DragPreview(preview),
                    )
                } else {
                    (state, GestureOutput::Idle)
                },
                GestureState::Dragging { origin, .. } => {
                    let preview = preview_rect(origin, pos, frame);
                    (
                        GestureState::Dragging { origin, current: pos, preview },
                        GestureOutput::DragPreview(preview),
                    )
                },
                _ => (state, GestureOutput::Idle),
            },
            PointerEvent::Release { pos, button } => if button != PointerButton::Primary {
                (state, GestureOutput::Idle)
            } else {
                match state {
                    GestureState::Dragging { preview, .. } => (
                        GestureState::PendingRegion { rect: preview },
                        GestureOutput::PendingRegion(preview),
                    ),
                    GestureState::PressedMaybeDrag { .. } => (
                        GestureState::Idle,
                        click_select(pos, frame, regions),
                    ),
                    GestureState::Idle => (GestureState::Idle, GestureOutput::Deselected),
                    GestureState::PendingRegion { .. } => (state, GestureOutput::Deselected),
                }
            },
        },
    }
}

/// Whether two points lie more than the drag threshold apart.
pub fn is_beyond_threshold(a: ScreenPoint, b: ScreenPoint) -> (beyond: bool)
    ensures
        beyond == beyond_threshold(a, b),
{
    let dx: i64 = a.x as i64 - b.x as i64;
    let dy: i64 = a.y as i64 - b.y as i64;
    if dx > DRAG_THRESHOLD || dx < -DRAG_THRESHOLD || dy > DRAG_THRESHOLD || dy < -DRAG_THRESHOLD {
        assert(dx * dx + dy * dy > 4000 * 4000) by (nonlinear_arith)
            requires
                dx > 4000 || dx < -4000 || dy > 4000 || dy < -4000,
        ;
        true
    } else {
        assert(0 <= dx * dx <= 4000 * 4000 && 0 <= dy * dy <= 4000 * 4000) by (nonlinear_arith)
            requires
                -4000 <= dx <= 4000,
                -4000 <= dy <= 4000,
        ;
        dx * dx + dy * dy > DRAG_THRESHOLD * DRAG_THRESHOLD
    }
}

/// A display length divided by the scale and rounded, halves upward.
fn scaled_round(length: i64, scale: Scale) -> (pixels: usize)
    requires
        scale.wf(),
        0 <= length <= u32::MAX,
    ensures
        pixels == round_div(length as int, scale.milli() as int),
{
    let s: i64 = scale.milli as i64;
    let rounded: i64 = (2 * length + s) / (2 * s);
    assert(0 <= rounded <= u32::MAX) by (nonlinear_arith)
        requires
            rounded == (2 * length + s) / (2 * s),
            0 <= length <= u32::MAX,
            100 <= s <= 4000,
    ;
    rounded as usize
}

/// An offset held between zero and an extent.
fn clamped_offset(position: i32, start: i32, extent: u32) -> (offset: i64)
    ensures
        offset == clamp_between(position - start, 0, extent as int),
        0 <= offset <= extent,
{
    let raw: i64 = position as i64 - start as i64;
    if raw < 0 {
        0
    } else if raw > extent as i64 {
        extent as i64
    } else {
        raw
    }
}

/// The rectangle, in card pixels, that a drag from `origin` to `current`
/// draws on the card as shown.
pub fn drag_rect(origin: ScreenPoint, current: ScreenPoint, frame: &DisplayFrame) -> (rect: Rect)
    requires
        frame.scale.wf(),
    ensures
        rect == preview_rect(origin, current, *frame),
        rect.width >= 1,
        rect.height >= 1,
{
    let sx = clamped_offset(origin.x, frame.rect.x, frame.rect.width);
    let sy = clamped_offset(origin.y, frame.rect.y, frame.rect.height);
    let ex = clamped_offset(current.x, frame.rect.x, frame.rect.width);
    let ey = clamped_offset(current.y, frame.rect.y, frame.rect.height);
    let left: i64 = if sx < ex { sx } else { ex };
    let top: i64 = if sy < ey { sy } else { ey };
    let across: i64 = if sx < ex { ex - sx } else { sx - ex };
    let down: i64 = if sy < ey { ey - sy } else { sy - ey };
    let width = scaled_round(across, frame.scale);
    let height = scaled_round(down, frame.scale);
    Rect {
        x: scaled_round(left, frame.scale),
        y: scaled_round(top, frame.scale),
        width: if width < 1 { 1 } else { width },
        height: if height < 1 { 1 } else { height },
    }
}

/// What a click at a point of the display selects among the regions of a
/// store.
pub fn click(pos: ScreenPoint, frame: &DisplayFrame, store: &RegionStore) -> (output: GestureOutput)
    requires
        frame.scale.wf(),
    ensures
        output == click_select(pos, *frame, store@),
{
    if !frame.rect.contains(pos) {
        return GestureOutput::Deselected;
    }
    let s: i64 = frame.scale.milli as i64;
    let dx: i64 = pos.x as i64 - frame.rect.x as i64;
    let dy: i64 = pos.y as i64 - frame.rect.y as i64;
    let px: i64 = dx / s;
    let py: i64 = dy / s;
    assert(0 <= px <= u32::MAX && 0 <= py <= u32::MAX) by (nonlinear_arith)
        requires
            px == dx / s,
            py == dy / s,
            0 <= dx <= u32::MAX,
            0 <= dy <= u32::MAX,
            100 <= s <= 4000,
    ;
    proof {
        lemma_first_hit(store@, px as usize, py as usize);
    }
    match store.hit_test(px as usize, py as usize) {
        Some(i) => GestureOutput::Selected(i),
        None => GestureOutput::Deselected,
    }
}

/// The gesture state machine.
#[derive(Debug)]
pub struct GestureController {
    state: GestureState,
}

impl GestureController {
    /// Where the gesture stands.
    pub closed spec fn spec_state(&self) -> GestureState {
        self.state
    }

    /// The controller is valid when its state is.
    pub open spec fn wf(&self) -> bool {
        state_wf(self.spec_state())
    }

    /// A controller with no gesture under way.
    pub fn new() -> (controller: GestureController)
        ensures
            controller.spec_state() == GestureState::Idle,
            controller.wf(),
    {
        GestureController { state: GestureState::Idle }
    }

    #[verifier::when_used_as_spec(spec_state)]
    pub fn state(&self) -> (state: GestureState)
        ensures
            state == self.spec_state(),
    {
        self.state
    }

    /// Takes one pointer event and says what it led to.
    pub fn feed(
        &mut self,
        event: PointerEvent,
        frame: Option<DisplayFrame>,
        store: &RegionStore,
    ) -> (output: GestureOutput)
        requires
            frame matches Some(f) ==> f.scale.wf(),
        ensures
            (final(self).spec_state(), output) == step(old(self).spec_state(), event, frame, store@),
            old(self).wf() ==> final(self).wf(),
    {
        let frame = match frame {
            Some(frame) => frame,
            None => {
                return GestureOutput::Idle;
            },
        };
        match event {
            PointerEvent::Press { pos, button } => {
                if button == PointerButton::Primary {
                    if frame.rect.contains(pos) {
                        self.state = GestureState::PressedMaybeDrag { origin: pos };
                    } else {
                        match self.state {
                            GestureState::PendingRegion { .. } => {},
                            _ => {
                                self.state = GestureState::Idle;
                            },
                        }
                    }
                }
                GestureOutput::Idle
            },
            PointerEvent::Move { pos } => match self.state {
                GestureState::PressedMaybeDrag { origin } => {
                    if is_beyond_threshold(pos, origin) {
                        let preview = drag_rect(origin, pos, &frame);
                        self.state = GestureState::Dragging { origin, current: pos, preview };
                        GestureOutput::DragPreview(preview)
                    } else {
                        GestureOutput::Idle
                    }
                },
                GestureState::Dragging { origin, .. } => {
                    let preview = drag_rect(origin, pos, &frame);
                    self.state = GestureState::Dragging { origin, current: pos, preview };
                    GestureOutput::DragPreview(preview)
                },
                _ => GestureOutput::Idle,
            },
            PointerEvent::Release { pos, button } => {
                if button != PointerButton::Primary {
                    return GestureOutput::Idle;
                }
                match self.state {
                    GestureState::Dragging { preview, .. } => {
                        self.state = GestureState::PendingRegion { rect: preview };
                        GestureOutput::PendingRegion(preview)
                    },
                    GestureState::PressedMaybeDrag { .. } => {
                        self.state = GestureState::Idle;
                        click(pos, &frame, store)
                    },
                    GestureState::Idle => GestureOutput::Deselected,
                    GestureState::PendingRegion { .. } => GestureOutput::Deselected,
                }
            },
        }
    }

    /// Takes the pending rectangle to be named and added. Without a pending
    /// rectangle nothing changes.
    pub fn confirm(&mut self) -> (rect: Option<Rect>)
        ensures
            match old(self).spec_state() {
                GestureState::PendingRegion { rect: pending } => rect == Some(pending)
                    && final(self).spec_state() == GestureState::Idle,
                _ => rect is None && final(self).spec_state() == old(self).spec_state(),
            },
    {
        match self.state {
            GestureState::PendingRegion { rect } => {
                self.state = GestureState::Idle;
                Some(rect)
            },
            _ => None,
        }
    }

    /// Drops the pending rectangle. Without a pending rectangle nothing
    /// changes.
    pub fn cancel(&mut self)
        ensures
            match old(self).spec_state() {
                GestureState::PendingRegion { .. } => final(self).spec_state()
                    == GestureState::Idle,
                _ => final(self).spec_state() == old(self).spec_state(),
            },
    {
        match self.state {
            GestureState::PendingRegion { .. } => {
                self.state = GestureState::Idle;
            },
            _ => {},
        }
    }

    /// Ends whatever gesture is under way and drops a pending rectangle.
    pub fn reset(&mut self)
        ensures
            final(self).spec_state() == GestureState::Idle,
    {
        self.state = GestureState::Idle;
    }
}

/// Rounding a display length that fits 32 bits by a valid scale gives a
/// pixel count that fits 32 bits, and never less for a longer length.
proof fn lemma_round_div_bounds(a: int, b: int, s: int)
    requires
        0 <= a <= b <= u32::MAX,
        MIN_SCALE <= s <= MAX_SCALE,
    ensures
        0 <= round_div(a, s) <= round_div(b, s) <= u32::MAX,
{
    assert(0 <= (2 * a + s) / (2 * s) <= (2 * b + s) / (2 * s) <= 0xffff_ffff)
        by (nonlinear_arith)
        requires
            0 <= a <= b <= 0xffff_ffff,
            100 <= s <= 4000,
    ;
}

/// The rectangle of a drag is at least one pixel wide and high, and its
/// corner and size are the rounded quotients that its definition names.
pub proof fn lemma_preview_rect(origin: ScreenPoint, current: ScreenPoint, frame: DisplayFrame)
    requires
        frame.scale.wf(),
    ensures
        preview_rect(origin, current, frame).width >= 1,
        preview_rect(origin, current, frame).height >= 1,
        preview_rect(origin, current, frame).x <= round_div(
            frame.rect.width as int,
            frame.scale.milli() as int,
        ),
        preview_rect(origin, current, frame).y <= round_div(
            frame.rect.height as int,
            frame.scale.milli() as int,
        ),
{
    let scale = frame.scale.milli() as int;
    let sx = clamp_between(origin.x - frame.rect.x, 0, frame.rect.width as int);
    let sy = clamp_between(origin.y - frame.rect.y, 0, frame.rect.height as int);
    let ex = clamp_between(current.x - frame.rect.x, 0, frame.rect.width as int);
    let ey = clamp_between(current.y - frame.rect.y, 0, frame.rect.height as int);
    let left = if sx < ex { sx } else { ex };
    let top = if sy < ey { sy } else { ey };
    let across = if sx < ex { ex - sx } else { sx - ex };
    let down = if sy < ey { ey - sy } else { sy - ey };
    lemma_round_div_bounds(left, frame.rect.width as int, scale);
    lemma_round_div_bounds(top, frame.rect.height as int, scale);
    lemma_round_div_bounds(across, frame.rect.width as int, scale);
    lemma_round_div_bounds(down, frame.rect.height as int, scale);
}

/// A transition leads from a valid state to a valid state.
pub proof fn lemma_step_keeps_wf(
    state: GestureState,
    event: PointerEvent,
    frame: Option<DisplayFrame>,
    regions: Seq<RegionView>,
)
    requires
        state_wf(state),
        frame matches Some(f) ==> f.scale.wf(),
    ensures
        state_wf(step(state, event, frame, regions).0),
{
    if let Some(f) = frame {
        if let PointerEvent::Move { pos } = event {
            match state {
                GestureState::PressedMaybeDrag { origin } => {
                    lemma_preview_rect(origin, pos, f);
                },
                GestureState::Dragging { origin, .. } => {
                    lemma_preview_rect(origin, pos, f);
                },
                _ => {},
            }
        }
    }
}

/// A press followed at once by a release at the same point is a click: it
/// selects by the card pixel under the point or clears the selection, and
/// draws nothing. No rectangle becomes pending by it; one that was pending
/// stays so only where the click fell off the card.
pub proof fn lemma_press_release_is_click(
    state: GestureState,
    pos: ScreenPoint,
    frame: DisplayFrame,
    regions: Seq<RegionView>,
)
    ensures
        ({
            let pressed = step(
                state,
                PointerEvent::Press { pos, button: PointerButton::Primary },
                Some(frame),
                regions,
            );
            let released = step(
                pressed.0,
                PointerEvent::Release { pos, button: PointerButton::Primary },
                Some(frame),
                regions,
            );
            &&& pressed.1 == GestureOutput::Idle
            &&& released.1 == click_select(pos, frame, regions)
            &&& released.1 is Selected || released.1 is Deselected
            &&& frame.rect.contains(pos) ==> released.0 == GestureState::Idle
            &&& released.0 is PendingRegion ==> released.0 == state && !frame.rect.contains(pos)
        }),
{
}

/// A press on the card, a move beyond the threshold and a release make a
/// pending rectangle and no click: the rectangle between the two points,
/// in card pixels. Where both points lie on the card, its left edge is that
/// of the point further left and its width is the distance across, each
/// divided by the scale and rounded, the width at least one.
pub proof fn lemma_drag_makes_pending(
    state: GestureState,
    origin: ScreenPoint,
    current: ScreenPoint,
    release: ScreenPoint,
    frame: DisplayFrame,
    regions: Seq<RegionView>,
)
    requires
        frame.scale.wf(),
        frame.rect.contains(origin),
        beyond_threshold(current, origin),
    ensures
        ({
            let pressed = step(
                state,
                PointerEvent::Press { pos: origin, button: PointerButton::Primary },
                Some(frame),
                regions,
            );
            let moved = step(pressed.0, PointerEvent::Move { pos: current }, Some(frame), regions);
            let released = step(
                moved.0,
                PointerEvent::Release { pos: release, button: PointerButton::Primary },
                Some(frame),
                regions,
            );
            let rect = preview_rect(origin, current, frame);
            let scale = frame.scale.milli() as int;
            let across = if origin.x < current.x {
                current.x - origin.x
            } else {
                origin.x - current.x
            };
            let left = if origin.x < current.x {
                origin.x - frame.rect.x
            } else {
                current.x - frame.rect.x
            };
            &&& moved.1 == GestureOutput::DragPreview(rect)
            &&& released.0 == GestureState::PendingRegion { rect }
            &&& released.1 == GestureOutput::PendingRegion(rect)
            &&& rect.width >= 1 && rect.height >= 1
            &&& frame.rect.contains(current) ==> rect.x == round_div(left, scale) && rect.width == (
            if round_div(across, scale) < 1 {
                1
            } else {
                round_div(across, scale)
            })
        }),
{
    lemma_preview_rect(origin, current, frame);
    let scale = frame.scale.milli() as int;
    if frame.rect.contains(current) {
        let sx = origin.x - frame.rect.x;
        let ex = current.x - frame.rect.x;
        let left = if sx < ex { sx } else { ex };
        let across = if sx < ex { ex - sx } else { sx - ex };
        lemma_round_div_bounds(left, frame.rect.width as int, scale);
        lemma_round_div_bounds(across, frame.rect.width as int, scale);
    }
}

/// A transition selects only a position that the regions have.
pub proof fn lemma_step_selects_in_range(
    state: GestureState,
    event: PointerEvent,
    frame: Option<DisplayFrame>,
    regions: Seq<RegionView>,
)
    ensures
        step(state, event, frame, regions).1 matches GestureOutput::Selected(i) ==> i
            < regions.len(),
{
    if let Some(f) = frame {
        if let PointerEvent::Release { pos, .. } = event {
            let pixel = card_pixel(pos, f);
            lemma_first_hit(regions, pixel.0, pixel.1);
        }
    }
}

} // verus!
