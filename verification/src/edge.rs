//! The control lifecycle manager for an EdgeHTML-style web-view control.
//!
//! A [`Process`] stands for the OS-level process that hosts every native
//! control. [`Process::create_control`] resolves a host-window ownership
//! policy ([`HwndType`]), builds a [`Control`] whose native reference is
//! still absent, and hands back the asynchronous creation request the
//! embedding layer must submit. Until the completion callback reports an
//! outcome through [`Control::control_created`], every bounds update is
//! captured as the single pending update (last write wins) and navigation
//! is deferred without error; once the native reference is present, the
//! pending update is flushed exactly once and later updates apply at once.
//!
//! The manager never calls the platform itself. Each mutating method
//! returns an explicit action — reposition the host window, set the native
//! control's bounds, request navigation — that the embedding layer performs,
//! and takes the platform's answers (a created window handle, a queried
//! window rectangle, the asynchronous outcome) as arguments. Everything the
//! manager decides from those answers is verified.

use vstd::prelude::*;
use vstd::string::StringExecFns;

use crate::error::Error;

verus! {

/// Bounds for the native control, in physical pixels.
///
/// The origin is relative to the host window when the bounds come from an
/// explicit size, and taken from the window rectangle (screen-relative)
/// when the host is a child window filling its own rectangle.
#[derive(Clone, Copy, PartialEq, Eq, Debug)]
pub struct Rect {
    pub x: i32,
    pub y: i32,
    pub width: i32,
    pub height: i32,
}

/// A host window's rectangle as the platform reports it: screen coordinates
/// of the left/top and right/bottom corners.
#[derive(Clone, Copy, PartialEq, Eq, Debug)]
pub struct WindowRect {
    pub left: i32,
    pub top: i32,
    pub right: i32,
    pub bottom: i32,
}

impl WindowRect {
    /// A rectangle the platform can actually report: corners are ordered
    /// and the extents fit the machine's integer width.
    pub open spec fn wf(self) -> bool {
        &&& self.left <= self.right
        &&& self.top <= self.bottom
        &&& self.right - self.left <= i32::MAX
        &&& self.bottom - self.top <= i32::MAX
    }

    /// The native-control bounds this window rectangle implies. When the
    /// host window is the application's top-level window the coordinates
    /// are window-relative, so the origin is forced to zero; for a child
    /// host window the origin is taken from the rectangle itself.
    pub open spec fn control_bounds(self, window_relative: bool) -> Rect {
        Rect {
            x: if window_relative { 0 } else { self.left },
            y: if window_relative { 0 } else { self.top },
            width: (self.right - self.left) as i32,
            height: (self.bottom - self.top) as i32,
        }
    }
}

/// Which window hosts the control, and who owns that window.
pub enum HwndType {
    /// Host the control directly in the application's top-level window.
    /// Resizing then only ever touches the native control's bounds, never
    /// the window itself.
    FillWindow(usize),
    /// Host the control in the given window, taking ownership of it: the
    /// window is destroyed when the control is torn down.
    ConsumeHwnd(usize),
    /// Create a new child window inside the given parent window and let
    /// the control own it.
    NewHwndInWindow(usize),
}

impl HwndType {
    /// The handle the caller supplied: the host window for `FillWindow`
    /// and `ConsumeHwnd`, the parent window for `NewHwndInWindow`.
    pub open spec fn given_handle(self) -> usize {
        match self {
            HwndType::FillWindow(h) => h,
            HwndType::ConsumeHwnd(h) => h,
            HwndType::NewHwndInWindow(p) => p,
        }
    }
}

/// What a bounds update asks of the embedding layer.
#[derive(Clone, Copy, PartialEq, Eq, Debug)]
pub enum BoundsEffect {
    /// The native control exists: set its bounds to `bounds` now.
    Apply { control: u64, bounds: Rect },
    /// The native control does not exist yet: the update was captured as
    /// the single pending update, and there is nothing to perform.
    Deferred,
}

/// The mutable state behind a control: the host window, the coordinate-space
/// flag, the native control reference once creation completed, and the
/// single pending bounds update captured while it had not.
pub struct ControlInner {
    hwnd: usize,
    is_window_hwnd: bool,
    owns_hwnd: bool,
    control: Option<u64>,
    queued_bounds_update: Option<Rect>,
    creation_failed: bool,
}

impl ControlInner {
    /// The host window handle.
    pub closed spec fn host(self) -> usize {
        self.hwnd
    }

    /// Whether the host window is the application's top-level window, so
    /// that bounds coordinates are window-relative and the window itself is
    /// never repositioned by a resize.
    pub closed spec fn is_window_host(self) -> bool {
        self.is_window_hwnd
    }

    /// Whether the control owns the host window and must have it destroyed
    /// at teardown.
    pub closed spec fn owns_host(self) -> bool {
        self.owns_hwnd
    }

    /// The native control reference, absent until asynchronous creation
    /// completes successfully.
    pub closed spec fn native(self) -> Option<u64> {
        self.control
    }

    /// The single pending bounds update captured while the native control
    /// was absent.
    pub closed spec fn queued(self) -> Option<Rect> {
        self.queued_bounds_update
    }

    /// Whether asynchronous creation reported failure; a terminal state.
    pub closed spec fn failed(self) -> bool {
        self.creation_failed
    }

    /// The native control exists.
    pub open spec fn ready(self) -> bool {
        self.native() is Some
    }

    /// Creation has neither completed nor failed.
    pub open spec fn pending(self) -> bool {
        self.native() is None && !self.failed()
    }

    /// Every control the factory hands out satisfies this and every
    /// transition preserves it: the host window is non-null, nothing stays
    /// queued once the native control exists, and a failed creation never
    /// produced a native reference.
    pub open spec fn wf(self) -> bool {
        &&& self.host() != 0
        &&& self.ready() ==> self.queued() is None
        &&& self.failed() ==> self.native() is None
    }
}

/// The state after a bounds update: applied states stay as they are, while
/// a control whose native reference is absent captures the rectangle as its
/// single pending update.
pub closed spec fn bounds_update_state(s: ControlInner, rect: Rect) -> ControlInner {
    if s.control is Some {
        s
    } else {
        ControlInner { queued_bounds_update: Some(rect), ..s }
    }
}

/// The action a bounds update returns: apply now when the native control
/// exists, nothing otherwise.
pub closed spec fn bounds_update_effect(s: ControlInner, rect: Rect) -> BoundsEffect {
    match s.control {
        Some(c) => BoundsEffect::Apply { control: c, bounds: rect },
        None => BoundsEffect::Deferred,
    }
}

impl ControlInner {
    /// Applies `rect` as the native control's bounds, or captures it as the
    /// single pending update while the native control is absent. Deferral
    /// is silent and always succeeds; an update issued while the control is
    /// ready is applied immediately and leaves nothing queued.
    pub fn update_bounds_from_rect(&mut self, rect: Rect) -> (e: BoundsEffect)
        ensures
            *final(self) == bounds_update_state(*old(self), rect),
            e == bounds_update_effect(*old(self), rect),
            old(self).native() matches Some(c) ==> e == (BoundsEffect::Apply {
                control: c,
                bounds: rect,
            }) && *final(self) == *old(self),
            old(self).native() is None ==> e == BoundsEffect::Deferred && final(self).queued()
                == Some(rect),
            final(self).host() == old(self).host(),
            final(self).is_window_host() == old(self).is_window_host(),
            final(self).owns_host() == old(self).owns_host(),
            final(self).native() == old(self).native(),
            final(self).failed() == old(self).failed(),
            old(self).wf() ==> final(self).wf(),
    {
        match self.control {
            Some(c) => BoundsEffect::Apply { control: c, bounds: rect },
            None => {
                self.queued_bounds_update = Some(rect);
                BoundsEffect::Deferred
            },
        }
    }

    /// Recomputes the native control's bounds from the host window's
    /// rectangle, as the platform reported it in `window_rect`. A failed
    /// rectangle query (the `Err` code) is the only failure mode and leaves
    /// the state untouched; otherwise this behaves like
    /// [`Self::update_bounds_from_rect`] on the implied bounds.
    pub fn update_bounds(&mut self, window_rect: Result<WindowRect, i32>) -> (r: Result<
        BoundsEffect,
        Error,
    >)
        requires
            window_rect matches Ok(wr) ==> wr.wf(),
        ensures
            window_rect matches Err(code) ==> r == Err::<BoundsEffect, Error>(Error::Io(code))
                && *final(self) == *old(self),
            window_rect matches Ok(wr) ==> ({
                let bounds = wr.control_bounds(old(self).is_window_host());
                &&& *final(self) == bounds_update_state(*old(self), bounds)
                &&& r == Ok::<BoundsEffect, Error>(bounds_update_effect(*old(self), bounds))
                &&& old(self).native() matches Some(c) ==> r == Ok::<BoundsEffect, Error>(
                    BoundsEffect::Apply { control: c, bounds },
                ) && *final(self) == *old(self)
                &&& old(self).native() is None ==> r == Ok::<BoundsEffect, Error>(
                    BoundsEffect::Deferred,
                ) && final(self).queued() == Some(bounds)
            }),
            r is Err <==> window_rect is Err,
            final(self).host() == old(self).host(),
            final(self).is_window_host() == old(self).is_window_host(),
            final(self).owns_host() == old(self).owns_host(),
            final(self).native() == old(self).native(),
            final(self).failed() == old(self).failed(),
            old(self).wf() ==> final(self).wf(),
    {
        match window_rect {
            Err(code) => Err(Error::Io(code)),
            Ok(wr) => {
                let x: i32 = if self.is_window_hwnd {
                    0
                } else {
                    wr.left
                };
                let y: i32 = if self.is_window_hwnd {
                    0
                } else {
                    wr.top
                };
                let width: i32 = wr.right - wr.left;
                let height: i32 = wr.bottom - wr.top;
                Ok(self.update_bounds_from_rect(Rect { x, y, width, height }))
            },
        }
    }
}

/// What the completion callback asks of the embedding layer once the
/// asynchronous creation operation finishes.
#[derive(Clone, Copy, PartialEq, Eq, Debug)]
pub enum CompletionEffect {
    /// Creation succeeded. If `flush` holds a rectangle, set the native
    /// control's bounds to it (this is the single deferred update, applied
    /// exactly once); then invoke the caller's readiness callback, once.
    Ready { control: u64, flush: Option<Rect> },
    /// Creation failed. The native reference stays absent for good and the
    /// readiness callback is never invoked.
    Failed,
}

/// What a navigation request asks of the embedding layer.
#[derive(PartialEq, Eq, Debug)]
pub enum NavigateEffect {
    /// The native control does not exist yet: the request is dropped
    /// without error and without effect.
    Deferred,
    /// Parse `url` into a native URI and ask the native control to
    /// navigate to it.
    Request { control: u64, url: String },
}

/// How far asynchronous creation has come.
#[derive(Clone, Copy, PartialEq, Eq, Debug)]
pub enum CreationStatus {
    /// The creation request is still outstanding — possibly forever, if
    /// the host process never answers.
    Pending,
    /// The native control exists.
    Ready,
    /// Creation reported failure; the control will never become ready.
    Failed,
}

/// A repositioning of the host window itself, performed with the
/// platform's window-placement primitive. `move_window` and
/// `resize_window` say which halves of the placement are meant; the other
/// half's fields are placeholders to be ignored, as the platform's
/// "no move"/"no size" flags do.
#[derive(Clone, Copy, PartialEq, Eq, Debug)]
pub struct HostPlacement {
    pub hwnd: usize,
    pub x: i32,
    pub y: i32,
    pub width: i32,
    pub height: i32,
    pub move_window: bool,
    pub resize_window: bool,
}

/// Everything one resize call asks of the embedding layer: an optional
/// host-window placement, then a bounds update for the native control.
#[derive(Clone, Copy, PartialEq, Eq, Debug)]
pub struct ResizeEffect {
    pub placement: Option<HostPlacement>,
    pub bounds: BoundsEffect,
}

/// The asynchronous creation request the embedding layer must submit to
/// the native runtime: the host window to attach to and the initial
/// bounds, in physical pixels.
#[derive(Clone, Copy, PartialEq, Eq, Debug)]
pub struct CreateRequest {
    pub hwnd: usize,
    pub bounds: Rect,
}

/// The state after the completion callback delivered `outcome`: a native
/// reference is stored and the pending update cleared; a failure is
/// recorded and everything else left alone.
pub closed spec fn completion_state(s: ControlInner, outcome: Option<u64>) -> ControlInner {
    match outcome {
        Some(c) => ControlInner {
            control: Some(c),
            queued_bounds_update: None,
            ..s
        },
        None => ControlInner { creation_failed: true, ..s },
    }
}

/// The action the completion callback returns: flush the pending update
/// and invoke the readiness callback on success, nothing on failure.
pub closed spec fn completion_effect(s: ControlInner, outcome: Option<u64>) -> CompletionEffect {
    match outcome {
        Some(c) => CompletionEffect::Ready { control: c, flush: s.queued_bounds_update },
        None => CompletionEffect::Failed,
    }
}

/// The host-window placement a resize implies. When the host window is the
/// application's top-level window there is none: resizing never touches
/// the window itself. Otherwise the placement carries the requested
/// position and size, with absent halves flagged off and zeroed.
pub closed spec fn placement_request(
    s: ControlInner,
    position: Option<(i32, i32)>,
    size: Option<(i32, i32)>,
) -> Option<HostPlacement> {
    if s.is_window_hwnd {
        None
    } else {
        Some(
            HostPlacement {
                hwnd: s.hwnd,
                x: match position {
                    Some(p) => p.0,
                    None => 0,
                },
                y: match position {
                    Some(p) => p.1,
                    None => 0,
                },
                width: match size {
                    Some(wh) => wh.0,
                    None => 0,
                },
                height: match size {
                    Some(wh) => wh.1,
                    None => 0,
                },
                move_window: position is Some,
                resize_window: size is Some,
            },
        )
    }
}

/// The native-control bounds an explicit size implies: the requested
/// extent at a zeroed, host-window-relative origin.
pub open spec fn explicit_bounds(size: (i32, i32)) -> Rect {
    Rect { x: 0, y: 0, width: size.0, height: size.1 }
}

/// A handle to one control. The backing native object is created
/// asynchronously, so the handle mediates between "requested" and "ready":
/// its host window is valid from the start, while bounds updates and
/// navigation are deferred until [`Control::control_created`] reports
/// success.
///
/// The handle is a single-owner value; an embedding that shares one
/// control across several places wraps it in its own single-threaded
/// shared cell and routes every mutation through that one accessor.
pub struct Control {
    inner: ControlInner,
}

impl Control {
    /// The whole lifecycle state, for specifications.
    pub closed spec fn state(self) -> ControlInner {
        self.inner
    }

    /// The host window handle.
    pub open spec fn host(self) -> usize {
        self.state().host()
    }

    /// Whether the host window is the application's top-level window.
    pub open spec fn is_window_host(self) -> bool {
        self.state().is_window_host()
    }

    /// Whether the control owns its host window.
    pub open spec fn owns_host(self) -> bool {
        self.state().owns_host()
    }

    /// The native control reference, if creation has completed.
    pub open spec fn native(self) -> Option<u64> {
        self.state().native()
    }

    /// The pending bounds update, if any.
    pub open spec fn queued(self) -> Option<Rect> {
        self.state().queued()
    }

    /// Whether creation reported failure.
    pub open spec fn failed(self) -> bool {
        self.state().failed()
    }

    /// The native control exists.
    pub open spec fn ready(self) -> bool {
        self.state().ready()
    }

    /// Creation has neither completed nor failed.
    pub open spec fn pending(self) -> bool {
        self.state().pending()
    }

    /// See [`ControlInner::wf`].
    pub open spec fn wf(self) -> bool {
        self.state().wf()
    }

    /// The completion callback's verified half, to be called exactly once,
    /// when the asynchronous creation operation finishes: `outcome` is the
    /// operation's result, a native control reference or failure. On
    /// success the reference is stored and the single pending bounds
    /// update handed back to be applied; on failure the control enters its
    /// terminal failed state. Only a `Ready` effect ever asks for the
    /// readiness callback, so a failed creation never invokes it.
    pub fn control_created(&mut self, outcome: Option<u64>) -> (e: CompletionEffect)
        requires
            old(self).pending(),
        ensures
            final(self).state() == completion_state(old(self).state(), outcome),
            e == completion_effect(old(self).state(), outcome),
            outcome matches Some(c) ==> e == (CompletionEffect::Ready {
                control: c,
                flush: old(self).queued(),
            }) && final(self).native() == Some(c) && final(self).queued() is None
                && !final(self).failed(),
            outcome is None ==> e == CompletionEffect::Failed && final(self).native() is None
                && final(self).failed() && final(self).queued() == old(self).queued(),
            final(self).host() == old(self).host(),
            final(self).is_window_host() == old(self).is_window_host(),
            final(self).owns_host() == old(self).owns_host(),
            old(self).wf() ==> final(self).wf(),
    {
        match outcome {
            Some(c) => {
                self.inner.control = Some(c);
                let flush = self.inner.queued_bounds_update;
                self.inner.queued_bounds_update = None;
                CompletionEffect::Ready { control: c, flush }
            },
            None => {
                self.inner.creation_failed = true;
                CompletionEffect::Failed
            },
        }
    }

    /// Decides what one resize call does. `position` and `size` are in
    /// physical pixels; an absent half leaves the corresponding half of
    /// the window placement unchanged. `window_rect` is the host window's
    /// rectangle as the platform last reported it, and is only consulted
    /// when no explicit size is given; a failed query (the `Err` code) is
    /// then the only failure mode. With an explicit size the bounds are
    /// host-window-relative at a zeroed origin; without one they are
    /// recomputed from the rectangle. Either way, a control whose native
    /// reference is absent captures the bounds as its single pending
    /// update and the call still succeeds.
    pub fn resize(
        &mut self,
        position: Option<(i32, i32)>,
        size: Option<(i32, i32)>,
        window_rect: Result<WindowRect, i32>,
    ) -> (r: Result<ResizeEffect, Error>)
        requires
            size is None ==> (window_rect matches Ok(wr) ==> wr.wf()),
        ensures
            r is Err <==> size is None && window_rect is Err,
            size is None ==> (window_rect matches Err(code) ==> r == Err::<ResizeEffect, Error>(
                Error::Io(code),
            ) && *final(self) == *old(self)),
            r matches Ok(eff) ==> ({
                let bounds = match size {
                    Some(wh) => explicit_bounds(wh),
                    None => window_rect->Ok_0.control_bounds(old(self).is_window_host()),
                };
                &&& eff.placement == placement_request(old(self).state(), position, size)
                &&& final(self).state() == bounds_update_state(old(self).state(), bounds)
                &&& eff.bounds == bounds_update_effect(old(self).state(), bounds)
                &&& old(self).is_window_host() ==> eff.placement is None
                &&& !old(self).is_window_host() ==> (eff.placement matches Some(p) && p.hwnd
                    == old(self).host() && p.x == (match position {
                    Some(xy) => xy.0,
                    None => 0,
                }) && p.y == (match position {
                    Some(xy) => xy.1,
                    None => 0,
                }) && p.width == (match size {
                    Some(wh) => wh.0,
                    None => 0,
                }) && p.height == (match size {
                    Some(wh) => wh.1,
                    None => 0,
                }) && p.move_window == (position is Some) && p.resize_window == (size is Some))
                &&& old(self).native() matches Some(c) ==> eff.bounds == (BoundsEffect::Apply {
                    control: c,
                    bounds,
                }) && *final(self) == *old(self)
                &&& old(self).native() is None ==> eff.bounds == BoundsEffect::Deferred
                    && final(self).queued() == Some(bounds)
            }),
            final(self).host() == old(self).host(),
            final(self).is_window_host() == old(self).is_window_host(),
            final(self).owns_host() == old(self).owns_host(),
            final(self).native() == old(self).native(),
            final(self).failed() == old(self).failed(),
            old(self).wf() ==> final(self).wf(),
    {
        let placement = if self.inner.is_window_hwnd {
            None
        } else {
            let (x, y) = match position {
                Some(p) => p,
                None => (0, 0),
            };
            let (width, height) = match size {
                Some(wh) => wh,
                None => (0, 0),
            };
            Some(
                HostPlacement {
                    hwnd: self.inner.hwnd,
                    x,
                    y,
                    width,
                    height,
                    move_window: position.is_some(),
                    resize_window: size.is_some(),
                },
            )
        };
        let bounds = match size {
            Some(wh) => self.inner.update_bounds_from_rect(
                Rect { x: 0, y: 0, width: wh.0, height: wh.1 },
            ),
            None => match self.inner.update_bounds(window_rect) {
                Ok(e) => e,
                Err(err) => {
                    return Err(err);
                },
            },
        };
        Ok(ResizeEffect { placement, bounds })
    }

    /// Decides what a navigation request does: a silent, effect-free
    /// success while the native control is absent — whatever the URL — and
    /// a request to parse the URL and navigate once it exists. Parsing and
    /// the navigation call belong to the embedding layer, which surfaces
    /// their failures as runtime errors.
    pub fn navigate(&self, url: &str) -> (e: NavigateEffect)
        ensures
            self.native() is None ==> e == NavigateEffect::Deferred,
            self.native() matches Some(c) ==> e matches NavigateEffect::Request {
                control,
                url: u,
            } && control == c && u@ == url@,
    {
        match self.inner.control {
            Some(c) => NavigateEffect::Request { control: c, url: String::from_str(url) },
            None => NavigateEffect::Deferred,
        }
    }

    /// The host window handle, valid and stable from the moment the
    /// factory returned this control, whatever the creation status.
    pub fn get_hwnd(&self) -> (h: usize)
        ensures
            h == self.host(),
            self.wf() ==> h != 0,
    {
        self.inner.hwnd
    }

    /// The native control reference, or `None` while creation has not
    /// completed successfully. Callers wanting engine-specific operations
    /// go through this and must handle the absence.
    pub fn get_inner(&self) -> (c: Option<u64>)
        ensures
            c == self.native(),
    {
        self.inner.control
    }

    /// How far asynchronous creation has come.
    pub fn creation_status(&self) -> (s: CreationStatus)
        ensures
            self.ready() ==> s == CreationStatus::Ready,
            !self.ready() && self.failed() ==> s == CreationStatus::Failed,
            self.pending() ==> s == CreationStatus::Pending,
    {
        if self.inner.control.is_some() {
            CreationStatus::Ready
        } else if self.inner.creation_failed {
            CreationStatus::Failed
        } else {
            CreationStatus::Pending
        }
    }

    /// The pending bounds update, if any: the rectangle that will be
    /// flushed when creation completes.
    pub fn queued_bounds_update(&self) -> (q: Option<Rect>)
        ensures
            q == self.queued(),
    {
        self.inner.queued_bounds_update
    }

    /// The host window to destroy at teardown: the host handle when this
    /// control owns its window (`ConsumeHwnd`, `NewHwndInWindow`), nothing
    /// when it merely fills a borrowed one.
    pub fn owned_host(&self) -> (h: Option<usize>)
        ensures
            self.owns_host() ==> h == Some(self.host()),
            !self.owns_host() ==> h is None,
    {
        if self.inner.owns_hwnd {
            Some(self.inner.hwnd)
        } else {
            None
        }
    }
}

/// The host window a creation call ends up with: the supplied handle for
/// `FillWindow` and `ConsumeHwnd`, the freshly created child window for
/// `NewHwndInWindow` (zero standing for a creation that failed and never
/// produced a control).
pub open spec fn host_for(hwnd_type: HwndType, created_host: Result<usize, i32>) -> usize {
    match hwnd_type {
        HwndType::FillWindow(h) => h,
        HwndType::ConsumeHwnd(h) => h,
        HwndType::NewHwndInWindow(_) => match created_host {
            Ok(h) => h,
            Err(_) => 0,
        },
    }
}

/// The OS-level process that hosts every native control, and the factory
/// for controls. One process is created for the application's lifetime and
/// shared by all controls; its unexpected exit is observed, never
/// recovered from.
pub struct Process {
    exited: bool,
}

impl Process {
    /// Whether the hosting process was observed to exit unexpectedly.
    pub closed spec fn exited(self) -> bool {
        self.exited
    }

    /// A fresh hosting process. The embedding layer starts the OS-level
    /// process alongside and reports its unexpected exit through
    /// [`Process::note_process_exited`].
    pub fn new() -> (p: Process)
        ensures
            !p.exited(),
    {
        Process { exited: false }
    }

    /// Records that the hosting process exited unexpectedly. Observation
    /// only: no recovery is attempted, and the surrounding application
    /// decides what to do.
    pub fn note_process_exited(&mut self)
        ensures
            final(self).exited(),
    {
        self.exited = true;
    }

    /// Whether the hosting process was observed to exit.
    pub fn has_exited(&self) -> (b: bool)
        ensures
            b == self.exited(),
    {
        self.exited
    }

    /// Builds a control per the host-window policy and returns it together
    /// with the asynchronous creation request the embedding layer must
    /// submit; the control's native reference is not populated yet.
    /// `position` and `size` are in physical pixels. `created_host` is the
    /// platform's answer to creating the new child window, consulted only
    /// under `NewHwndInWindow`: its `Err` code — window creation failed —
    /// is surfaced as a host-OS error, and no half-built control escapes.
    /// The embedding layer keeps the caller's readiness callback and
    /// invokes it when, and only when, [`Control::control_created`]
    /// returns a `Ready` effect.
    pub fn create_control(
        &self,
        hwnd_type: HwndType,
        position: (i32, i32),
        size: (i32, i32),
        created_host: Result<usize, i32>,
    ) -> (r: Result<(Control, CreateRequest), Error>)
        requires
            hwnd_type.given_handle() != 0,
            created_host matches Ok(h) ==> h != 0,
        ensures
            r is Err <==> hwnd_type is NewHwndInWindow && created_host is Err,
            hwnd_type is NewHwndInWindow ==> (created_host matches Err(code) ==> r == Err::<
                (Control, CreateRequest),
                Error,
            >(Error::Io(code))),
            r matches Ok((control, request)) ==> {
                &&& control.host() == host_for(hwnd_type, created_host)
                &&& control.host() != 0
                &&& control.is_window_host() == (hwnd_type is FillWindow)
                &&& control.owns_host() == !(hwnd_type is FillWindow)
                &&& control.pending()
                &&& control.queued() is None
                &&& control.wf()
                &&& request == (CreateRequest {
                    hwnd: control.host(),
                    bounds: Rect {
                        x: position.0,
                        y: position.1,
                        width: size.0,
                        height: size.1,
                    },
                })
            },
    {
        let (hwnd, is_window_hwnd, owns_hwnd): (usize, bool, bool) = match hwnd_type {
            HwndType::FillWindow(h) => (h, true, false),
            HwndType::ConsumeHwnd(h) => (h, false, true),
            HwndType::NewHwndInWindow(_) => match created_host {
                Ok(h) => (h, false, true),
                Err(code) => {
                    return Err(Error::Io(code));
                },
            },
        };
        let control = Control {
            inner: ControlInner {
                hwnd,
                is_window_hwnd,
                owns_hwnd,
                control: None,
                queued_bounds_update: None,
                creation_failed: false,
            },
        };
        let request = CreateRequest {
            hwnd,
            bounds: Rect { x: position.0, y: position.1, width: size.0, height: size.1 },
        };
        Ok((control, request))
    }
}

/// A navigable view, whatever engine backs it. The error type is the
/// backend's own; deciding a navigation request never fails in this
/// backend, so its implementation always succeeds.
pub trait WebView {
    type Error;

    fn navigate(&self, url: &str) -> Result<NavigateEffect, Self::Error>;
}

impl WebView for Control {
    type Error = Error;

    fn navigate(&self, url: &str) -> Result<NavigateEffect, Error> {
        Ok(self.navigate(url))
    }
}

/// The state after a whole sequence of bounds updates, applied in order.
pub closed spec fn bounds_updates_state(s: ControlInner, rects: Seq<Rect>) -> ControlInner
    decreases rects.len(),
{
    if rects.len() == 0 {
        s
    } else {
        bounds_update_state(bounds_updates_state(s, rects.drop_last()), rects.last())
    }
}

/// Law: while the native control reference is absent, any sequence of
/// bounds updates coalesces into a single pending update holding the last
/// rectangle — earlier ones are overwritten, none is applied — and the
/// host window, the policy flags and the failure record are untouched.
pub proof fn lemma_deferred_updates_coalesce(s: ControlInner, rects: Seq<Rect>)
    requires
        s.native() is None,
        rects.len() > 0,
    ensures
        bounds_updates_state(s, rects).queued() == Some(rects.last()),
        bounds_updates_state(s, rects).native() is None,
        bounds_updates_state(s, rects).host() == s.host(),
        bounds_updates_state(s, rects).is_window_host() == s.is_window_host(),
        bounds_updates_state(s, rects).owns_host() == s.owns_host(),
        bounds_updates_state(s, rects).failed() == s.failed(),
    decreases rects.len(),
{
    if rects.len() == 1 {
        assert(bounds_updates_state(s, rects.drop_last()) == s);
    } else {
        lemma_deferred_updates_coalesce(s, rects.drop_last());
    }
}

/// Law: when creation completes successfully after a sequence of deferred
/// bounds updates, exactly the last update is flushed — handed back once,
/// in the completion effect — and nothing stays queued, so it can never be
/// applied a second time.
pub proof fn lemma_completion_flushes_last_update(s: ControlInner, rects: Seq<Rect>, control: u64)
    requires
        s.pending(),
        rects.len() > 0,
    ensures
        ({
            let deferred = bounds_updates_state(s, rects);
            &&& completion_effect(deferred, Some(control)) == (CompletionEffect::Ready {
                control,
                flush: Some(rects.last()),
            })
            &&& completion_state(deferred, Some(control)).native() == Some(control)
            &&& completion_state(deferred, Some(control)).queued() is None
        }),
{
    lemma_deferred_updates_coalesce(s, rects);
}

/// Law: once the native control exists, a bounds update is applied to it
/// immediately and, for any well-formed state, no queue entry remains —
/// the state does not change at all.
pub proof fn lemma_ready_updates_apply_immediately(s: ControlInner, rect: Rect, control: u64)
    requires
        s.wf(),
        s.native() == Some(control),
    ensures
        bounds_update_effect(s, rect) == (BoundsEffect::Apply { control, bounds: rect }),
        bounds_update_state(s, rect) == s,
        bounds_update_state(s, rect).queued() is None,
{
}

/// Law: no lifecycle transition moves the control to another host window,
/// so the handle the factory returned stays valid for the control's whole
/// life, whatever the creation status.
pub proof fn lemma_host_handle_stable(s: ControlInner, rect: Rect, outcome: Option<u64>)
    ensures
        bounds_update_state(s, rect).host() == s.host(),
        completion_state(s, outcome).host() == s.host(),
{
}

/// Law: when the host window is the application's top-level window
/// (`FillWindow`), a resize never asks for the window itself to be moved
/// or resized — only the native control's bounds change. Otherwise, an
/// explicit size asks for the host window and the native control to take
/// matching extents.
pub proof fn lemma_resize_host_placement(
    s: ControlInner,
    position: Option<(i32, i32)>,
    size: Option<(i32, i32)>,
)
    ensures
        s.is_window_host() ==> placement_request(s, position, size) is None,
        !s.is_window_host() ==> (placement_request(s, position, size) matches Some(p) && p.hwnd
            == s.host() && p.move_window == (position is Some) && p.resize_window == (
        size is Some)),
        !s.is_window_host() ==> (size matches Some(wh) ==> placement_request(
            s,
            position,
            size,
        ) matches Some(p) && p.width == wh.0 && p.height == wh.1 && explicit_bounds(wh) == (Rect {
            x: 0,
            y: 0,
            width: wh.0,
            height: wh.1,
        })),
{
}

/// Law: well-formedness is an invariant of the lifecycle. Every bounds
/// update preserves it, and so does a completion delivered to a control
/// that was still pending — which, the factory establishing it and
/// [`Control::control_created`] demanding a pending control, is the only
/// completion there can be.
pub proof fn lemma_transitions_preserve_wf(s: ControlInner, rect: Rect, outcome: Option<u64>)
    requires
        s.wf(),
    ensures
        bounds_update_state(s, rect).wf(),
        s.pending() ==> completion_state(s, outcome).wf(),
{
}

/// Law: a failed creation is terminal. However many bounds updates follow,
/// the native reference stays absent and the failure record stands; with
/// the reference absent, every navigation request stays a silent deferral.
/// The readiness callback is asked for only by a `Ready` completion
/// effect, which a failed operation never produces.
pub proof fn lemma_failed_creation_is_terminal(s: ControlInner, rects: Seq<Rect>)
    requires
        s.failed(),
        s.native() is None,
    ensures
        bounds_updates_state(s, rects).native() is None,
        bounds_updates_state(s, rects).failed(),
        completion_effect(s, None) == CompletionEffect::Failed,
    decreases rects.len(),
{
    if rects.len() > 0 {
        lemma_failed_creation_is_terminal(s, rects.drop_last());
    }
}

} // verus!
