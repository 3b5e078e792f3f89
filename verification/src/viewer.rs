//! The viewer state and its reactions to the window event stream: each
//! event maps to a new state plus the outward calls the surrounding event
//! loop must make (reapply the surface configuration, render a frame,
//! request another redraw, or exit).

use vstd::prelude::*;

use crate::camera::Camera;
use crate::surface::SurfaceConfig;

verus! {

/// The window events the viewer reacts to. Pointer motion arrives on the
/// device path instead and goes straight to `Camera::apply_pointer_delta`.
#[derive(Clone, Copy, PartialEq, Eq, Structural, Debug)]
pub enum ViewerEvent {
    CloseRequested,
    RedrawRequested,
    Resized(u32, u32),
}

/// The outward calls one event asks the surrounding loop to make.
#[derive(Clone, Copy, PartialEq, Eq, Structural, Debug)]
pub struct EventResponse {
    /// Stop dispatching events and leave the loop.
    pub exit: bool,
    /// Run one frame of the renderer.
    pub render_frame: bool,
    /// Reapply the stored surface configuration to the surface.
    pub reapply_surface: bool,
    /// Schedule another redraw (the continuous render loop).
    pub request_redraw: bool,
}

/// The state the event loop mutates: the camera and the stored surface
/// configuration. The GPU handles themselves stay outside the library.
#[derive(Clone, Copy, PartialEq, Eq, Structural, Debug)]
pub struct Viewer {
    pub camera: Camera,
    pub config: SurfaceConfig,
}

impl Viewer {
    /// The state after one event: a resize updates the camera's aspect
    /// ratio and the surface configuration (both skip zero-area sizes);
    /// nothing else mutates state.
    pub open spec fn spec_step(self, event: ViewerEvent) -> Viewer {
        match event {
            ViewerEvent::Resized(width, height) => Viewer {
                camera: self.camera.spec_resized(width, height),
                config: self.config.spec_reconfigured(width, height),
            },
            _ => self,
        }
    }

    /// The outward calls for one event: close exits; redraw renders and
    /// re-requests itself; a resize reapplies the surface configuration
    /// (when it changed) and requests the redraw that shows the new size.
    pub open spec fn spec_response(self, event: ViewerEvent) -> EventResponse {
        match event {
            ViewerEvent::CloseRequested => EventResponse {
                exit: true,
                render_frame: false,
                reapply_surface: false,
                request_redraw: false,
            },
            ViewerEvent::RedrawRequested => EventResponse {
                exit: false,
                render_frame: true,
                reapply_surface: false,
                request_redraw: true,
            },
            ViewerEvent::Resized(width, height) => EventResponse {
                exit: false,
                render_frame: false,
                reapply_surface: width > 0 && height > 0,
                request_redraw: true,
            },
        }
    }

    /// Create the startup state: the default camera and the given initial
    /// drawable extent.
    pub fn new(width: u32, height: u32) -> (v: Viewer)
        ensures
            v.camera == Camera::spec_default(),
            v.config == (SurfaceConfig { width, height }),
    {
        Viewer { camera: Camera::default(), config: SurfaceConfig { width, height } }
    }

    /// React to one window event: mutate the state as `spec_step` says and
    /// hand back the outward calls of `spec_response`.
    pub fn handle_window_event(&mut self, event: ViewerEvent) -> (r: EventResponse)
        ensures
            *final(self) == old(self).spec_step(event),
            r == old(self).spec_response(event),
    {
        match event {
            ViewerEvent::CloseRequested => EventResponse {
                exit: true,
                render_frame: false,
                reapply_surface: false,
                request_redraw: false,
            },
            ViewerEvent::RedrawRequested => EventResponse {
                exit: false,
                render_frame: true,
                reapply_surface: false,
                request_redraw: true,
            },
            ViewerEvent::Resized(width, height) => {
                let reapply = self.config.reconfigure(width, height);
                self.camera.apply_resize(width, height);
                EventResponse {
                    exit: false,
                    render_frame: false,
                    reapply_surface: reapply,
                    request_redraw: true,
                }
            },
        }
    }
}

/// A resize followed immediately by a redraw presents at the new size: the
/// resize stores exactly the event's extent, the redraw renders a frame and
/// leaves the stored configuration untouched, so the acquire that the redraw
/// performs sees the resize's width and height.
pub proof fn lemma_resize_then_redraw(v: Viewer, width: u32, height: u32)
    requires
        width > 0,
        height > 0,
    ensures
        v.spec_step(ViewerEvent::Resized(width, height)).config == (SurfaceConfig {
            width,
            height,
        }),
        v.spec_response(ViewerEvent::Resized(width, height)).request_redraw,
        v.spec_step(ViewerEvent::Resized(width, height)).spec_step(
            ViewerEvent::RedrawRequested,
        ) == v.spec_step(ViewerEvent::Resized(width, height)),
        v.spec_step(ViewerEvent::Resized(width, height)).spec_response(
            ViewerEvent::RedrawRequested,
        ).render_frame,
{
}

/// A zero-area resize is a complete no-op on the state: neither the camera's
/// aspect ratio nor the stored surface configuration moves (and, the library
/// being panic-free, no arithmetic fault is possible).
pub proof fn lemma_zero_area_resize_is_noop(v: Viewer, width: u32, height: u32)
    requires
        width == 0 || height == 0,
    ensures
        v.spec_step(ViewerEvent::Resized(width, height)) == v,
{
}

} // verus!
