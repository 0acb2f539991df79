//! An embeddable web-view control, modelled around the Windows EdgeHTML
//! `WebViewControl` interop surface.
//!
//! The heart of the crate is the control lifecycle manager in [`edge`]: the
//! hosting process, the host-window ownership policy, and a control whose
//! backing native object is created asynchronously. Every decision the
//! manager makes — which window hosts the control, when a bounds update is
//! applied and when it is deferred, when navigation is attempted, what a
//! completion callback must do — is a verified function from the control's
//! state and the platform's answers to a new state and an explicit action.
//! The platform calls themselves (window creation and placement, the native
//! runtime's asynchronous control factory) are left to the embedding layer,
//! which performs each returned action and feeds the outcome back in.

use vstd::prelude::*;

pub mod edge;
pub mod error;

pub use error::Error;

verus! {

/// The engine that backs a control.
///
/// Only the EdgeHTML lifecycle manager is implemented here; the other
/// variants name engines an embedding may route to instead.
#[derive(Clone, Copy, PartialEq, Eq, Debug)]
pub enum Backend {
    EdgeHTML,
    MSHTML,
    GtkWebkit2,
    Cocoa,
}

/// A control handle tagged with the backend that produced it.
pub enum WebViewControl {
    EdgeHTML(edge::Control),
}

impl WebViewControl {
    /// Which backend this control belongs to.
    pub fn backend(&self) -> (b: Backend)
        ensures
            b == Backend::EdgeHTML,
    {
        match self {
            WebViewControl::EdgeHTML(_) => Backend::EdgeHTML,
        }
    }
}

} // verus!
