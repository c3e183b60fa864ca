//! Routing a request to the part of the helper that serves it.

use vstd::prelude::*;

use crate::text::{same_text, starts_with};

verus! {

/// Where a request goes.
#[derive(Clone, Copy, Debug, PartialEq, Eq)]
pub enum Route {
    /// Answer with an empty 200, then end the helper without waiting for
    /// the answer to be delivered.
    Shutdown,
    /// Hand the request to the worker that answers process queries, which
    /// serves them one by one in the order in which they came.
    ProcessRunning,
    /// Stop a process that the helper started.
    StopProcess,
    /// Serve an image file.
    Image,
    /// Serve a DDS texture as an image.
    DdsImage,
    /// Start an executable.
    Run,
    /// No route: answer with an empty 400.
    Unmatched,
}

/// The routing table. Its rows are tried from top to bottom and the first
/// that matches wins.
pub open spec fn route_of(method: Seq<char>, url: Seq<char>) -> Route {
    if method == "GET"@ {
        if url == "/shutdown"@ {
            Route::Shutdown
        } else if "/process_running"@.is_prefix_of(url) {
            Route::ProcessRunning
        } else if "/stop_process"@.is_prefix_of(url) {
            Route::StopProcess
        } else if "/image"@.is_prefix_of(url) {
            Route::Image
        } else if "/dds_image"@.is_prefix_of(url) {
            Route::DdsImage
        } else {
            Route::Unmatched
        }
    } else if method == "POST"@ {
        if "/run"@.is_prefix_of(url) {
            Route::Run
        } else {
            Route::Unmatched
        }
    } else {
        Route::Unmatched
    }
}

/// Routes a request by its method and URL.
pub fn route(method: &str, url: &str) -> (route: Route)
    ensures
        route == route_of(method@, url@),
{
    if same_text(method, "GET") {
        if same_text(url, "/shutdown") {
            Route::Shutdown
        } else if starts_with(url, "/process_running") {
            Route::ProcessRunning
        } else if starts_with(url, "/stop_process") {
            Route::StopProcess
        } else if starts_with(url, "/image") {
            Route::Image
        } else if starts_with(url, "/dds_image") {
            Route::DdsImage
        } else {
            Route::Unmatched
        }
    } else if same_text(method, "POST") {
        if starts_with(url, "/run") {
            Route::Run
        } else {
            Route::Unmatched
        }
    } else {
        Route::Unmatched
    }
}

} // verus!
