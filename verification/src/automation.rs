//! Vocabulary types of the automation shell around the engine.
//!
//! The engine's consumers drive a thin shell of collaborators: screen
//! capture, mouse and keyboard simulation, permission checks, configuration
//! lookup and failure notification. These are the plain data types of those
//! interfaces; the I/O that interprets them lives outside the verified
//! library.

use vstd::prelude::*;

verus! {

/// Mouse button selector for click, press and release commands.
#[derive(Debug, Clone, Copy, PartialEq, Eq, Structural)]
pub enum MouseButton {
    Left,
    Right,
    Middle,
}

/// Scroll direction selector for scroll commands.
#[derive(Debug, Clone, Copy, PartialEq, Eq, Structural)]
pub enum ScrollDirection {
    Up,
    Down,
    Left,
    Right,
}

/// Description of one attached monitor.
#[derive(Debug, Clone)]
pub struct MonitorInfo {
    pub id: u32,
    pub name: String,
    pub x: i32,
    pub y: i32,
    pub width: u32,
    pub height: u32,
    pub is_primary: bool,
}

/// Status of the two OS permissions the automation layer needs.
#[derive(Debug, Clone, Copy, PartialEq, Eq, Structural)]
pub struct PermissionStatus {
    pub screen_recording: bool,
    pub accessibility: bool,
}

/// Backend connection settings handed to the consumer on request.
#[derive(Debug)]
pub struct SupabaseConfig {
    pub url: String,
    pub anon_key: String,
}

/// The scenario a failure notification speaks about.
#[derive(Debug)]
pub struct ScenarioInfo {
    pub id: String,
    pub title: String,
}

/// The failure detail of a notification: what went wrong and how far the
/// scenario had come.
#[derive(Debug)]
pub struct ErrorInfo {
    pub message: String,
    pub failed_at_action: Option<String>,
    pub last_successful_action: Option<String>,
    pub completed_actions: i32,
}

/// A failure notification delivered to an external listener.
#[derive(Debug)]
pub struct WebhookPayload {
    pub event: String,
    pub timestamp: String,
    pub scenario: ScenarioInfo,
    pub error: ErrorInfo,
}

} // verus!
