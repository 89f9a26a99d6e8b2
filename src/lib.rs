//! Core of a small real-time engine: exact vector and quaternion arithmetic,
//! the input manager that turns device events into named actions, the camera
//! controller's input stage, and the frame-lifecycle state machine that drives
//! swapchain recreation and per-frame submission.
pub mod camera_controller;
pub mod frame;
pub mod gpu_setup;
pub mod input;
pub mod quaternion;
pub mod table;
pub mod vector;
