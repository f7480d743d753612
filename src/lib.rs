//! A command-line client library for Philips Hue bridges: settings
//! resolution, command planning, light-command building, the registration
//! retry loop and the rendering of light state.

pub mod command;
pub mod discovery;
pub mod register;
pub mod render;
pub mod settings;
pub mod text;
