//! Scoreboard logic for a self-hosted sports broadcasting overlay: team
//! scores, downs, quarters, game and countdown clocks, popups, sponsor
//! rotation, login decisions, update checks, and the HTML fragments that the
//! dashboard and overlay display.
pub mod clock;
pub mod control;
pub mod display;
pub mod hex;
pub mod ids;
pub mod login;
pub mod overlay;
pub mod popups;
pub mod scoring;
pub mod sponsors;
pub mod state;
pub mod teaminfo;
pub mod text;
pub mod time;
pub mod trusted;
pub mod version;
