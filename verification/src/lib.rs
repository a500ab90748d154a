//! Decision logic of an underwater-hockey referee box: beep-test schedules,
//! display layouts, portal submission health, and the game clock.

pub mod sim_frame;
pub mod portal_manager;
pub mod portal_queue;
pub mod utc_time;
pub mod portal_health;
pub mod sound;
pub mod settings;
pub mod link_session;
pub mod capture;
pub mod decimal_text;
pub mod sim_launch;
pub mod spi_plan;
pub mod tournament_manager;
pub mod penalty_editor;
pub mod sound_queue;
