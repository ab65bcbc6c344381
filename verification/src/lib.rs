//! Borders drawn around the windows of a Windows desktop.
pub mod anim_timer;
pub mod behavior;
pub mod border_manager;
pub mod call;
pub mod conduct;
pub mod deeds;
pub mod dispatch;
pub mod drawing;
pub mod failures;
pub mod geometry;
pub mod headroom;
pub mod laws;
pub mod messages;
pub mod particulars;
pub mod placement;
pub mod protocol;
pub mod render_backend;
pub mod resume;
pub mod title;
pub mod window_border;
