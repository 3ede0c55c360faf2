//! View logic of the GitComet desktop client: popover placement rules, sidebar
//! file-browser visibility, history and markdown-preview row decisions, diff
//! panel helpers and the interstitial screens, each stated over plain values.

mod text;
pub mod ordering;
pub mod popover;
pub mod theme;
pub mod splash;
pub mod history;
pub mod datetime;
pub mod diff_view;
pub mod sidebar;
