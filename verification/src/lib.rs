//! The verified core of a multi-panel file commander that finds and clears duplicates.

pub mod whole;

pub mod actions;
pub mod answers;
pub mod app;
pub mod assoc;
pub mod batch;
pub mod board;
pub mod board_screen;
pub mod browser;
pub mod canvas;
pub mod commander;
pub mod commander_screen;
pub mod compare;
pub mod confirm;
pub mod dedup;
pub mod entries;
pub mod inert;
pub mod jump;
pub mod keys;
pub mod laws;
pub mod layout;
pub mod marks;
pub mod menu;
pub mod model;
pub mod moments;
pub mod move_batch;
pub mod moves;
pub mod navigate;
pub mod order;
pub mod overlay;
pub mod panel;
pub mod panels;
pub mod path;
pub mod progress;
pub mod reclaim;
pub mod review;
pub mod scan_diff;
pub mod scans;
pub mod sessions;
pub mod setup;
pub mod shell;
pub mod sizes;
pub mod snapshots;
pub mod state;
pub mod summary;
pub mod text;
pub mod triage;
pub mod units;
pub mod watch;
pub mod wizard;
