//! Verified core of a Grand Exchange investment tracker for RuneScape 3 and
//! Old School RuneScape: the data model of investments, schedules and
//! settings, the profit/loss arithmetic, schedule and alert evaluation, price
//! response parsing and the text formatting the user interface shows.
pub mod text;
pub mod widgets;
pub mod clock;
pub mod investment;
pub mod calculations;
pub mod schedule;
pub mod refresh;
pub mod scheduler;
pub mod errors;
pub mod json;
pub mod prices;
pub mod known_items;
pub mod settings;
pub mod telegram;
pub mod icon;
pub mod forms;
pub mod app_flow;
