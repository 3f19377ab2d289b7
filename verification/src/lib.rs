//! The logic of a terminal client for a sandboxing engine: what every key does to the
//! state of the client, what it asks of the engine, and what is shown for each state.

pub mod text;
pub mod json;
pub mod style;
pub mod shell;
pub mod launch;
pub mod fmt;
pub mod num;
pub mod tree;
pub mod rules;
pub mod types;
pub mod app;
pub mod outside;
pub mod areas;
pub mod lists;
pub mod windows;
pub mod answers;
pub mod rows;
pub mod diff;
pub mod boxes;
pub mod verbs;
pub mod render;
pub mod vars;
pub mod filters;
pub mod loads;
pub mod nav;
pub mod moves;
pub mod keys;
pub mod terms;
pub mod images;
pub mod jobs;
pub mod events;
pub mod menus;
pub mod modals;
pub mod control;
pub mod plan;
pub mod boxpane;
pub mod changepane;
pub mod procpane;
pub mod outpane;
pub mod callpane;
pub mod pipepane;
pub mod rulepane;
pub mod canvas;
pub mod modalview;
pub mod bars;
pub mod screen;
pub mod start;
pub mod laws;
