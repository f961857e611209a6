//! Cargonauts: the behaviour of a type C planet of the common space game.
//!
//! The planet recharges its single energy cell on a sunray, builds a rocket out of a
//! charged cell to deflect an asteroid, and serves explorers: it tells them what it can
//! generate and combine, generates Carbon, combines resources into complex ones, and
//! reports its charged cells. Each handler spends at most the one charge it needs.
//!
//! - `kinds`: the resource kinds and planet types, as plain values.
//! - `model`: the model of a planet's state and what sunrays and asteroids do to it.
//! - `outside`: the items of `common_game` the handlers use, with their contracts.
//! - `messages`: the explorers' requests, the planet's answers, and what each must be.
//! - `handlers`: the handlers themselves.
//! - `laws`: what holds of the handlers over every state.
//! - `report`: the plain-text descriptions of a state that the planet logs.
//! - `blueprint`: the type and recipes a Cargonauts planet is created with.
pub mod kinds;
pub mod model;
pub mod outside;
pub mod messages;
pub mod handlers;
pub mod laws;
pub mod report;
pub mod blueprint;
