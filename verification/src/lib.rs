//! Client-side logic of a forum and "bucket questions" web application,
//! together with a small entity store used by a boids simulation.

pub mod ecs;
pub mod boids;
pub mod fetch;
pub mod loadable;
pub mod input;
pub mod ids;
pub mod text;
pub mod datatypes;
pub mod requests;
pub mod bucket;
pub mod bucket_model;
pub mod forum;
pub mod jwt;
pub mod auth;
pub mod login;
pub mod sending;
pub mod context;
pub mod routes;
