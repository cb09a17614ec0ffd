//! A user signup/listing backend core: a layered request pipeline of
//! route dispatch, validated input extraction, service orchestration and
//! repository persistence, unified under one error taxonomy that maps
//! domain failures to HTTP status codes and JSON bodies.

pub mod config;
pub mod errors;
pub mod json;
pub mod model;
pub mod controller;
pub mod repository;
pub mod router;
pub mod services;
pub mod validation;
