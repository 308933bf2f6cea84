use vstd::prelude::*;

pub mod api;
pub mod broker;
pub mod calendar;
pub mod clock;
pub mod config;
pub mod data_reader;
pub mod db_manager;
pub mod error;
pub mod koreainvestapi;
pub mod laws;
pub mod replies;
pub mod model;
pub mod text;
pub mod types;
pub mod universe;

verus! {

} // verus!
