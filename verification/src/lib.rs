use vstd::prelude::*;

pub mod activities;
pub mod bootstrap;
pub mod chat;
pub mod client;
pub mod command;
pub mod control;
pub mod emblem;
pub mod gens;
pub mod http;
pub mod packets;
pub mod panels;
pub mod request;
pub mod router;
pub mod screens;
pub mod session;
pub mod shells;
pub mod siege;
pub mod text;
pub mod ui;

verus! {
}
