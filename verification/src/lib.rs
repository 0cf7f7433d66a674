//! Request-collection logic of a terminal REST client: the editor and
//! navigation state machine, URL assembly, header and query rules, and the
//! text that the screen shows.

pub mod text;
pub mod methods;
pub mod url;
pub mod model;
pub mod json;
pub mod params;
pub mod headers;
pub mod state;
pub mod app;
pub mod editor;
pub mod events;
pub mod keys;
pub mod laws;
pub mod view;
