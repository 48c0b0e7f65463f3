pub mod auth;
pub mod credentials;
pub mod gate;
pub mod markup;
pub mod naming;
pub mod reaper;
pub mod renderer;
pub mod sessions;
pub mod text;
