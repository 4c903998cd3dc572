//! Picks one live stream at random from a listing and prepares what a window
//! needs to show it.
//!
//! The library performs no input or output. It states which requests are to be
//! sent, decides what each reply means, and keeps the state that is displayed.
pub mod cycle;
pub mod error;
pub mod request;
pub mod select;
pub mod state;
pub mod stream;
pub mod text;
pub mod thumbnail;
