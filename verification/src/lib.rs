//! Core logic of the lyrfin terminal music player.

pub mod text;
pub mod unicode;
pub mod arabic;
pub mod destination;
pub mod types;
pub mod timeshift;
pub mod spotify;
pub mod artistinfo;
pub mod artwork;
pub mod appearance;
pub mod atomicfile;
pub mod http_source;
pub mod engine;
pub mod tags;
pub mod nav;
pub mod playback;
pub mod lyrics;
pub mod session;
pub mod state;
pub mod stretch;
