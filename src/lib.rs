//! Playlist shuffling core: the identifier model, the playlist cache and the
//! paging state machines that drive retrieval from the remote service.
pub mod cache;
pub mod fetch;
pub mod ids;
pub mod playlist;
