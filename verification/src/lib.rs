//! Backend logic of a desktop media downloader: turning a search provider's
//! catalog into menu items, and planning where a downloaded item is written.

pub mod catalog;
pub mod encoding;
pub mod fetch;
pub mod paths;
pub mod resolver;
pub mod search;
