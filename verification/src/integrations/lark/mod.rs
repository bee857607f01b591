pub mod error;
pub mod identity;
pub mod types;
pub mod events;
pub mod subscriber;
pub mod paging;
pub mod listing;
pub mod member_listing;
pub mod documents;
pub mod document_search;
pub mod cli;
pub mod messages;
pub mod chats;
pub mod config;
