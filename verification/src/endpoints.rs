pub mod account;
pub mod admin;
pub mod comment;
pub mod community;
pub mod emoji;
pub mod oauth;
pub mod person;
pub mod post;
pub mod private_message;
pub mod report;
pub mod site;
pub mod tag;
