pub mod common;
pub mod decimal;
pub mod logging;
pub mod login;
pub mod lookup;
pub mod media;
pub mod navigation;
pub mod order;
pub mod packet;
pub mod percentage;
pub mod user;
