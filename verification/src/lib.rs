pub mod reply;
pub mod html;
pub mod subscriber;
pub mod newsletter;
pub mod password;
