pub mod gateway;
pub mod license;
pub mod notification_service;
pub mod published_posts;
pub mod system_license;
pub mod user_settings;
