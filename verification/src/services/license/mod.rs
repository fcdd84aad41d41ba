pub mod publish_service;
pub mod service;

pub use crate::types::license::UserLicense;
pub use publish_service::LicensePublishService;
pub use service::LicenseService;
