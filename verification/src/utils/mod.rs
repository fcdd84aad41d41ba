pub mod auto_publish_ui;
pub mod editor_core;
pub mod embed;
pub mod license_editor;
pub mod user_friendly_errors;

pub use auto_publish_ui::AutoPublishUI;
pub use editor_core::{EditorCore, LicenseEditState};
pub use embed::LicenseEmbedBuilder;
pub use license_editor::present_license_editing_panel;
pub use user_friendly_errors::UserFriendlyErrorMapper;
