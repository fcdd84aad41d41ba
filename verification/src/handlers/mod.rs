pub mod auto_publish;
pub mod auto_publish_flow;
pub mod cookie;
pub mod modal;

pub use auto_publish::handle_thread_create;
pub use modal::parse_modal_custom_id;
