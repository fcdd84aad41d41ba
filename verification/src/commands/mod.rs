pub mod license;
