pub mod config_text;
pub mod init;
