pub mod info;
pub mod info_preflight;
pub mod media_type;
