pub mod clock;
pub mod data_format;
pub mod text;
