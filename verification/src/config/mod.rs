pub mod language;
pub mod tls;
