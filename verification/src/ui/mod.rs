pub mod layout;
pub mod widgets;
