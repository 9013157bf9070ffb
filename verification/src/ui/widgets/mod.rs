pub mod input_dialog;
pub mod message_view;
pub mod status_bar;
pub mod tabs;
