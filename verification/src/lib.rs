//! A clipboard history keeper: it watches the clipboard, records new text,
//! file references and images, and restores recorded items on request.
pub mod text;
pub mod types;
pub mod digest;
pub mod imaging;
pub mod history;
pub mod formatters;
pub mod registry;
pub mod extractors;
pub mod gui;
pub mod dispatch;
