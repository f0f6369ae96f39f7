//! An image viewer's core: the registry of images, the view transform, and
//! the decisions that turn toolkit and clipboard events into state changes.

pub mod button;
pub mod cmdline;
pub mod format;
pub mod images;
pub mod ivapp;
pub mod logger;
pub mod view;
