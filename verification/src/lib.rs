//! Classification of the operating system an application shell runs on:
//! is it one of the touch-first mobile systems, so that a front-end can
//! adapt its layout?

pub mod identifier;

pub use identifier::{is_mobile_platform, ANDROID, IOS};
