//! Rich text for a game-protocol server: a recursive, styleable text tree,
//! its structural (key/value) form, its binary record form and its
//! decorated console form.

pub mod binary;
pub mod click;
pub mod color;
pub mod console;
pub mod hover;
pub mod structural;
pub mod style;
pub mod text;
pub mod value;
