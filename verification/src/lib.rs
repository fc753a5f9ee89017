//! The CSS `animation` properties: parsing of the longhands and of the
//! shorthand, their serialization, and a handler that merges animation
//! declarations of a rule into the shortest equivalent list.

pub mod number;
pub mod prefix;
pub mod text;
pub mod token;
pub mod printer;
pub mod value;
pub mod time;
pub mod easing;
pub mod keywords;
pub mod animation;
pub mod property;
pub mod handler;
pub mod list;
