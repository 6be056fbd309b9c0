//! Verified building blocks for a small family of text utilities: a
//! screen-at-a-time pager together with the line numbering, argument
//! validation and output assembly that its sibling tools share.
//!
//! Everything in this crate is pure: callers read files, query the terminal
//! and poll the keyboard, and hand the results to these functions as plain
//! values.

pub mod catr;
pub mod decimal;
pub mod echor;
pub mod headr;
pub mod lessr;
pub mod lines;
pub mod pager;
pub mod paging;
pub mod source;
