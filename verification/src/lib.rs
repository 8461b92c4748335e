//! A printer for documentation trees.
//!
//! A tree of nodes says what is known of the declarations of a program:
//! names, signatures, descriptions, places in the source. The printer turns
//! a list of such nodes into a report for a reader at a terminal, with or
//! without colour, and with or without the private members of classes.
//!
//! `node` holds the tree and its views, `order` the order in which siblings
//! are shown, `layout` what the report says as a function of the views,
//! `printer` the printer itself, `writer`, `style` and `text` what it writes
//! with, and `monochrome` the proof that colour only adds escape sequences.

pub mod layout;
pub mod monochrome;
pub mod node;
pub mod order;
pub mod printer;
pub mod style;
pub mod text;
pub mod writer;
