//! A small markup dialect for user interfaces: from markup text to a tree of
//! typed nodes, and from that tree to a description of the view to build.
//!
//! The [`parser`] reads a [`markup`] document into the [`node`] tree. The
//! [`expr`] resolver tells literal text from embedded expressions, and
//! [`resolve`] settles that once for every value of a tree. Two emitters
//! turn a resolved node into a frame: the strict one of [`view`], for
//! construction logic that is written down ahead of use, and the one of
//! [`preview`], which never fails. [`derive`] and [`app`] hold what the two
//! hosts of the emitters decide: the derive, and the live preview.
use vstd::prelude::*;

pub mod app;
pub mod derive;
pub mod expr;
pub mod markup;
pub mod node;
pub mod number;
pub mod parser;
pub mod plain;
pub mod preview;
pub mod resolve;
pub mod text;
pub mod view;
