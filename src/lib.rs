//! Lazy element-wise arithmetic over fixed-length integer sequences.
//!
//! Leaf containers ([`Vector`]) are combined through [`AlgebraTrait`] into
//! trees of [`AddExpr`] and [`SubExpr`] nodes; nothing is computed until
//! [`Expr::to_vec`] walks the tree once per index.
use vstd::prelude::*;

pub mod expr;
pub mod laws;
pub mod vector;

pub use expr::{AddExpr, AlgebraTrait, Expr, SubExpr};
pub use vector::{tvec, Vector};
