//! A small static-analysis rule over an expression tree: find divisions of
//! the form `<duration>.<accessor>() / <constant>` that recompute a value a
//! more direct accessor already provides, and propose the direct call as a
//! machine-applicable rewrite.
//!
//! The host front end (parsing, type inference, span bookkeeping, diagnostic
//! rendering) is out of scope; the tree in [`ast`] records, as plain values,
//! everything this rule reads from it. The pipeline is
//! match ([`matcher`]) → constant-fold ([`consteval`]) → table lookup
//! ([`table`]) → emit ([`suggest`]), short-circuiting to "no diagnostic" at
//! the first failed step; [`check`] ties the steps together and states the
//! rule's laws. [`duration`] gives the duration accessors their numeric
//! meaning and proves every rewrite in the table value-preserving.

pub mod ast;
pub mod check;
pub mod consteval;
pub mod duration;
pub mod matcher;
pub mod suggest;
pub mod table;
