//! Three ways of turning an ordered list of strings into one block of
//! paragraph markup, each wrapping every item as `<p>item</p>` followed by a
//! newline, plus a generator of random alphanumeric items to feed them.

pub mod combine;
pub mod markup;
pub mod random;
pub mod reduction;

pub use combine::{combine_via_collect, combine_via_fold, combine_via_rayon};
pub use markup::tag;
pub use random::random_string;
