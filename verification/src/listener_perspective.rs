//! How a listener takes what is said to them: whether the speaker's
//! emotional charge keeps or flips its sign, and how strongly it lands.
//! A pattern prefilter settles clear cases; prototype sets feed the
//! similarity classifiers.

pub mod types;
pub mod prototype;
pub mod prefilter;
pub mod magnitude_coef;
pub mod choice;
