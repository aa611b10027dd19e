//! A small model of playing cards: suits, suited ranked cards, their
//! colors, and plain-text rendering, all with verified contracts.

pub mod card;
pub mod decimal;
