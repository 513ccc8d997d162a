//! The redemption and payout engine of an on-chain auction manager: it
//! converts the winning bids of a sealed, completed auction over a multi-item
//! vault into asset transfers and creator royalty payouts. No prize is
//! delivered twice, no box is emptied before it was validated, and the
//! manager's lifecycle status only ever moves forward — each guarantee
//! enforced by per-call, existence-checked ticket records rather than any
//! lock or coordinator, and each stated and proved in the operations'
//! contracts and in the `laws` module.


pub mod config;
pub mod encode;
pub mod external;
pub mod instruction;
pub mod laws;
pub mod manager;
pub mod payout;
pub mod redemption;
pub mod state;
pub mod validation;
