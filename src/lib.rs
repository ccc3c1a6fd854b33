//! Position eligibility, candidate filtering, the draft state machine and
//! roster-slot assignment for a live fantasy-basketball draft.
pub mod positions;
pub mod text;
pub mod player;
pub mod filter;
pub mod draft;
pub mod slots;
