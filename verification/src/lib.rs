//! The game's domain model: aggregates that take commands, hold their
//! invariants and record the events that each accepted command gives rise to.
pub mod ai_profile;
pub mod battle_pass;
pub mod boss_definition;
pub mod card_definition;
pub mod card_pack;
pub mod card_token;
pub mod content_validator;
pub mod emission_pool;
pub mod expansion_set;
pub mod marketplace_listing;
pub mod match_replay;
pub mod matchmaking_ticket;
pub mod mission_attempt;
pub mod order;
pub mod outfit;
pub mod player_collection;
pub mod ranked_standing;
pub mod shared;
pub mod string_set;
pub mod text;
