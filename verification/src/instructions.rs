pub mod add_option;
pub mod cast_vote;
pub mod initialize_poll;
