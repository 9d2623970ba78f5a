pub mod country;
pub mod get_query;
pub mod league;
pub mod league_member;
pub mod sparql_types;
pub mod state;
pub mod war;
