//! Primitives for recursive-descent parsers over a stream of lexical tokens.
//!
//! A [`Token`] carries a kind (its id), a [`Location`] and an optional literal
//! value; two tokens are equal when their ids are. A [`TokenBuffer`] hands
//! tokens out one by one, and a [`Matcher`] tests the next token of a buffer
//! against the kind it expects, answering with a [`MatchResult`].

pub mod buffer;
pub mod laws;
pub mod location;
pub mod match_result;
pub mod matcher;
pub mod token;

pub use buffer::TokenBuffer;
pub use buffer::TokenQueue;
pub use location::Location;
pub use match_result::MatchResult;
pub use matcher::expect_data_token;
pub use matcher::expect_token;
pub use matcher::judge_data_token;
pub use matcher::judge_token;
pub use matcher::Matcher;
pub use token::Token;
