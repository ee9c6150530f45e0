//! Small building blocks, each with a contract and the proof that it keeps it.
//!
//! At the centre stand two of them:
//!
//! - [`search`]: the lines of a text that contain a query, with or without regard to
//!   case, built on [`lines`] and [`substring`];
//! - [`cacher`]: a wrapper that computes a function once and keeps its first result.
//!
//! Around them stand smaller pieces: a blog post that goes through review
//! ([`blog`]), a tracker that warns as a value nears its limit ([`limit_tracker`]), a
//! number guessing game ([`guessing_game`]) with the reading and writing of numbers
//! ([`numbers`]), summaries ([`summary`]), a screen of components ([`screen`]), framed
//! text ([`outline`]), and plain value types with their arithmetic.

pub mod blog;
pub mod cacher;
pub mod coins;
pub mod colors;
pub mod config;
pub mod counter;
pub mod cut;
pub mod functions;
pub mod guess;
pub mod guessing_game;
pub mod hello_macro;
pub mod largest;
pub mod limit_tracker;
pub mod lines;
pub mod my_box;
pub mod numbers;
pub mod outline;
pub mod ownership;
pub mod plane;
pub mod point;
pub mod restaurant;
pub mod screen;
pub mod search;
pub mod shapes;
pub mod substring;
pub mod summary;
pub mod user;
pub mod utf8_facts;
pub mod words;
