//! Game logic of the shell-command maze: the command catalogue and its seed,
//! the maze layout dealt for each round, and the score kept across answers.

pub mod catalog;
pub mod maze;
pub mod scoring;
