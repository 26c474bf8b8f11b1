//! Small verified exercises: a postfix-expression evaluator, a blog post that
//! moves through review, a command-line configuration, a number-guessing
//! judge, and a few plain data types.

pub mod closures;
pub mod guess;
pub mod minigrep;
pub mod phone_book;
pub mod post;
pub mod postfix;
pub mod rectangle;
