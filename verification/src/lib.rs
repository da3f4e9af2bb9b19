//! Fibonacci numbers with a verified overflow boundary, together with the
//! text formatting that the library's callers present to their users.

pub mod decimal;
pub mod fib;
pub mod text;
