//! Two singly-linked lists: an exclusively owned stack (`second`) and a
//! persistent list with shared tails (`third`).

pub mod second;
pub mod third;
