pub mod text;
pub mod span;
pub mod event;
pub mod corpus;
pub mod calendar;
pub mod dispatch;
pub mod laws;
