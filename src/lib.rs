//! A relay that checks signed CI workflow-run webhooks, decides whether a
//! failure deserves a chat notification, and plans the responses.

pub mod signature;
pub mod event;
pub mod relay;
