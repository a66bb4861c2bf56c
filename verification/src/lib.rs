//! A turn-based conversation among autonomous agents, each backed by a
//! language-generation service: who speaks next, and what each participant
//! gets to perceive.
//!
//! A round asks every eligible agent how eager it is to speak, picks the most
//! eager one, asks it to speak, and tells everybody what was said. The agent
//! that spoke sits out the next round.
//!
//! The library decides and records; it never talks to the service itself.
//! [`conversation::Conversation`] hands out the requests to send and takes in
//! what came back, one step of a round at a time. What each step does is
//! stated in [`round`], and what holds of every round in [`laws`].
//!
//! - [`model`]: agents, their logs, and who spoke last.
//! - [`openai`], [`json`]: the shapes exchanged with the service.
//! - [`agent_act`], [`thinking`], [`chat`]: the requests put to the service.
//! - [`order`], [`solicitor`]: whom a round asks, and what comes of the
//!   answers.
//! - [`signal`]: the signals of a round and the choice of the speaker.
//! - [`broadcaster`]: what everybody perceives once somebody has spoken.

pub mod agent_act;
pub mod broadcaster;
pub mod chat;
pub mod conversation;
pub mod json;
pub mod laws;
pub mod model;
pub mod openai;
pub mod order;
pub mod round;
pub mod signal;
pub mod solicitor;
pub mod thinking;
