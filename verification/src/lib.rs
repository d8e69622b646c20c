//! The logic of a chat bot that turns text into speech through the ElevenLabs
//! service: which request to send, how to read the answer, which speed a voice
//! speaks at, how a streamed body becomes one buffer, and what each command
//! replies. The functions here are verified, but for one question put to
//! chrono; talking to the network, to the chat platform and to the process
//! environment is left to the caller.

pub mod text;
pub mod types;
pub mod commands;
pub mod elevenlabs;
pub mod streamutil;
