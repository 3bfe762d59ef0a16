//! Signature-helper daemon core: player extraction, player state,
//! job decisions and the framed wire protocol.

pub mod consts;
pub mod jobs;
pub mod opcode;
pub mod player;
pub mod text;
