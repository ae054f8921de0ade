//! A registry of named communication channels: identifier generation,
//! channel creation, and participant bookkeeping on a single channel record.

pub mod channel;
pub mod channel_id;

pub use channel::{
    create_channel, get_channel_info, join_channel, leave_channel, Channel, ChannelError,
    ChannelInfo,
};
pub use channel_id::generate_channel_id;
