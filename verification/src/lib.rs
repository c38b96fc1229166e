//! The command logic of a Discord music bot: song records kept in a guild's
//! favourites folder, the embeds that list a queue or the favourites page by
//! page, the paging buttons, and the replies of each command.

pub mod general;
pub mod text;
pub mod lines;
pub mod embed;
pub mod track;
pub mod songdata;
pub mod listing;
pub mod pager;
pub mod voice;
pub mod guildfiles;
pub mod misc;
pub mod images;

pub use general::{Command, General};
