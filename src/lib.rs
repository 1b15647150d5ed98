//! Announcement lists for a chat bot: two categories of announcement text,
//! positional add and remove, listing, random picks, a JSON form for
//! persistence, the replies to moderator commands, and the decisions of the
//! daily announcement loop.

pub mod category;
pub mod text;
pub mod codec;
pub mod announcements;
pub mod schedule;
pub mod replies;
