//! The limits that Discord's API sets on the parts of a webhook message.
use vstd::prelude::*;

verus! {

/// Most action rows in one message.
pub const ACTION_ROW_COUNT_MAX: usize = 5;
/// Longest label of a button, in bytes.
pub const LABEL_LEN_MAX: usize = 80;
/// Shortest custom ID of a button, in bytes.
pub const CUSTOM_ID_LEN_MIN: usize = 1;
/// Longest custom ID of a button, in bytes.
pub const CUSTOM_ID_LEN_MAX: usize = 100;
/// Most characters of text over the titles, descriptions, field names and values,
/// footer texts and author names of all the embeds of one message.
pub const EMBED_TOTAL_TEXT_LEN_MAX: usize = 6000;
/// Longest embed title, in bytes.
pub const TITLE_LEN_MAX: usize = 256;
/// Longest embed description, in bytes.
pub const DESCRIPTION_LEN_MAX: usize = 4096;
/// Most fields in one embed.
pub const FIELDS_LEN_MAX: usize = 25;
/// Longest embed field name, in bytes.
pub const FIELD_NAME_LEN_MAX: usize = 256;
/// Longest embed field value, in bytes.
pub const FIELD_VALUE_LEN_MAX: usize = 1024;
/// Longest embed footer text, in bytes.
pub const FOOTER_TEXT_LEN_MAX: usize = 2048;
/// Longest embed author name, in bytes.
pub const AUTHOR_NAME_LEN_MAX: usize = 256;
/// Most buttons that count against one action row.
pub const BUTTON_COUNT_MAX: usize = 5;

} // verus!
