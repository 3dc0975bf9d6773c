//! Users as they are written in a message: by number or by mention.

use vstd::prelude::*;
use vstd::string::*;
use vstd::utf8::is_ascii_chars;
use crate::number::{all_digits, decimal, is_all_digits, parse_u64, parsed_u64, u64_to_string};

verus! {

/// The user that a mention names, as serenity's `Mention::from_str` reads it;
/// `None` where the text is no mention of a user.
pub uninterp spec fn mentioned_user(text: Seq<char>) -> Option<u64>;

/// Calls serenity's `Mention::from_str` and keeps the user of a user mention.
/// The text must be ASCII: serenity cuts the text one byte before its end.
#[verifier::external_body]
pub(crate) fn parse_mention(text: &str) -> (r: Option<u64>)
    requires
        is_ascii_chars(text@),
    ensures
        r == mentioned_user(text@),
{
    match <serenity::model::mention::Mention as std::str::FromStr>::from_str(text) {
        Ok(serenity::model::mention::Mention::User(id)) => Some(id.get()),
        _ => None,
    }
}

/// The user that a text names. A run of digits names the user of that number,
/// unless the number is zero or does not fit; any other ASCII text names the
/// user it mentions, if it is a mention; a text with other characters names
/// nobody.
pub open spec fn named_user(text: Seq<char>) -> Option<u64> {
    if all_digits(text) {
        match parsed_u64(text) {
            Some(id) => if id == 0 {
                None
            } else {
                Some(id)
            },
            None => None,
        }
    } else if is_ascii_chars(text) {
        mentioned_user(text)
    } else {
        None
    }
}

/// The mention of a user, as it is written in a message.
pub open spec fn mention_text(user: u64) -> Seq<char> {
    "<@"@ + decimal(user as nat) + ">"@
}

/// Reads a user from a number or a mention.
pub fn try_get_user(text: &str) -> (r: Option<u64>)
    ensures
        r == named_user(text@),
{
    if is_all_digits(text) {
        match parse_u64(text) {
            Some(id) => if id == 0 {
                None
            } else {
                Some(id)
            },
            None => None,
        }
    } else if text.is_ascii() {
        parse_mention(text)
    } else {
        None
    }
}

/// Writes the mention of a user.
pub fn mention(user: u64) -> (r: String)
    ensures
        r@ == mention_text(user),
{
    let mut out = "<@".to_owned();
    out.append(u64_to_string(user).as_str());
    out.append(">");
    out
}

} // verus!
