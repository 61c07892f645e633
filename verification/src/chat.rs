//! Chat message validation.
//!
//! Vanilla rejects chat messages that are too long or that contain
//! characters which cannot be typed in the chat box.

use vstd::prelude::*;

verus! {

/// Maximum number of bytes in a single chat message (vanilla
/// `SharedConstants.MAX_CHAT_LENGTH`).
pub const MAX_CHAT_LENGTH: usize = 256;

/// A character may appear in chat unless it is the section sign, DEL, or a
/// control character below the space other than tab and line feed.
pub open spec fn spec_allowed_chat_character(ch: char) -> bool {
    &&& ch != '\u{00A7}'
    &&& ch != '\u{007F}'
    &&& (ch >= ' ' || ch == '\t' || ch == '\n')
}

/// Returns `true` if `ch` is allowed in a chat message.
///
/// Rejects the section sign (U+00A7), DEL (U+007F) and every control
/// character below U+0020 except horizontal tab and line feed.
pub fn is_allowed_chat_character(ch: char) -> (r: bool)
    ensures
        r == spec_allowed_chat_character(ch),
{
    if ch == '\u{00A7}' || ch == '\u{007F}' {
        return false;
    }
    ch >= ' ' || ch == '\t' || ch == '\n'
}

/// A message is illegal when one of its characters is not allowed.
pub open spec fn spec_chat_message_illegal(message: Seq<char>) -> bool {
    exists|i: int| 0 <= i < message.len() && !spec_allowed_chat_character(#[trigger] message[i])
}

/// Returns `true` if `message` contains any character that is not allowed
/// in chat (see [`is_allowed_chat_character`]).
pub fn is_chat_message_illegal(message: &str) -> (r: bool)
    ensures
        r == spec_chat_message_illegal(message@),
{
    let mut found = false;
    for ch in it: message.chars()
        invariant
            it.seq() == message@,
            found == exists|i: int| 0 <= i < it.index() && !spec_allowed_chat_character(#[trigger] message@[i]),
    {
        if !is_allowed_chat_character(ch) {
            found = true;
        }
    }
    found
}

/// What a chat message leads to before it is rate limited and broadcast.
#[derive(Clone, Copy, Debug, PartialEq, Eq, Structural)]
pub enum ChatCheck {
    /// An empty message: silently ignored.
    Empty,
    /// Longer than [`MAX_CHAT_LENGTH`] bytes: the sender is disconnected.
    TooLong,
    /// Holds a character that is not allowed: the sender is disconnected.
    IllegalCharacters,
    /// Passes on to the rate limiter and the broadcast.
    Accepted,
}

/// The checks a chat message goes through, in order: empty messages are
/// ignored, then the byte length and then the characters are checked.
pub fn check_chat_message(message: &str) -> (r: ChatCheck)
    ensures
        r == (if message@.len() == 0 {
            ChatCheck::Empty
        } else if message.len() > MAX_CHAT_LENGTH {
            ChatCheck::TooLong
        } else if spec_chat_message_illegal(message@) {
            ChatCheck::IllegalCharacters
        } else {
            ChatCheck::Accepted
        }),
        message@.len() > 0 && message.len() <= MAX_CHAT_LENGTH && (forall|i: int|
            0 <= i < message@.len() ==> {
                let c = #[trigger] message@[i];
                (c >= ' ' && c != '\u{007F}' && c != '\u{00A7}') || c == '\t' || c == '\n'
            }) ==> r == ChatCheck::Accepted,
{
    proof {
        lemma_chat_message_legality(message@);
    }
    if message.is_empty() {
        return ChatCheck::Empty;
    }
    if message.len() > MAX_CHAT_LENGTH {
        return ChatCheck::TooLong;
    }
    if is_chat_message_illegal(message) {
        return ChatCheck::IllegalCharacters;
    }
    ChatCheck::Accepted
}

impl ChatCheck {
    /// The disconnect reason sent to the client, for the outcomes that
    /// disconnect it.
    pub fn disconnect_reason(&self) -> (r: Option<&'static str>)
        ensures
            r matches Some(s) ==> (*self == ChatCheck::TooLong && s@ == "chat_validation_failed"@) || (
            *self == ChatCheck::IllegalCharacters && s@ == "multiplayer.disconnect.illegal_characters"@),
            r is None <==> (*self == ChatCheck::Empty || *self == ChatCheck::Accepted),
    {
        match self {
            ChatCheck::TooLong => Some("chat_validation_failed"),
            ChatCheck::IllegalCharacters => Some("multiplayer.disconnect.illegal_characters"),
            _ => None,
        }
    }
}

/// The disconnect reason for a player who chats faster than the rate
/// limiter allows.
pub const SPAM_DISCONNECT_REASON: &'static str = "disconnect.spam";

/// Which characters chat accepts, stated directly: every character from
/// the space upwards (characters beyond U+FFFF, such as emoji, included)
/// except DEL (U+007F) and the section sign (U+00A7), plus tab and line
/// feed; every other control character below the space is refused.
pub proof fn lemma_allowed_chat_characters(ch: char)
    ensures
        ch >= ' ' && ch != '\u{007F}' && ch != '\u{00A7}' ==> spec_allowed_chat_character(ch),
        ch == '\t' || ch == '\n' ==> spec_allowed_chat_character(ch),
        ch == '\u{007F}' || ch == '\u{00A7}' ==> !spec_allowed_chat_character(ch),
        ch < ' ' && ch != '\t' && ch != '\n' ==> !spec_allowed_chat_character(ch),
{
}

/// A message made only of characters from the space upwards other than DEL
/// and the section sign (tab and line feed allowed too) holds nothing
/// illegal; one holding DEL, the section sign or another control character
/// is illegal.
pub proof fn lemma_chat_message_legality(message: Seq<char>)
    ensures
        (forall|i: int|
            0 <= i < message.len() ==> {
                let c = #[trigger] message[i];
                (c >= ' ' && c != '\u{007F}' && c != '\u{00A7}') || c == '\t' || c == '\n'
            }) ==> !spec_chat_message_illegal(message),
        (exists|i: int|
            0 <= i < message.len() && {
                let c = #[trigger] message[i];
                c == '\u{007F}' || c == '\u{00A7}' || (c < ' ' && c != '\t' && c != '\n')
            }) ==> spec_chat_message_illegal(message),
{
}
} // verus!
