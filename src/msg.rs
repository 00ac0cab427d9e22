//! Reading the text of a reply.
use crate::error::Error;
use vstd::prelude::*;

verus! {

/// One content part of a message.
#[derive(Debug)]
pub enum MessageContent {
    Text(String),
    /// An image stored as a file, by its file id.
    ImageFile(String),
    /// An image given by its address.
    ImageUrl(String),
    /// The assistant's refusal to answer, in words.
    Refusal(String),
}

/// What a message reads as: the text of its first content part, where that
/// part is text or a refusal in words; an image cannot be read.
pub open spec fn text_of(content: Seq<MessageContent>) -> Result<String, Error> {
    if content.len() == 0 {
        Err(Error::NoMessageInMessageObjectContent)
    } else {
        match content[0] {
            MessageContent::Text(t) => Ok(t),
            MessageContent::Refusal(t) => Ok(t),
            _ => Err(Error::MessageImageNotSupported),
        }
    }
}

/// What the newest message of a listing (most recent first) reads as.
pub open spec fn newest_text_of(messages: Seq<Vec<MessageContent>>) -> Result<String, Error> {
    if messages.len() == 0 {
        Err(Error::NoMessageFoundInMessages)
    } else {
        text_of(messages[0]@)
    }
}

/// The text of a message: its first content part, which must be text.
pub fn get_text_content(content: Vec<MessageContent>) -> (r: Result<String, Error>)
    ensures
        r == text_of(content@),
{
    let mut content = content;
    if content.len() == 0 {
        return Err(Error::NoMessageInMessageObjectContent);
    }
    let first = content.swap_remove(0);
    match first {
        MessageContent::Text(t) => Ok(t),
        MessageContent::Refusal(t) => Ok(t),
        _ => Err(Error::MessageImageNotSupported),
    }
}

/// The text of the newest message of a listing, most recent first.
pub fn get_first_thread_msg_content(messages: Vec<Vec<MessageContent>>) -> (r: Result<String, Error>)
    ensures
        r == newest_text_of(messages@),
{
    let mut messages = messages;
    if messages.len() == 0 {
        return Err(Error::NoMessageFoundInMessages);
    }
    let newest = messages.swap_remove(0);
    get_text_content(newest)
}

} // verus!
