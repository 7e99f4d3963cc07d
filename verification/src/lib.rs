//! Codec for jdcp, a small binary request/response protocol that carries
//! attributes of tabletop characters over a byte stream.
//!
//! [`decode_jdcp`] reads one message from the front of a buffer and hands back
//! what follows it; [`message::Message::encode_jdcp`] writes a message out.
//! Every parser tells three outcomes apart: success, a buffer that is too
//! short to decide, and bytes that can never become a message.

use vstd::prelude::*;
use crate::error::DecodeError;
use crate::message::character_name::{parse_character_name, spec_character_name};
use crate::message::data::{parse_data, spec_data};
use crate::message::message_type::{message_type, spec_message_type};
use crate::message::{Message, MessageView};

pub mod character;
pub mod error;
pub mod message;
pub mod stream;
pub mod theorems;

verus! {

/// The message at the front of `input` and the bytes behind it. The tag and
/// message type are read first, then the name, then the data that the message
/// type calls for; the first field that fails decides the error.
pub open spec fn spec_decode(input: Seq<u8>) -> Result<(Seq<u8>, MessageView), DecodeError> {
    match spec_message_type(input) {
        Err(error) => Err(error),
        Ok((after_type, message_type)) => match spec_character_name(after_type) {
            Err(error) => Err(error),
            Ok((after_name, character_name)) => match spec_data(after_name, message_type) {
                Err(error) => Err(error),
                Ok((rest, data)) => Ok(
                    (
                        rest,
                        MessageView {
                            message_type,
                            character_name,
                            info_type: data.info_type,
                            data_size: data.data_size,
                            data: data.data,
                        },
                    ),
                ),
            },
        },
    }
}

/// A decoder's result with the slice replaced by the bytes it holds and the
/// message by its value.
pub open spec fn decoded(r: Result<(&[u8], Message), DecodeError>) -> Result<
    (Seq<u8>, MessageView),
    DecodeError,
> {
    match r {
        Ok((rest, message)) => Ok((rest@, message@)),
        Err(error) => Err(error),
    }
}

/// Reads one message from the front of `input` and returns it with the bytes
/// that follow it. A buffer that ends too early is incomplete; bytes that no
/// message has are invalid.
pub fn decode_jdcp(input: &[u8]) -> (r: Result<(&[u8], Message), DecodeError>)
    ensures
        decoded(r) == spec_decode(input@),
{
    let (input, message_type) = match message_type(input) {
        Ok(read) => read,
        Err(error) => {
            return Err(error);
        },
    };
    let (input, character_name) = match parse_character_name(input) {
        Ok(read) => read,
        Err(error) => {
            return Err(error);
        },
    };
    match parse_data(input, &message_type) {
        Ok((input, message_data)) => Ok(
            (
                input,
                Message {
                    message_type,
                    character_name,
                    info_type: message_data.info_type,
                    data_size: message_data.data_size,
                    data: message_data.data,
                },
            ),
        ),
        Err(error) => Err(error),
    }
}

} // verus!
