//! The message and its wire form.

use vstd::prelude::*;
use vstd::utf8::encode_utf8;
use crate::character::character_data::CharacterData;
use crate::message::character_name::{is_letter, lemma_ascii_text, lemma_name_bytes};
use crate::stream::is_alpha;
use crate::message::message_type::{spec_tag_bytes, tag_bytes};
use crate::stream::{le_u16_bytes, write_le_u16};

pub mod character_name;
pub mod data;
pub mod message_type;

pub use crate::message::character_name::parse_character_name;
pub use crate::message::data::info_type::{parse_info_type, InfoType};
pub use crate::message::data::{
    parse_age_response, parse_class_response, parse_data, parse_hp_response,
    parse_level_response, parse_race_response, parse_request, parse_response,
    parse_stats_response, DataType, MessageData, RequestData,
};
pub use crate::message::message_type::{message_type, parse_message_type, parse_tag, MessageType};

verus! {

/// One message of the protocol. The name is borrowed, from the buffer that
/// the message was read from or from the caller who builds one.
#[derive(Debug, PartialEq)]
pub struct Message<'a> {
    pub message_type: MessageType,
    pub character_name: &'a str,
    pub info_type: InfoType,
    pub data_size: u16,
    pub data: Option<CharacterData>,
}

/// A message as a mathematical value: the name is its sequence of characters.
pub struct MessageView {
    pub message_type: MessageType,
    pub character_name: Seq<char>,
    pub info_type: InfoType,
    pub data_size: u16,
    pub data: Option<CharacterData>,
}

impl<'a> View for Message<'a> {
    type V = MessageView;

    open spec fn view(&self) -> MessageView {
        MessageView {
            message_type: self.message_type,
            character_name: self.character_name@,
            info_type: self.info_type,
            data_size: self.data_size,
            data: self.data,
        }
    }
}

/// The wire bytes of a payload; no payload has none.
pub open spec fn spec_payload_bytes(data: Option<CharacterData>) -> Seq<u8> {
    match data {
        Some(data) => data.wire_bytes(),
        None => Seq::empty(),
    }
}

/// The bytes that come before the data of a message: the tag, the message
/// type, the name in UTF-8 and a zero byte.
pub open spec fn spec_header(message_type: MessageType, name: Seq<char>) -> Seq<u8> {
    spec_tag_bytes() + seq![message_type.spec_discriminant()] + encode_utf8(name) + seq![0u8]
}

/// The bytes of a message behind its header: the info type, the payload size
/// with the low byte first, and the payload.
pub open spec fn spec_data_bytes(m: MessageView) -> Seq<u8> {
    seq![m.info_type.spec_discriminant()] + le_u16_bytes(m.data_size) + spec_payload_bytes(m.data)
}

/// The wire form of a message: its header, then its data.
pub open spec fn spec_encode(m: MessageView) -> Seq<u8> {
    spec_header(m.message_type, m.character_name) + spec_data_bytes(m)
}

/// A name of ASCII letters, with at least one of them.
pub open spec fn name_of_letters(name: Seq<char>) -> bool {
    &&& name.len() > 0
    &&& forall|k: int| 0 <= k < name.len() ==> is_letter(#[trigger] name[k])
}

/// The messages that the protocol allows. The name is a non-empty run of
/// ASCII letters. A request has no payload and size zero. A response has the
/// payload of its info type, and its size is the number of bytes of that
/// payload.
pub open spec fn well_formed(m: MessageView) -> bool {
    &&& name_of_letters(m.character_name)
    &&& match m.message_type {
        MessageType::REQUEST => m.data is None && m.data_size == 0,
        MessageType::RESPONSE => {
            &&& m.data matches Some(data)
            &&& data.spec_info_type() == m.info_type
            &&& m.data_size == m.info_type.spec_payload_size()
        },
    }
}

impl Message<'_> {
    /// Tells whether the message is one that the protocol allows.
    pub fn is_well_formed(&self) -> (b: bool)
        ensures
            b == well_formed(self@),
    {
        let name = self.character_name.as_bytes();
        proof {
            if name_of_letters(self.character_name@) {
                lemma_name_bytes(self.character_name@);
            }
        }
        if name.len() == 0 {
            return false;
        }
        let mut k: usize = 0;
        while k < name.len()
            invariant
                k <= name@.len(),
                forall|j: int| 0 <= j < k ==> is_alpha(#[trigger] name@[j]),
                name@ == encode_utf8(self.character_name@),
            decreases name@.len() - k,
        {
            let byte = name[k];
            if !((0x41 <= byte && byte <= 0x5A) || (0x61 <= byte && byte <= 0x7A)) {
                proof {
                    if name_of_letters(self.character_name@) {
                        lemma_name_bytes(self.character_name@);
                    }
                }
                return false;
            }
            k += 1;
        }
        proof {
            lemma_ascii_text(name@);
        }
        match self.message_type {
            MessageType::REQUEST => self.data.is_none() && self.data_size == 0,
            MessageType::RESPONSE => match &self.data {
                Some(data) => data.info_type() == self.info_type && self.data_size
                    == self.info_type.payload_size(),
                None => false,
            },
        }
    }

    /// Writes the message in its wire form. Every field is written as it
    /// stands, whether or not the message is well formed.
    pub fn encode_jdcp(self: &Self) -> (bytes: Vec<u8>)
        ensures
            bytes@ == spec_encode(self@),
    {
        let mut out: Vec<u8> = Vec::new();
        let literal = tag_bytes();
        out.extend_from_slice(literal.as_slice());
        out.push(self.message_type.discriminant());
        out.extend_from_slice(self.character_name.as_bytes());
        out.push(0);
        out.push(self.info_type.discriminant());
        write_le_u16(&mut out, self.data_size);
        match &self.data {
            Some(data) => data.encode(&mut out),
            None => {},
        }
        out
    }
}

} // verus!
