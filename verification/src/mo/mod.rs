//! Reading and writing mobile-originated (MO) SBD messages.

mod header;
mod information_element;
mod location;
mod message;
mod session_status;

pub use self::message::lemma_message_round_trip;
pub use self::message::lemma_new_of_message_ies;
pub use self::message::lemma_parse_ies_of_encode;
pub use self::message::lemma_parse_one_ie_undersized;
pub use self::message::lemma_read_rejects_bad_revision;
pub use self::message::lemma_read_undersized;
pub use self::message::spec_clip_len;
pub use self::message::spec_encode_ies;
pub use self::message::spec_encode_message;
pub use self::message::spec_ies_len;
pub use self::message::spec_message_ies;
pub use self::message::spec_message_write_result;
pub use self::message::spec_new_message;
pub use self::message::spec_overall_len;
pub use self::message::spec_parse_ies;
pub use self::message::spec_read_message;
pub use self::message::spec_views;
pub use self::message::Message;
pub use self::message::MessageV;
pub use self::message::ProtocolRevisionNumber;
pub use self::message::PROTOCOL_REVISION_NUMBER;

pub use self::header::Header;
pub use self::header::HeaderV;
pub use self::information_element::lemma_parse_one_ie_of_encode;
pub use self::information_element::lemma_parse_one_ie_wf;
pub use self::information_element::spec_encode_ie;
pub use self::information_element::spec_header_content;
pub use self::information_element::spec_ie_len;
pub use self::information_element::spec_ie_write_err;
pub use self::information_element::spec_parse_ie_content;
pub use self::information_element::spec_parse_one_ie;
pub use self::information_element::InformationElement;
pub use self::information_element::InformationElementV;
pub use self::location::spec_parse_location;
pub use self::location::MoLocation;
pub use self::location::MoLocationError;
pub use self::session_status::lemma_status_code_roundtrip;
pub use self::session_status::spec_status_code;
pub use self::session_status::spec_status_of_code;
pub use self::session_status::SessionStatus;
