//! The content format of MIMI messages: the content envelope with its tree of nested parts,
//! their positional CBOR form, and the identifier that is derived from an encoded message.
//!
//! Every value has a view, the mathematical value that a specification sees, and every
//! type that is written to CBOR says in a specification which tree of CBOR data items it is
//! written as and which trees it is read from. The functions that build and read those trees
//! are verified against these specifications, and so is the fact that reading inverts
//! writing.
//!
//! The bytes of a tree are the work of `ciborium`, the digests that of `sha2` and `hmac`, and
//! the extensions are kept in an `indexmap::IndexMap`. What this library believes of them is
//! stated where it calls them: in `cbor`, `extensions`, `message_id`, `content` and
//! `content::builder`.

// The modules stand in the order in which they build on each other.
pub mod cbor;
pub mod error;
pub mod reading;
pub mod traits;
pub mod common;
pub mod dispositions;
pub mod nested_part;
pub mod extensions;
pub mod message_id;
pub mod content;
pub mod delivery_report;
pub mod derived;
pub mod reexports;

pub use common::{Bstr, BstrRef, Tstr, TstrRef};
pub use content::builder::MimiContentBuilder;
pub use content::{
    Expiration, FrankingTag, MimiContent, MimiContentRef, MimiContentSalt,
    MimiContentStandardExtension, RoomUriExtension, SenderUriExtension,
    MIMI_CONTENT_MESSAGE_STATUS_MIME, MIMI_CONTENT_MIME,
};
pub use derived::Timestamp;
pub use dispositions::{BaseDispos, Disposition};
pub use error::MimiContentError;
pub use extensions::{ExtensionValue, Name, NameRef, ValueRef};
pub use message_id::{MessageId, MessageIdRef};
pub use nested_part::builder::NestedPartBuilder;
pub use nested_part::{
    ExternalPart, ExternalPartRef, MultiPart, MultiPartRef, NestedPart, NestedPartContent,
    NestedPartContentCardinality, NestedPartContentRef, NestedPartRef, PartSemantics, SinglePart,
    SinglePartRef,
};
pub use traits::{MimiContentAsRef, MimiContentDeserialize, MimiContentSerialize};
