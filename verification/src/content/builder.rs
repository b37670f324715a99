//! The guarded way to build a content envelope: the topic and the root part have to be given
//! before there is anything to build, and the salt is given as it is or taken from a random
//! number generator.

use crate::cbor::{cbor_text, CborModel};
use crate::common::Bstr;
use crate::content::{
    optional_id_view, Expiration, MimiContent, MimiContentSalt, MimiContentStandardExtension,
    MimiContentView, RoomUriExtension, SenderUriExtension,
};
use crate::extensions::{
    extension_entries, extensions_insert, extensions_new, insert_entry, Entries, ExtensionValue,
    Name, NameView,
};
use crate::message_id::MessageId;
use crate::nested_part::NestedPart;
use indexmap::IndexMap;
use vstd::prelude::*;

verus! {

/// `rand_core::RngCore::fill_bytes` on 16 zero bytes: a salt from a random number generator.
/// Nothing is known of what it holds.
#[verifier::external_body]
fn random_salt<R: rand_core::CryptoRngCore + ?Sized>(salt_csprng: &mut R) -> (salt:
    MimiContentSalt) {
    let mut salt = [0u8; 16];
    salt_csprng.fill_bytes(&mut salt);
    salt
}

/// What a builder was given so far, as a specification sees it. The topic and the root part
/// are `()` until they are given.
pub struct Given<TopicId, Part> {
    pub extensions: Entries,
    pub salt: Seq<u8>,
    pub topic_id: TopicId,
    pub expires: Option<Expiration>,
    pub nested_part: Part,
    pub replaces: Option<Seq<u8>>,
    pub in_reply_to: Option<Seq<u8>>,
}

/// A content in the making. The topic and the root part have to be given, each once, before
/// the content can be built; the rest is optional.
pub struct MimiContentBuilder<TopicId, Part> {
    extensions: IndexMap<Name, ExtensionValue>,
    salt: MimiContentSalt,
    topic_id: TopicId,
    expires: Option<Expiration>,
    nested_part: Part,
    replaces: Option<MessageId>,
    in_reply_to: Option<MessageId>,
}

impl<TopicId, Part> View for MimiContentBuilder<TopicId, Part> {
    type V = Given<TopicId, Part>;

    closed spec fn view(&self) -> Given<TopicId, Part> {
        Given {
            extensions: extension_entries(self.extensions),
            salt: self.salt@,
            topic_id: self.topic_id,
            expires: self.expires,
            nested_part: self.nested_part,
            replaces: optional_id_view(self.replaces),
            in_reply_to: optional_id_view(self.in_reply_to),
        }
    }
}

impl MimiContent {
    /// Starts to build a content: the salt is zero and nothing else is given.
    pub fn builder() -> (builder: MimiContentBuilder<(), ()>)
        ensures
            builder@ == (Given {
                extensions: Seq::<(NameView, CborModel)>::empty(),
                salt: Seq::new(16, |i: int| 0u8),
                topic_id: (),
                expires: None::<Expiration>,
                nested_part: (),
                replaces: None::<Seq<u8>>,
                in_reply_to: None::<Seq<u8>>,
            }),
    {
        let builder = MimiContentBuilder {
            extensions: extensions_new(),
            salt: [0u8;16],
            topic_id: (),
            expires: None,
            nested_part: (),
            replaces: None,
            in_reply_to: None,
        };
        assert(builder@.salt =~= Seq::new(16, |i: int| 0u8));
        builder
    }
}

impl<TopicId, Part> MimiContentBuilder<TopicId, Part> {
    /// Gives an extension: the value of a name given before is replaced where it stands, a
    /// new name goes behind the others.
    pub fn with_extension(self, name: Name, value: ExtensionValue) -> (builder: Self)
        ensures
            builder@ == (Given {
                extensions: insert_entry(self@.extensions, name@, value@),
                ..self@
            }),
    {
        let mut builder = self;
        extensions_insert(&mut builder.extensions, name, value);
        builder
    }

    /// Gives the URI of the sender, as a text under the name 1.
    pub fn with_sender_uri(self, sender_uri: String) -> (builder: Self)
        ensures
            builder@ == (Given {
                extensions: insert_entry(
                    self@.extensions,
                    NameView::Int(1),
                    CborModel::Text(sender_uri@),
                ),
                ..self@
            }),
    {
        self.with_extension(
            SenderUriExtension::extension_key(),
            ExtensionValue::new(cbor_text(sender_uri)),
        )
    }

    /// Gives the URI of the room, as a text under the name 2.
    pub fn with_room_uri(self, room_uri: String) -> (builder: Self)
        ensures
            builder@ == (Given {
                extensions: insert_entry(
                    self@.extensions,
                    NameView::Int(2),
                    CborModel::Text(room_uri@),
                ),
                ..self@
            }),
    {
        self.with_extension(
            RoomUriExtension::extension_key(),
            ExtensionValue::new(cbor_text(room_uri)),
        )
    }

    /// Takes the salt from a random number generator: 16 bytes of which nothing is known.
    /// Whatever salt was given before is gone; nothing else changes.
    pub fn salt_with_rng<R: rand_core::CryptoRngCore + ?Sized>(
        self,
        salt_csprng: &mut R,
    ) -> (builder: Self)
        ensures
            builder@ == (Given { salt: builder@.salt, ..self@ }),
            builder@.salt.len() == 16,
    {
        let salt = random_salt(salt_csprng);
        self.salt_from_outside_entropy(salt)
    }

    /// Takes the salt as given.
    pub fn salt_from_outside_entropy(self, salt: MimiContentSalt) -> (builder: Self)
        ensures
            builder@ == (Given { salt: salt@, ..self@ }),
    {
        let mut builder = self;
        builder.salt = salt;
        builder
    }

    /// Gives the expiration.
    pub fn expires(self, expires: Expiration) -> (builder: Self)
        ensures
            builder@ == (Given { expires: Some(expires), ..self@ }),
    {
        self.maybe_expires(Some(expires))
    }

    /// Gives the expiration, or takes it away.
    pub fn maybe_expires(self, expires: Option<Expiration>) -> (builder: Self)
        ensures
            builder@ == (Given { expires, ..self@ }),
    {
        let mut builder = self;
        builder.expires = expires;
        builder
    }

    /// Gives the message that this one replaces.
    pub fn replaces(self, replaces: MessageId) -> (builder: Self)
        ensures
            builder@ == (Given { replaces: Some(replaces@), ..self@ }),
    {
        self.maybe_replaces(Some(replaces))
    }

    /// Gives the message that this one replaces, or takes it away.
    pub fn maybe_replaces(self, replaces: Option<MessageId>) -> (builder: Self)
        ensures
            builder@ == (Given { replaces: optional_id_view(replaces), ..self@ }),
    {
        let mut builder = self;
        builder.replaces = replaces;
        builder
    }

    /// Gives the message that this one replies to.
    pub fn in_reply_to(self, in_reply_to: MessageId) -> (builder: Self)
        ensures
            builder@ == (Given { in_reply_to: Some(in_reply_to@), ..self@ }),
    {
        self.maybe_in_reply_to(Some(in_reply_to))
    }

    /// Gives the message that this one replies to, or takes it away.
    pub fn maybe_in_reply_to(self, in_reply_to: Option<MessageId>) -> (builder: Self)
        ensures
            builder@ == (Given { in_reply_to: optional_id_view(in_reply_to), ..self@ }),
    {
        let mut builder = self;
        builder.in_reply_to = in_reply_to;
        builder
    }
}

impl<Part> MimiContentBuilder<(), Part> {
    /// Gives the topic. This can be done once.
    pub fn topic_id(self, topic_id: Bstr) -> (builder: MimiContentBuilder<Bstr, Part>)
        ensures
            builder@ == (Given {
                extensions: self@.extensions,
                salt: self@.salt,
                topic_id,
                expires: self@.expires,
                nested_part: self@.nested_part,
                replaces: self@.replaces,
                in_reply_to: self@.in_reply_to,
            }),
    {
        MimiContentBuilder {
            extensions: self.extensions,
            salt: self.salt,
            topic_id,
            expires: self.expires,
            nested_part: self.nested_part,
            replaces: self.replaces,
            in_reply_to: self.in_reply_to,
        }
    }
}

impl<TopicId> MimiContentBuilder<TopicId, ()> {
    /// Gives the root part. This can be done once.
    pub fn nested_part(self, nested_part: NestedPart) -> (builder: MimiContentBuilder<
        TopicId,
        NestedPart,
    >)
        ensures
            builder@ == (Given {
                extensions: self@.extensions,
                salt: self@.salt,
                topic_id: self@.topic_id,
                expires: self@.expires,
                nested_part,
                replaces: self@.replaces,
                in_reply_to: self@.in_reply_to,
            }),
    {
        MimiContentBuilder {
            extensions: self.extensions,
            salt: self.salt,
            topic_id: self.topic_id,
            expires: self.expires,
            nested_part,
            replaces: self.replaces,
            in_reply_to: self.in_reply_to,
        }
    }
}

impl MimiContentBuilder<Bstr, NestedPart> {
    /// Builds the content of what was given. The types see to it that the topic and the root
    /// part were.
    pub fn build(self) -> (content: MimiContent)
        ensures
            content@ == (MimiContentView {
                salt: self@.salt,
                replaces: self@.replaces,
                topic_id: self@.topic_id@,
                expires: self@.expires,
                in_reply_to: self@.in_reply_to,
                extensions: self@.extensions,
                nested_part: self@.nested_part@,
            }),
    {
        MimiContent::new(
            self.extensions,
            self.salt,
            self.topic_id,
            self.expires,
            self.nested_part,
            self.replaces,
            self.in_reply_to,
        )
    }
}

} // verus!
