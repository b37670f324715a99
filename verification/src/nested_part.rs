//! The tree of nested parts that a message is made of, and its borrowed mirror.

use crate::common::{Bstr, BstrRef, Tstr, TstrRef};
use crate::dispositions::{BaseDispos, Disposition};
use crate::traits::MimiContentAsRef;
use vstd::prelude::*;

pub mod builder;
pub mod cloning;
pub mod codec;

verus! {

/// How the parts of a multipart are to be processed.
#[derive(Debug, Clone, Copy, PartialEq, Eq)]
pub enum PartSemantics {
    /// A single part of the content multipart must be picked and processed.
    ///
    /// Examples:
    /// - A multipart with various versions of the same text, in different languages
    /// - A multipart reaction with various icon size variations
    ChooseOne,
    /// All parts *must* be processed
    SingleUnit,
    /// As many parts as possible must be processed
    ProcessAll,
}

impl PartSemantics {
    /// The number a part semantics is written as.
    pub open spec fn code(self) -> u8 {
        match self {
            PartSemantics::ChooseOne => 0,
            PartSemantics::SingleUnit => 1,
            PartSemantics::ProcessAll => 2,
        }
    }

    /// The part semantics that a number stands for, if any.
    pub open spec fn of_code(code: int) -> Option<PartSemantics> {
        if code == 0 {
            Some(PartSemantics::ChooseOne)
        } else if code == 1 {
            Some(PartSemantics::SingleUnit)
        } else if code == 2 {
            Some(PartSemantics::ProcessAll)
        } else {
            None
        }
    }

    /// The number this part semantics is written as.
    pub fn to_code(self) -> (code: u8)
        ensures
            code == self.code(),
    {
        match self {
            PartSemantics::ChooseOne => 0,
            PartSemantics::SingleUnit => 1,
            PartSemantics::ProcessAll => 2,
        }
    }

    /// The part semantics that a number stands for, if any.
    pub fn from_code(code: u64) -> (semantics: Option<PartSemantics>)
        ensures
            semantics == PartSemantics::of_code(code as int),
    {
        match code {
            0 => Some(PartSemantics::ChooseOne),
            1 => Some(PartSemantics::SingleUnit),
            2 => Some(PartSemantics::ProcessAll),
            _ => None,
        }
    }
}

/// One concrete content blob, as a specification sees it.
pub struct SinglePartView {
    pub content_type: Seq<char>,
    pub content: Seq<u8>,
}

/// Content stored elsewhere, as a specification sees it.
pub struct ExternalPartView {
    pub content_type: Seq<char>,
    pub url: Seq<char>,
    pub expires: u32,
    pub size: u64,
    pub enc_alg: u16,
    pub key: Seq<u8>,
    pub nonce: Seq<u8>,
    pub aad: Seq<u8>,
    pub hash_alg: u8,
    pub content_hash: Seq<u8>,
    pub description: Seq<char>,
    pub filename: Seq<char>,
}

/// A node with child parts, as a specification sees it.
pub struct MultiPartView {
    pub part_semantics: PartSemantics,
    pub parts: Seq<NestedPartView>,
}

/// The content of a part, as a specification sees it.
pub enum NestedPartContentView {
    NullPart,
    SinglePart(SinglePartView),
    ExternalPart(ExternalPartView),
    MultiPart(MultiPartView),
}

/// A node of the content tree, as a specification sees it. The disposition is seen as its code.
pub struct NestedPartView {
    pub disposition: u8,
    pub language: Seq<char>,
    pub part_content: NestedPartContentView,
}

/// One concrete content blob: a media type and the bytes of that type.
#[derive(Debug, PartialEq, Eq)]
pub struct SinglePart {
    pub content_type: Tstr,
    pub content: Bstr,
}

impl View for SinglePart {
    type V = SinglePartView;

    open spec fn view(&self) -> SinglePartView {
        SinglePartView { content_type: self.content_type@, content: self.content@ }
    }
}

/// A borrowed single part.
#[derive(Debug, PartialEq, Eq)]
pub struct SinglePartRef<'a> {
    pub content_type: TstrRef<'a>,
    pub content: BstrRef<'a>,
}

impl<'a> View for SinglePartRef<'a> {
    type V = SinglePartView;

    open spec fn view(&self) -> SinglePartView {
        SinglePartView { content_type: self.content_type@, content: self.content@ }
    }
}

impl SinglePartRef<'_> {
    /// The number of fields that a single part adds to its node.
    pub fn field_count() -> (n: usize)
        ensures
            n == 2,
    {
        2
    }
}

impl MimiContentAsRef for SinglePart {
    type Target<'a> = SinglePartRef<'a>;

    fn as_ref(&self) -> (r: SinglePartRef<'_>)
        ensures
            r@ == self@,
    {
        SinglePartRef { content_type: self.content_type.as_ref(), content: self.content.as_ref() }
    }
}

/// Content that is stored elsewhere: where to fetch it, and what is needed to decrypt it and
/// to check it.
#[derive(Debug, PartialEq, Eq)]
pub struct ExternalPart {
    pub content_type: Tstr,
    pub url: Tstr,
    pub expires: u32,
    pub size: u64,
    pub enc_alg: u16,
    pub key: Bstr,
    pub nonce: Bstr,
    pub aad: Bstr,
    pub hash_alg: u8,
    pub content_hash: Bstr,
    pub description: Tstr,
    pub filename: Tstr,
}

impl View for ExternalPart {
    type V = ExternalPartView;

    open spec fn view(&self) -> ExternalPartView {
        ExternalPartView {
            content_type: self.content_type@,
            url: self.url@,
            expires: self.expires,
            size: self.size,
            enc_alg: self.enc_alg,
            key: self.key@,
            nonce: self.nonce@,
            aad: self.aad@,
            hash_alg: self.hash_alg,
            content_hash: self.content_hash@,
            description: self.description@,
            filename: self.filename@,
        }
    }
}

/// A borrowed external part.
#[derive(Debug, PartialEq, Eq)]
pub struct ExternalPartRef<'a> {
    pub content_type: TstrRef<'a>,
    pub url: TstrRef<'a>,
    pub expires: &'a u32,
    pub size: &'a u64,
    pub enc_alg: &'a u16,
    pub key: BstrRef<'a>,
    pub nonce: BstrRef<'a>,
    pub aad: BstrRef<'a>,
    pub hash_alg: &'a u8,
    pub content_hash: BstrRef<'a>,
    pub description: TstrRef<'a>,
    pub filename: TstrRef<'a>,
}

impl<'a> View for ExternalPartRef<'a> {
    type V = ExternalPartView;

    open spec fn view(&self) -> ExternalPartView {
        ExternalPartView {
            content_type: self.content_type@,
            url: self.url@,
            expires: *self.expires,
            size: *self.size,
            enc_alg: *self.enc_alg,
            key: self.key@,
            nonce: self.nonce@,
            aad: self.aad@,
            hash_alg: *self.hash_alg,
            content_hash: self.content_hash@,
            description: self.description@,
            filename: self.filename@,
        }
    }
}

impl ExternalPartRef<'_> {
    /// The number of fields that an external part adds to its node.
    pub fn field_count() -> (n: usize)
        ensures
            n == 12,
    {
        12
    }
}

impl MimiContentAsRef for ExternalPart {
    type Target<'a> = ExternalPartRef<'a>;

    fn as_ref(&self) -> (r: ExternalPartRef<'_>)
        ensures
            r@ == self@,
    {
        ExternalPartRef {
            content_type: self.content_type.as_ref(),
            url: self.url.as_ref(),
            expires: &self.expires,
            size: &self.size,
            enc_alg: &self.enc_alg,
            key: self.key.as_ref(),
            nonce: self.nonce.as_ref(),
            aad: self.aad.as_ref(),
            hash_alg: &self.hash_alg,
            content_hash: self.content_hash.as_ref(),
            description: self.description.as_ref(),
            filename: self.filename.as_ref(),
        }
    }
}

/// A node with child parts, which are parts like itself.
#[derive(Debug, PartialEq, Eq)]
pub struct MultiPart {
    pub part_semantics: PartSemantics,
    pub parts: Vec<NestedPart>,
}

/// A borrowed multipart. The parts below it are borrowed one by one.
#[derive(Debug, PartialEq, Eq)]
pub struct MultiPartRef<'a> {
    pub part_semantics: &'a PartSemantics,
    pub parts: Vec<NestedPartRef<'a>>,
}

impl MultiPartRef<'_> {
    /// The number of fields that a multipart adds to its node.
    pub fn field_count() -> (n: usize)
        ensures
            n == 2,
    {
        2
    }
}

/// The tag that says which content a node carries, and so how many fields follow it.
#[derive(Debug, Clone, Copy, PartialEq, Eq)]
pub enum NestedPartContentCardinality {
    NullPart,
    SinglePart,
    ExternalPart,
    MultiPart,
}

impl NestedPartContentCardinality {
    /// The number a tag is written as.
    pub open spec fn code(self) -> u8 {
        match self {
            NestedPartContentCardinality::NullPart => 0,
            NestedPartContentCardinality::SinglePart => 1,
            NestedPartContentCardinality::ExternalPart => 2,
            NestedPartContentCardinality::MultiPart => 3,
        }
    }

    /// The tag that a number stands for, if any.
    pub open spec fn of_code(code: int) -> Option<NestedPartContentCardinality> {
        if code == 0 {
            Some(NestedPartContentCardinality::NullPart)
        } else if code == 1 {
            Some(NestedPartContentCardinality::SinglePart)
        } else if code == 2 {
            Some(NestedPartContentCardinality::ExternalPart)
        } else if code == 3 {
            Some(NestedPartContentCardinality::MultiPart)
        } else {
            None
        }
    }

    /// The number of fields that follow the tag.
    pub open spec fn extra_field_count(self) -> nat {
        match self {
            NestedPartContentCardinality::NullPart => 0,
            NestedPartContentCardinality::SinglePart => 2,
            NestedPartContentCardinality::ExternalPart => 12,
            NestedPartContentCardinality::MultiPart => 2,
        }
    }

    /// The number this tag is written as.
    pub fn to_code(self) -> (code: u8)
        ensures
            code == self.code(),
    {
        match self {
            NestedPartContentCardinality::NullPart => 0,
            NestedPartContentCardinality::SinglePart => 1,
            NestedPartContentCardinality::ExternalPart => 2,
            NestedPartContentCardinality::MultiPart => 3,
        }
    }

    /// The tag that a number stands for, if any.
    pub fn from_code(code: u64) -> (tag: Option<NestedPartContentCardinality>)
        ensures
            tag == NestedPartContentCardinality::of_code(code as int),
    {
        match code {
            0 => Some(NestedPartContentCardinality::NullPart),
            1 => Some(NestedPartContentCardinality::SinglePart),
            2 => Some(NestedPartContentCardinality::ExternalPart),
            3 => Some(NestedPartContentCardinality::MultiPart),
            _ => None,
        }
    }
}

impl NestedPartContentView {
    /// The tag of this content.
    pub open spec fn cardinality(self) -> NestedPartContentCardinality {
        match self {
            NestedPartContentView::NullPart => NestedPartContentCardinality::NullPart,
            NestedPartContentView::SinglePart(_) => NestedPartContentCardinality::SinglePart,
            NestedPartContentView::ExternalPart(_) => NestedPartContentCardinality::ExternalPart,
            NestedPartContentView::MultiPart(_) => NestedPartContentCardinality::MultiPart,
        }
    }
}

/// The content of a part: nothing, one blob, a reference to content stored elsewhere, or
/// parts again.
#[derive(Debug, PartialEq, Eq)]
pub enum NestedPartContent {
    NullPart,
    SinglePart(SinglePart),
    ExternalPart(ExternalPart),
    MultiPart(MultiPart),
}

/// The borrowed content of a part.
#[derive(Debug, PartialEq, Eq)]
pub enum NestedPartContentRef<'a> {
    NullPart,
    SinglePart(SinglePartRef<'a>),
    ExternalPart(ExternalPartRef<'a>),
    MultiPart(MultiPartRef<'a>),
}

/// A node of the content tree: root, inner nodes and leaves are all of this shape.
#[derive(Debug, PartialEq, Eq)]
pub struct NestedPart {
    pub disposition: Disposition,
    pub language: Tstr,
    pub part_content: NestedPartContent,
}

/// A borrowed part.
#[derive(Debug, PartialEq, Eq)]
pub struct NestedPartRef<'a> {
    pub disposition: &'a Disposition,
    pub language: TstrRef<'a>,
    pub part_content: NestedPartContentRef<'a>,
}

/// What a specification sees of a part and of all the parts below it.
pub open spec fn nested_part_view(part: NestedPart) -> NestedPartView
    decreases part,
{
    NestedPartView {
        disposition: part.disposition@,
        language: part.language@,
        part_content: match part.part_content {
            NestedPartContent::NullPart => NestedPartContentView::NullPart,
            NestedPartContent::SinglePart(single) => NestedPartContentView::SinglePart(single@),
            NestedPartContent::ExternalPart(external) => NestedPartContentView::ExternalPart(
                external@,
            ),
            NestedPartContent::MultiPart(multi) => NestedPartContentView::MultiPart(
                MultiPartView {
                    part_semantics: multi.part_semantics,
                    parts: Seq::new(
                        multi.parts@.len(),
                        |i: int|
                            if 0 <= i < multi.parts@.len() {
                                nested_part_view(multi.parts@[i])
                            } else {
                                arbitrary()
                            },
                    ),
                },
            ),
        },
    }
}

/// What a specification sees of a borrowed part and of all the parts below it.
pub open spec fn nested_part_ref_view(part: NestedPartRef) -> NestedPartView
    decreases part,
{
    NestedPartView {
        disposition: part.disposition@,
        language: part.language@,
        part_content: match part.part_content {
            NestedPartContentRef::NullPart => NestedPartContentView::NullPart,
            NestedPartContentRef::SinglePart(single) => NestedPartContentView::SinglePart(single@),
            NestedPartContentRef::ExternalPart(external) => NestedPartContentView::ExternalPart(
                external@,
            ),
            NestedPartContentRef::MultiPart(multi) => NestedPartContentView::MultiPart(
                MultiPartView {
                    part_semantics: *multi.part_semantics,
                    parts: Seq::new(
                        multi.parts@.len(),
                        |i: int|
                            if 0 <= i < multi.parts@.len() {
                                nested_part_ref_view(multi.parts@[i])
                            } else {
                                arbitrary()
                            },
                    ),
                },
            ),
        },
    }
}

impl View for NestedPart {
    type V = NestedPartView;

    open spec fn view(&self) -> NestedPartView {
        nested_part_view(*self)
    }
}

impl<'a> View for NestedPartRef<'a> {
    type V = NestedPartView;

    open spec fn view(&self) -> NestedPartView {
        nested_part_ref_view(*self)
    }
}

impl View for MultiPart {
    type V = MultiPartView;

    open spec fn view(&self) -> MultiPartView {
        MultiPartView {
            part_semantics: self.part_semantics,
            parts: Seq::new(self.parts@.len(), |i: int| self.parts@[i]@),
        }
    }
}

impl<'a> View for MultiPartRef<'a> {
    type V = MultiPartView;

    open spec fn view(&self) -> MultiPartView {
        MultiPartView {
            part_semantics: *self.part_semantics,
            parts: Seq::new(self.parts@.len(), |i: int| self.parts@[i]@),
        }
    }
}

impl View for NestedPartContent {
    type V = NestedPartContentView;

    open spec fn view(&self) -> NestedPartContentView {
        match self {
            NestedPartContent::NullPart => NestedPartContentView::NullPart,
            NestedPartContent::SinglePart(single) => NestedPartContentView::SinglePart(single@),
            NestedPartContent::ExternalPart(external) => NestedPartContentView::ExternalPart(
                external@,
            ),
            NestedPartContent::MultiPart(multi) => NestedPartContentView::MultiPart(multi@),
        }
    }
}

impl<'a> View for NestedPartContentRef<'a> {
    type V = NestedPartContentView;

    open spec fn view(&self) -> NestedPartContentView {
        match self {
            NestedPartContentRef::NullPart => NestedPartContentView::NullPart,
            NestedPartContentRef::SinglePart(single) => NestedPartContentView::SinglePart(single@),
            NestedPartContentRef::ExternalPart(external) => NestedPartContentView::ExternalPart(
                external@,
            ),
            NestedPartContentRef::MultiPart(multi) => NestedPartContentView::MultiPart(multi@),
        }
    }
}

/// The view of a part is made of the views of its fields.
pub proof fn nested_part_view_unfolds(part: NestedPart)
    ensures
        part@ == (NestedPartView {
            disposition: part.disposition@,
            language: part.language@,
            part_content: part.part_content@,
        }),
{
    match part.part_content {
        NestedPartContent::MultiPart(multi) => {
            assert(multi@.parts =~= nested_part_view(part).part_content->MultiPart_0.parts);
        },
        _ => {},
    }
}

/// The view of a borrowed part is made of the views of its fields.
pub proof fn nested_part_ref_view_unfolds(part: NestedPartRef)
    ensures
        part@ == (NestedPartView {
            disposition: part.disposition@,
            language: part.language@,
            part_content: part.part_content@,
        }),
{
    match part.part_content {
        NestedPartContentRef::MultiPart(multi) => {
            assert(multi@.parts =~= nested_part_ref_view(part).part_content->MultiPart_0.parts);
        },
        _ => {},
    }
}

/// Lends a part, with all the parts below it.
fn nested_part_as_ref<'a>(part: &'a NestedPart) -> (r: NestedPartRef<'a>)
    ensures
        r@ == part@,
    decreases part,
{
    let r = NestedPartRef {
        disposition: &part.disposition,
        language: part.language.as_ref(),
        part_content: content_as_ref(&part.part_content),
    };
    proof {
        nested_part_view_unfolds(*part);
        nested_part_ref_view_unfolds(r);
    }
    r
}

/// Lends a content, with all the parts below it.
fn content_as_ref<'a>(content: &'a NestedPartContent) -> (r: NestedPartContentRef<'a>)
    ensures
        r@ == content@,
    decreases content,
{
    match content {
        NestedPartContent::NullPart => NestedPartContentRef::NullPart,
        NestedPartContent::SinglePart(single) => NestedPartContentRef::SinglePart(single.as_ref()),
        NestedPartContent::ExternalPart(external) => NestedPartContentRef::ExternalPart(
            external.as_ref(),
        ),
        NestedPartContent::MultiPart(multi) => NestedPartContentRef::MultiPart(
            multi_part_as_ref(multi),
        ),
    }
}

/// Lends a multipart, with all the parts below it.
fn multi_part_as_ref<'a>(multi: &'a MultiPart) -> (r: MultiPartRef<'a>)
    ensures
        r@ == multi@,
    decreases multi,
{
    let mut parts: Vec<NestedPartRef<'a>> = Vec::with_capacity(multi.parts.len());
    let mut i: usize = 0;
    while i < multi.parts.len()
        invariant
            i <= multi.parts.len(),
            parts.len() == i,
            forall|j: int| 0 <= j < i ==> (#[trigger] parts[j])@ == multi.parts[j]@,
        decreases multi.parts.len() - i,
    {
        parts.push(nested_part_as_ref(&multi.parts[i]));
        i += 1;
    }
    let r = MultiPartRef { part_semantics: &multi.part_semantics, parts };
    assert(r@.parts =~= multi@.parts);
    r
}

impl MimiContentAsRef for MultiPart {
    type Target<'a> = MultiPartRef<'a>;

    fn as_ref(&self) -> (r: MultiPartRef<'_>)
        ensures
            r@ == self@,
    {
        multi_part_as_ref(self)
    }
}

impl MimiContentAsRef for NestedPartContent {
    type Target<'a> = NestedPartContentRef<'a>;

    fn as_ref(&self) -> (r: NestedPartContentRef<'_>)
        ensures
            r@ == self@,
    {
        content_as_ref(self)
    }
}

impl MimiContentAsRef for NestedPart {
    type Target<'a> = NestedPartRef<'a>;

    fn as_ref(&self) -> (r: NestedPartRef<'_>)
        ensures
            r@ == self@,
    {
        nested_part_as_ref(self)
    }
}

impl NestedPartContent {
    /// The tag of this content.
    pub fn cardinality(&self) -> (tag: NestedPartContentCardinality)
        ensures
            tag == self@.cardinality(),
    {
        match self {
            Self::NullPart => NestedPartContentCardinality::NullPart,
            Self::SinglePart(_) => NestedPartContentCardinality::SinglePart,
            Self::ExternalPart(_) => NestedPartContentCardinality::ExternalPart,
            Self::MultiPart(_) => NestedPartContentCardinality::MultiPart,
        }
    }
}

impl NestedPartContentRef<'_> {
    /// The tag of this content.
    pub fn cardinality(&self) -> (tag: NestedPartContentCardinality)
        ensures
            tag == self@.cardinality(),
    {
        match self {
            Self::NullPart => NestedPartContentCardinality::NullPart,
            Self::SinglePart(_) => NestedPartContentCardinality::SinglePart,
            Self::ExternalPart(_) => NestedPartContentCardinality::ExternalPart,
            Self::MultiPart(_) => NestedPartContentCardinality::MultiPart,
        }
    }
}

impl NestedPartRef<'_> {
    /// The number of fields that every node has, whatever its content.
    pub fn field_count() -> (n: usize)
        ensures
            n == 3,
    {
        3
    }
}

impl Default for NestedPartContent {
    fn default() -> (content: Self)
        ensures
            content == NestedPartContent::NullPart,
    {
        NestedPartContent::NullPart
    }
}

impl<'a> Default for NestedPartContentRef<'a> {
    fn default() -> (content: Self)
        ensures
            content == NestedPartContentRef::<'a>::NullPart,
    {
        NestedPartContentRef::NullPart
    }
}

impl Default for NestedPart {
    /// An empty part in English: no disposition given, the language `en`, no content.
    fn default() -> (part: Self)
        ensures
            part.disposition == Disposition::Base(BaseDispos::Unspecified),
            part.language@ == "en"@,
            part.part_content == NestedPartContent::NullPart,
    {
        NestedPart {
            disposition: Disposition::default(),
            language: Tstr::from("en"),
            part_content: NestedPartContent::default(),
        }
    }
}

} // verus!
