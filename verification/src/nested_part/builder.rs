//! The guarded way to build a part: the content has to be given before there is anything to
//! build.

use crate::common::Tstr;
use crate::dispositions::{BaseDispos, Disposition};
use crate::nested_part::{NestedPart, NestedPartContent};
use vstd::prelude::*;

verus! {

/// What a builder of a part was given so far, as a specification sees it. The content is `()`
/// until it is given.
pub struct PartGiven<Content> {
    pub disposition: Disposition,
    pub language: Seq<char>,
    pub part_content: Content,
}

/// A part in the making. The content has to be given, once, before the part can be built;
/// the disposition and the language are those of an empty part unless they are given.
pub struct NestedPartBuilder<Content> {
    disposition: Disposition,
    language: Tstr,
    part_content: Content,
}

impl<Content> View for NestedPartBuilder<Content> {
    type V = PartGiven<Content>;

    closed spec fn view(&self) -> PartGiven<Content> {
        PartGiven {
            disposition: self.disposition,
            language: self.language@,
            part_content: self.part_content,
        }
    }
}

impl NestedPart {
    /// Starts to build a part: no disposition given, the language `en`, and no content yet.
    pub fn builder() -> (builder: NestedPartBuilder<()>)
        ensures
            builder@ == (PartGiven {
                disposition: Disposition::Base(BaseDispos::Unspecified),
                language: "en"@,
                part_content: (),
            }),
    {
        NestedPartBuilder {
            disposition: Disposition::default(),
            language: Tstr::from("en"),
            part_content: (),
        }
    }
}

impl<Content> NestedPartBuilder<Content> {
    /// Gives the disposition.
    pub fn disposition(self, disposition: Disposition) -> (builder: Self)
        ensures
            builder@ == (PartGiven { disposition, ..self@ }),
    {
        let mut builder = self;
        builder.disposition = disposition;
        builder
    }

    /// Gives the language.
    pub fn language(self, language: Tstr) -> (builder: Self)
        ensures
            builder@ == (PartGiven { language: language@, ..self@ }),
    {
        let mut builder = self;
        builder.language = language;
        builder
    }
}

impl NestedPartBuilder<()> {
    /// Gives the content. This can be done once.
    pub fn part_content(self, part_content: NestedPartContent) -> (builder: NestedPartBuilder<
        NestedPartContent,
    >)
        ensures
            builder@ == (PartGiven {
                disposition: self@.disposition,
                language: self@.language,
                part_content,
            }),
    {
        NestedPartBuilder {
            disposition: self.disposition,
            language: self.language,
            part_content,
        }
    }
}

impl NestedPartBuilder<NestedPartContent> {
    /// Builds the part of what was given. The type sees to it that the content was.
    pub fn build(self) -> (part: NestedPart)
        ensures
            part.disposition == self@.disposition,
            part.language@ == self@.language,
            part.part_content == self@.part_content,
    {
        NestedPart {
            disposition: self.disposition,
            language: self.language,
            part_content: self.part_content,
        }
    }
}

} // verus!
