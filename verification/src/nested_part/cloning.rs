//! Copies of parts: a copy of a part holds copies of all the parts below it.

use crate::nested_part::{
    nested_part_ref_view_unfolds, nested_part_view_unfolds, ExternalPart, ExternalPartRef,
    MultiPart, MultiPartRef, NestedPart, NestedPartContent, NestedPartContentRef, NestedPartRef,
    SinglePart, SinglePartRef,
};
use vstd::prelude::*;

verus! {

impl Clone for SinglePart {
    fn clone(&self) -> (copy: Self)
        ensures
            copy@ == self@,
    {
        SinglePart { content_type: self.content_type.clone(), content: self.content.clone() }
    }
}

impl<'a> Clone for SinglePartRef<'a> {
    fn clone(&self) -> (copy: Self)
        ensures
            copy@ == self@,
    {
        SinglePartRef { content_type: self.content_type.clone(), content: self.content.clone() }
    }
}

impl Clone for ExternalPart {
    fn clone(&self) -> (copy: Self)
        ensures
            copy@ == self@,
    {
        ExternalPart {
            content_type: self.content_type.clone(),
            url: self.url.clone(),
            expires: self.expires,
            size: self.size,
            enc_alg: self.enc_alg,
            key: self.key.clone(),
            nonce: self.nonce.clone(),
            aad: self.aad.clone(),
            hash_alg: self.hash_alg,
            content_hash: self.content_hash.clone(),
            description: self.description.clone(),
            filename: self.filename.clone(),
        }
    }
}

impl<'a> Clone for ExternalPartRef<'a> {
    fn clone(&self) -> (copy: Self)
        ensures
            copy@ == self@,
    {
        ExternalPartRef {
            content_type: self.content_type.clone(),
            url: self.url.clone(),
            expires: self.expires,
            size: self.size,
            enc_alg: self.enc_alg,
            key: self.key.clone(),
            nonce: self.nonce.clone(),
            aad: self.aad.clone(),
            hash_alg: self.hash_alg,
            content_hash: self.content_hash.clone(),
            description: self.description.clone(),
            filename: self.filename.clone(),
        }
    }
}

/// Copies a part, with all the parts below it.
fn clone_nested_part(part: &NestedPart) -> (copy: NestedPart)
    ensures
        copy@ == part@,
    decreases part,
{
    let copy = NestedPart {
        disposition: part.disposition,
        language: part.language.clone(),
        part_content: clone_content(&part.part_content),
    };
    proof {
        nested_part_view_unfolds(*part);
        nested_part_view_unfolds(copy);
    }
    copy
}

/// Copies a content, with all the parts below it.
fn clone_content(content: &NestedPartContent) -> (copy: NestedPartContent)
    ensures
        copy@ == content@,
    decreases content,
{
    match content {
        NestedPartContent::NullPart => NestedPartContent::NullPart,
        NestedPartContent::SinglePart(single) => NestedPartContent::SinglePart(single.clone()),
        NestedPartContent::ExternalPart(external) => NestedPartContent::ExternalPart(
            external.clone(),
        ),
        NestedPartContent::MultiPart(multi) => NestedPartContent::MultiPart(
            clone_multi_part(multi),
        ),
    }
}

/// Copies a multipart, with all the parts below it.
fn clone_multi_part(multi: &MultiPart) -> (copy: MultiPart)
    ensures
        copy@ == multi@,
    decreases multi,
{
    let mut parts: Vec<NestedPart> = Vec::with_capacity(multi.parts.len());
    let mut i: usize = 0;
    while i < multi.parts.len()
        invariant
            i <= multi.parts.len(),
            parts.len() == i,
            forall|j: int| 0 <= j < i ==> (#[trigger] parts[j])@ == multi.parts[j]@,
        decreases multi.parts.len() - i,
    {
        parts.push(clone_nested_part(&multi.parts[i]));
        i += 1;
    }
    let copy = MultiPart { part_semantics: multi.part_semantics, parts };
    assert(copy@.parts =~= multi@.parts);
    copy
}

/// Copies a borrowed part, with all the parts below it.
fn clone_nested_part_ref<'a>(part: &NestedPartRef<'a>) -> (copy: NestedPartRef<'a>)
    ensures
        copy@ == part@,
    decreases part,
{
    let copy = NestedPartRef {
        disposition: part.disposition,
        language: part.language.clone(),
        part_content: clone_content_ref(&part.part_content),
    };
    proof {
        nested_part_ref_view_unfolds(*part);
        nested_part_ref_view_unfolds(copy);
    }
    copy
}

/// Copies a borrowed content, with all the parts below it.
fn clone_content_ref<'a>(content: &NestedPartContentRef<'a>) -> (copy: NestedPartContentRef<'a>)
    ensures
        copy@ == content@,
    decreases content,
{
    match content {
        NestedPartContentRef::NullPart => NestedPartContentRef::NullPart,
        NestedPartContentRef::SinglePart(single) => NestedPartContentRef::SinglePart(
            single.clone(),
        ),
        NestedPartContentRef::ExternalPart(external) => NestedPartContentRef::ExternalPart(
            external.clone(),
        ),
        NestedPartContentRef::MultiPart(multi) => NestedPartContentRef::MultiPart(
            clone_multi_part_ref(multi),
        ),
    }
}

/// Copies a borrowed multipart, with all the parts below it.
fn clone_multi_part_ref<'a>(multi: &MultiPartRef<'a>) -> (copy: MultiPartRef<'a>)
    ensures
        copy@ == multi@,
    decreases multi,
{
    let mut parts: Vec<NestedPartRef<'a>> = Vec::with_capacity(multi.parts.len());
    let mut i: usize = 0;
    while i < multi.parts.len()
        invariant
            i <= multi.parts.len(),
            parts.len() == i,
            forall|j: int| 0 <= j < i ==> (#[trigger] parts[j])@ == multi.parts[j]@,
        decreases multi.parts.len() - i,
    {
        parts.push(clone_nested_part_ref(&multi.parts[i]));
        i += 1;
    }
    let copy = MultiPartRef { part_semantics: multi.part_semantics, parts };
    assert(copy@.parts =~= multi@.parts);
    copy
}

impl Clone for MultiPart {
    fn clone(&self) -> (copy: Self)
        ensures
            copy@ == self@,
    {
        clone_multi_part(self)
    }
}

impl Clone for NestedPartContent {
    fn clone(&self) -> (copy: Self)
        ensures
            copy@ == self@,
    {
        clone_content(self)
    }
}

impl Clone for NestedPart {
    fn clone(&self) -> (copy: Self)
        ensures
            copy@ == self@,
    {
        clone_nested_part(self)
    }
}

impl<'a> Clone for MultiPartRef<'a> {
    fn clone(&self) -> (copy: Self)
        ensures
            copy@ == self@,
    {
        clone_multi_part_ref(self)
    }
}

impl<'a> Clone for NestedPartContentRef<'a> {
    fn clone(&self) -> (copy: Self)
        ensures
            copy@ == self@,
    {
        clone_content_ref(self)
    }
}

impl<'a> Clone for NestedPartRef<'a> {
    fn clone(&self) -> (copy: Self)
        ensures
            copy@ == self@,
    {
        clone_nested_part_ref(self)
    }
}

} // verus!
