//! The settings cache, the sparse patches that change it, and how a patch is
//! merged into the cache.

use crate::error::StoreError;
use crate::found::Found;
use crate::json::{map_get, member_of, text_of, value_as_object, value_as_str};
use vstd::prelude::*;

verus! {

/// The shared settings cache: what each of four places in the interface had
/// selected last. A field that is `None` is unset.
#[derive(Clone, Debug, PartialEq, Eq)]
pub struct Cache {
    pub signature_view_last_selected_signature: Option<String>,
    pub email_view_last_selected_signature: Option<String>,
    pub email_view_last_selected_salutation: Option<String>,
    pub email_view_last_selected_valediction: Option<String>,
}

/// The four fields of the cache.
#[derive(Clone, Copy, Debug, PartialEq, Eq, Structural)]
pub enum Field {
    SignatureViewSignature,
    EmailViewSignature,
    EmailViewSalutation,
    EmailViewValediction,
}

/// What a patch says of one field.
#[derive(Clone, Debug, PartialEq, Eq)]
pub enum FieldPatch {
    /// The patch does not mention the field: it stays as it is.
    Keep,
    /// The patch mentions the field with something that is no string: the
    /// field becomes unset.
    Clear,
    /// The patch mentions the field with this string.
    Assign(String),
}

/// A sparse set of updates to the cache, one entry for each field.
#[derive(Clone, Debug, PartialEq, Eq)]
pub struct CachePatch {
    pub signature_view_last_selected_signature: FieldPatch,
    pub email_view_last_selected_signature: FieldPatch,
    pub email_view_last_selected_salutation: FieldPatch,
    pub email_view_last_selected_valediction: FieldPatch,
}

/// The cache in which every field is unset: what a cache is before it was
/// ever saved.
pub open spec fn empty_cache() -> Cache {
    Cache {
        signature_view_last_selected_signature: None,
        email_view_last_selected_signature: None,
        email_view_last_selected_salutation: None,
        email_view_last_selected_valediction: None,
    }
}

/// The patch that mentions no field.
pub open spec fn empty_patch() -> CachePatch {
    CachePatch {
        signature_view_last_selected_signature: FieldPatch::Keep,
        email_view_last_selected_signature: FieldPatch::Keep,
        email_view_last_selected_salutation: FieldPatch::Keep,
        email_view_last_selected_valediction: FieldPatch::Keep,
    }
}

/// The name under which a field stands in a patch and in the stored cache.
pub open spec fn key_of(field: Field) -> Seq<char> {
    match field {
        Field::SignatureViewSignature => "signature_view_last_selected_signature"@,
        Field::EmailViewSignature => "email_view_last_selected_signature"@,
        Field::EmailViewSalutation => "email_view_last_selected_salutation"@,
        Field::EmailViewValediction => "email_view_last_selected_valediction"@,
    }
}

/// The value of a field after a patch entry was applied to it.
pub open spec fn patched(current: Option<String>, patch: FieldPatch) -> Option<String> {
    match patch {
        FieldPatch::Keep => current,
        FieldPatch::Clear => None,
        FieldPatch::Assign(text) => Some(text),
    }
}

/// The cache that results from merging `patch` into `current`: each field
/// that the patch mentions is taken from the patch, every other field from
/// `current`.
pub open spec fn merged(current: Cache, patch: CachePatch) -> Cache {
    Cache {
        signature_view_last_selected_signature: patched(
            current.signature_view_last_selected_signature,
            patch.signature_view_last_selected_signature,
        ),
        email_view_last_selected_signature: patched(
            current.email_view_last_selected_signature,
            patch.email_view_last_selected_signature,
        ),
        email_view_last_selected_salutation: patched(
            current.email_view_last_selected_salutation,
            patch.email_view_last_selected_salutation,
        ),
        email_view_last_selected_valediction: patched(
            current.email_view_last_selected_valediction,
            patch.email_view_last_selected_valediction,
        ),
    }
}

/// Whether the entry `patch` is what the member `found` of a patch document
/// asks for: nothing where there is no such member, the text where the
/// member is a string, and clearing where it is anything else.
pub open spec fn entry_reads(patch: FieldPatch, found: Option<serde_json::Value>) -> bool {
    match found {
        None => patch is Keep,
        Some(value) => match text_of(value) {
            Some(text) => patch matches FieldPatch::Assign(s) && s@ == text,
            None => patch is Clear,
        },
    }
}

/// Whether `patch` is what the patch document `value` asks for, field by
/// field. Members of other names play no part.
pub open spec fn patch_reads(patch: CachePatch, value: serde_json::Value) -> bool {
    forall|field: Field| #[trigger]
        entry_reads(patch.entry(field), member_of(value, key_of(field)))
}

impl Field {
    /// The name under which the field stands in a patch and in the stored
    /// cache.
    pub fn key(&self) -> (name: &'static str)
        ensures
            name@ == key_of(*self),
    {
        match self {
            Field::SignatureViewSignature => "signature_view_last_selected_signature",
            Field::EmailViewSignature => "email_view_last_selected_signature",
            Field::EmailViewSalutation => "email_view_last_selected_salutation",
            Field::EmailViewValediction => "email_view_last_selected_valediction",
        }
    }
}

impl Cache {
    /// The value of `field`.
    pub open spec fn field(self, field: Field) -> Option<String> {
        match field {
            Field::SignatureViewSignature => self.signature_view_last_selected_signature,
            Field::EmailViewSignature => self.email_view_last_selected_signature,
            Field::EmailViewSalutation => self.email_view_last_selected_salutation,
            Field::EmailViewValediction => self.email_view_last_selected_valediction,
        }
    }

    /// The cache in which every field is unset.
    pub fn empty() -> (cache: Cache)
        ensures
            cache == empty_cache(),
    {
        Cache {
            signature_view_last_selected_signature: None,
            email_view_last_selected_signature: None,
            email_view_last_selected_salutation: None,
            email_view_last_selected_valediction: None,
        }
    }
}

impl Default for Cache {
    fn default() -> (cache: Cache)
        ensures
            cache == empty_cache(),
    {
        Cache::empty()
    }
}

impl FieldPatch {
    /// Whether the patch mentions the field.
    pub open spec fn mentions(self) -> bool {
        !(self is Keep)
    }

    /// The value of a field that was `current` after this entry was applied.
    pub fn apply(self, current: Option<String>) -> (next: Option<String>)
        ensures
            next == patched(current, self),
    {
        match self {
            FieldPatch::Keep => current,
            FieldPatch::Clear => None,
            FieldPatch::Assign(text) => Some(text),
        }
    }

    /// The entry that a patch document `value` holds under the name `key`.
    fn read(object: Option<&serde_json::Map<String, serde_json::Value>>, key: &str) -> (patch:
        FieldPatch)
        ensures
            entry_reads(
                patch,
                match object {
                    Some(members) => crate::json::member(crate::json::members_of(*members), key@),
                    None => None,
                },
            ),
    {
        match object {
            None => FieldPatch::Keep,
            Some(members) => match map_get(members, key) {
                None => FieldPatch::Keep,
                Some(value) => match value_as_str(value) {
                    Some(text) => FieldPatch::Assign(text.to_string()),
                    None => FieldPatch::Clear,
                },
            },
        }
    }
}

impl CachePatch {
    /// What the patch says of `field`.
    pub open spec fn entry(self, field: Field) -> FieldPatch {
        match field {
            Field::SignatureViewSignature => self.signature_view_last_selected_signature,
            Field::EmailViewSignature => self.email_view_last_selected_signature,
            Field::EmailViewSalutation => self.email_view_last_selected_salutation,
            Field::EmailViewValediction => self.email_view_last_selected_valediction,
        }
    }

    /// Whether the patch mentions no field but `field`.
    pub open spec fn mentions_only(self, field: Field) -> bool {
        forall|other: Field| other != field ==> !(#[trigger] self.entry(other)).mentions()
    }

    /// Whether no field is mentioned by both `self` and `other`.
    pub open spec fn disjoint(self, other: CachePatch) -> bool {
        forall|field: Field|
            !((#[trigger] self.entry(field)).mentions() && other.entry(field).mentions())
    }

    /// The patch that mentions no field.
    pub fn empty() -> (patch: CachePatch)
        ensures
            patch == empty_patch(),
    {
        CachePatch {
            signature_view_last_selected_signature: FieldPatch::Keep,
            email_view_last_selected_signature: FieldPatch::Keep,
            email_view_last_selected_salutation: FieldPatch::Keep,
            email_view_last_selected_valediction: FieldPatch::Keep,
        }
    }

    /// Reads a patch document. A document that is an object mentions each
    /// field for which it has a member of the field's name: with the
    /// member's text where that is a string, and as cleared where it is
    /// anything else. Members of other names are passed over, and a document
    /// that is no object mentions nothing.
    pub fn from_value(value: &serde_json::Value) -> (patch: CachePatch)
        ensures
            patch_reads(patch, *value),
    {
        let object = value_as_object(value);
        let patch = CachePatch {
            signature_view_last_selected_signature: FieldPatch::read(
                object,
                Field::SignatureViewSignature.key(),
            ),
            email_view_last_selected_signature: FieldPatch::read(
                object,
                Field::EmailViewSignature.key(),
            ),
            email_view_last_selected_salutation: FieldPatch::read(
                object,
                Field::EmailViewSalutation.key(),
            ),
            email_view_last_selected_valediction: FieldPatch::read(
                object,
                Field::EmailViewValediction.key(),
            ),
        };
        assert forall|field: Field| #[trigger]
            entry_reads(patch.entry(field), member_of(*value, key_of(field))) by {
            match field {
                Field::SignatureViewSignature => {},
                Field::EmailViewSignature => {},
                Field::EmailViewSalutation => {},
                Field::EmailViewValediction => {},
            }
        }
        patch
    }
}

/// Merges `patch` into `current`: each field that the patch mentions takes
/// the patch's value, also where that unsets it, and every other field stays
/// as it is in `current`.
pub fn merge(current: Cache, patch: CachePatch) -> (next: Cache)
    ensures
        next == merged(current, patch),
{
    Cache {
        signature_view_last_selected_signature: patch.signature_view_last_selected_signature.apply(
            current.signature_view_last_selected_signature,
        ),
        email_view_last_selected_signature: patch.email_view_last_selected_signature.apply(
            current.email_view_last_selected_signature,
        ),
        email_view_last_selected_salutation: patch.email_view_last_selected_salutation.apply(
            current.email_view_last_selected_salutation,
        ),
        email_view_last_selected_valediction: patch.email_view_last_selected_valediction.apply(
            current.email_view_last_selected_valediction,
        ),
    }
}

/// The cache that a load gives for what was found at the cache's place: the
/// stored cache where it could be read, and the empty cache where the file
/// is absent or its content is no cache.
pub open spec fn cache_loaded(found: Found<Cache>) -> Result<Cache, StoreError> {
    match found {
        Found::Absent => Ok(empty_cache()),
        Found::Unreadable(text) => Err(StoreError::Io(text)),
        Found::Corrupt(_) => Ok(empty_cache()),
        Found::Present(cache) => Ok(cache),
    }
}

/// Loads the settings cache from what was found at its place. A file that is
/// absent is no failure, and one whose content is no cache is taken for lost:
/// both give the empty cache. Only a file that could not be read fails.
pub fn load_cache(found: Found<Cache>) -> (r: Result<Cache, StoreError>)
    ensures
        r == cache_loaded(found),
{
    match found {
        Found::Absent => Ok(Cache::empty()),
        Found::Unreadable(text) => Err(StoreError::Io(text)),
        Found::Corrupt(_) => Ok(Cache::empty()),
        Found::Present(cache) => Ok(cache),
    }
}

/// Merging the patch that mentions nothing leaves every cache as it is.
pub proof fn law_empty_patch_changes_nothing(current: Cache)
    ensures
        merged(current, empty_patch()) == current,
{
}

/// A patch that mentions only `field` leaves the other three fields of every
/// cache as they are.
pub proof fn law_patch_touches_only_its_field(current: Cache, patch: CachePatch, field: Field)
    requires
        patch.mentions_only(field),
    ensures
        forall|other: Field|
            other != field ==> (#[trigger] merged(current, patch).field(other)) == current.field(
                other,
            ),
{
    assert forall|other: Field| other != field implies (#[trigger] merged(current, patch).field(
        other,
    )) == current.field(other) by {
        assert(!patch.entry(other).mentions());
    }
}

/// A field that a patch mentions holds the patch's value after the merge,
/// whatever it held before.
pub proof fn law_patch_sets_its_fields(current: Cache, patch: CachePatch, field: Field)
    requires
        patch.entry(field).mentions(),
    ensures
        merged(current, patch).field(field) == patched(None, patch.entry(field)),
{
}

/// Two patches that mention no field in common can be merged in either
/// order: the result is the same, and it holds what each of them set.
pub proof fn law_disjoint_patches_commute(current: Cache, first: CachePatch, second: CachePatch)
    requires
        first.disjoint(second),
    ensures
        merged(merged(current, first), second) == merged(merged(current, second), first),
{
    assert(!(first.entry(Field::SignatureViewSignature).mentions() && second.entry(
        Field::SignatureViewSignature,
    ).mentions()));
    assert(!(first.entry(Field::EmailViewSignature).mentions() && second.entry(
        Field::EmailViewSignature,
    ).mentions()));
    assert(!(first.entry(Field::EmailViewSalutation).mentions() && second.entry(
        Field::EmailViewSalutation,
    ).mentions()));
    assert(!(first.entry(Field::EmailViewValediction).mentions() && second.entry(
        Field::EmailViewValediction,
    ).mentions()));
}

} // verus!
