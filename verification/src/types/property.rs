//! Property names.

use vstd::prelude::*;
use vstd::std_specs::cmp::PartialEqSpecImpl;
use crate::codec::text::decode_name;
use crate::codec::text::encode_name;
use crate::codec::text::next_text;
use crate::codec::text::push_text;
use crate::codec::text::utf8_len;

verus! {

/// The tag of the last well-known property.
pub const LAST_PROPERTY_TAG: u8 = 28;

/// The tag that announces the text of an extension property.
pub const EXTENSION_TAG: u8 = 255;

/// The name of a property of an object: one of the well-known names, or an
/// extension name carried as text.
#[derive(Debug, Eq)]
pub enum Property {
    Id,
    Name,
    Description,
    Email,
    IsActive,
    ParentId,
    Role,
    SortOrder,
    MailboxIds,
    Keywords,
    ReceivedAt,
    Subject,
    Size,
    BlobId,
    ThreadId,
    DeviceClientId,
    Url,
    Keys,
    Expires,
    Types,
    VerificationCode,
    Value,
    Auth,
    P256dh,
    Ids,
    List,
    Created,
    Updated,
    Destroyed,
    Extension(String),
}

/// A property as contracts see it: its wire tag, and the name that follows
/// the tag of an extension property (empty for a well-known one).
pub struct PropertyView {
    pub tag: u8,
    pub name: Seq<char>,
}

impl PropertyView {
    /// Whether such a property exists and can be written to the wire.
    pub open spec fn wf(self) -> bool {
        &&& self.tag == EXTENSION_TAG || (self.tag <= LAST_PROPERTY_TAG && self.name
            == Seq::<char>::empty())
        &&& utf8_len(self.name) <= u64::MAX
    }
}

/// The wire form of a property.
pub open spec fn encode_property(property: PropertyView) -> Seq<u8> {
    encode_name(property.tag, property.name, EXTENSION_TAG)
}

/// The property at `bytes[at..]` and the position after it; `None` on an
/// unknown tag, truncated input or a name that is not UTF-8.
pub open spec fn decode_property(bytes: Seq<u8>, at: int) -> Option<(PropertyView, int)> {
    match decode_name(bytes, at, LAST_PROPERTY_TAG, EXTENSION_TAG) {
        Some((tag, name, next)) => Some((PropertyView { tag, name }, next)),
        None => None,
    }
}

impl View for Property {
    type V = PropertyView;

    open spec fn view(&self) -> PropertyView {
        PropertyView {
            tag: self.spec_tag(),
            name: match self {
                Property::Extension(name) => name@,
                _ => Seq::empty(),
            },
        }
    }
}

impl Property {
    /// The small integer that stands for the property on the wire.
    pub open spec fn spec_tag(&self) -> u8 {
        match self {
            Property::Id => 0,
            Property::Name => 1,
            Property::Description => 2,
            Property::Email => 3,
            Property::IsActive => 4,
            Property::ParentId => 5,
            Property::Role => 6,
            Property::SortOrder => 7,
            Property::MailboxIds => 8,
            Property::Keywords => 9,
            Property::ReceivedAt => 10,
            Property::Subject => 11,
            Property::Size => 12,
            Property::BlobId => 13,
            Property::ThreadId => 14,
            Property::DeviceClientId => 15,
            Property::Url => 16,
            Property::Keys => 17,
            Property::Expires => 18,
            Property::Types => 19,
            Property::VerificationCode => 20,
            Property::Value => 21,
            Property::Auth => 22,
            Property::P256dh => 23,
            Property::Ids => 24,
            Property::List => 25,
            Property::Created => 26,
            Property::Updated => 27,
            Property::Destroyed => 28,
            Property::Extension(_) => 255,
        }
    }

    #[verifier::when_used_as_spec(spec_tag)]
    pub fn tag(&self) -> (tag: u8)
        ensures
            tag == self.spec_tag(),
    {
        match self {
            Property::Id => 0,
            Property::Name => 1,
            Property::Description => 2,
            Property::Email => 3,
            Property::IsActive => 4,
            Property::ParentId => 5,
            Property::Role => 6,
            Property::SortOrder => 7,
            Property::MailboxIds => 8,
            Property::Keywords => 9,
            Property::ReceivedAt => 10,
            Property::Subject => 11,
            Property::Size => 12,
            Property::BlobId => 13,
            Property::ThreadId => 14,
            Property::DeviceClientId => 15,
            Property::Url => 16,
            Property::Keys => 17,
            Property::Expires => 18,
            Property::Types => 19,
            Property::VerificationCode => 20,
            Property::Value => 21,
            Property::Auth => 22,
            Property::P256dh => 23,
            Property::Ids => 24,
            Property::List => 25,
            Property::Created => 26,
            Property::Updated => 27,
            Property::Destroyed => 28,
            Property::Extension(_) => 255,
        }
    }

    /// The well-known property with the given tag, if there is one.
    pub fn from_tag(tag: u8) -> (r: Option<Property>)
        ensures
            match r {
                Some(property) => property@ == (PropertyView { tag, name: Seq::empty() }),
                None => tag > LAST_PROPERTY_TAG,
            },
            tag <= LAST_PROPERTY_TAG ==> r is Some,
    {
        match tag {
            0 => Some(Property::Id),
            1 => Some(Property::Name),
            2 => Some(Property::Description),
            3 => Some(Property::Email),
            4 => Some(Property::IsActive),
            5 => Some(Property::ParentId),
            6 => Some(Property::Role),
            7 => Some(Property::SortOrder),
            8 => Some(Property::MailboxIds),
            9 => Some(Property::Keywords),
            10 => Some(Property::ReceivedAt),
            11 => Some(Property::Subject),
            12 => Some(Property::Size),
            13 => Some(Property::BlobId),
            14 => Some(Property::ThreadId),
            15 => Some(Property::DeviceClientId),
            16 => Some(Property::Url),
            17 => Some(Property::Keys),
            18 => Some(Property::Expires),
            19 => Some(Property::Types),
            20 => Some(Property::VerificationCode),
            21 => Some(Property::Value),
            22 => Some(Property::Auth),
            23 => Some(Property::P256dh),
            24 => Some(Property::Ids),
            25 => Some(Property::List),
            26 => Some(Property::Created),
            27 => Some(Property::Updated),
            28 => Some(Property::Destroyed),
            _ => None,
        }
    }

    /// Appends the wire form of the property to `buf`.
    pub fn serialize_into(&self, buf: &mut Vec<u8>)
        ensures
            final(buf)@ == old(buf)@ + encode_property(self@),
            self@.wf(),
    {
        match self {
            Property::Extension(name) => {
                buf.push(EXTENSION_TAG);
                push_text(buf, name.as_str());
                assert(buf@ =~= old(buf)@ + encode_property(self@));
            },
            _ => {
                buf.push(self.tag());
                assert(buf@ =~= old(buf)@ + encode_property(self@));
            },
        }
    }

    /// Reads the property that starts at `bytes[at]`.
    pub fn deserialize_from(bytes: &[u8], at: usize) -> (r: Option<(Property, usize)>)
        ensures
            match (decode_property(bytes@, at as int), r) {
                (Some((property, next)), Some((got, end))) => got@ == property && end == next
                    && at < next <= bytes@.len(),
                (None, None) => true,
                _ => false,
            },
    {
        if at >= bytes.len() {
            return None;
        }
        let tag: u8 = bytes[at];
        if tag == EXTENSION_TAG {
            match next_text(bytes, at + 1) {
                Some((name, next)) => Some((Property::Extension(name), next)),
                None => None,
            }
        } else {
            match Property::from_tag(tag) {
                Some(property) => Some((property, at + 1)),
                None => None,
            }
        }
    }
}

impl Clone for Property {
    fn clone(&self) -> (r: Property)
        ensures
            r@ == self@,
    {
        match self {
            Property::Extension(name) => Property::Extension(name.clone()),
            _ => {
                let copy = Property::from_tag(self.tag());
                copy.unwrap()
            },
        }
    }
}

impl PartialEq for Property {
    fn eq(&self, other: &Property) -> (r: bool) {
        match (self, other) {
            (Property::Extension(a), Property::Extension(b)) => *a == *b,
            (Property::Extension(_), _) => false,
            (_, Property::Extension(_)) => false,
            _ => self.tag() == other.tag(),
        }
    }
}

impl PartialEqSpecImpl for Property {
    open spec fn obeys_eq_spec() -> bool {
        true
    }

    open spec fn eq_spec(&self, other: &Property) -> bool {
        self@ == other@
    }
}

} // verus!
