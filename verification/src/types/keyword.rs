//! Message flags in the style of IMAP keywords.

use vstd::prelude::*;
use crate::codec::text::decode_name;
use crate::codec::text::encode_name;
use crate::codec::text::next_text;
use crate::codec::text::push_text;
use crate::codec::text::utf8_len;

verus! {

/// The tag of the last system keyword.
pub const LAST_KEYWORD_TAG: u8 = 11;

/// The tag that announces the text of a custom keyword.
pub const OTHER_KEYWORD_TAG: u8 = 255;

/// A flag on a message: one of the system flags, each with a tag of its
/// own, or a custom flag carried as text.
#[derive(Debug, PartialEq, Eq)]
pub enum Keyword {
    Seen,
    Draft,
    Flagged,
    Answered,
    Recent,
    Important,
    Phishing,
    Junk,
    NotJunk,
    Deleted,
    Forwarded,
    MdnSent,
    Other(String),
}

/// A keyword as contracts see it: its wire tag, and the text that follows
/// the tag of a custom keyword (empty for a system one).
pub struct KeywordView {
    pub tag: u8,
    pub name: Seq<char>,
}

impl KeywordView {
    /// Whether such a keyword exists and can be written to the wire.
    pub open spec fn wf(self) -> bool {
        &&& self.tag == OTHER_KEYWORD_TAG || (self.tag <= LAST_KEYWORD_TAG && self.name
            == Seq::<char>::empty())
        &&& utf8_len(self.name) <= u64::MAX
    }
}

/// The wire form of a keyword.
pub open spec fn encode_keyword(keyword: KeywordView) -> Seq<u8> {
    encode_name(keyword.tag, keyword.name, OTHER_KEYWORD_TAG)
}

/// The keyword at `bytes[at..]` and the position after it; `None` on an
/// unknown tag, truncated input or text that is not UTF-8.
pub open spec fn decode_keyword(bytes: Seq<u8>, at: int) -> Option<(KeywordView, int)> {
    match decode_name(bytes, at, LAST_KEYWORD_TAG, OTHER_KEYWORD_TAG) {
        Some((tag, name, next)) => Some((KeywordView { tag, name }, next)),
        None => None,
    }
}

impl View for Keyword {
    type V = KeywordView;

    open spec fn view(&self) -> KeywordView {
        KeywordView {
            tag: self.spec_tag(),
            name: match self {
                Keyword::Other(name) => name@,
                _ => Seq::empty(),
            },
        }
    }
}

impl Keyword {
    /// The small integer that stands for the keyword on the wire.
    pub open spec fn spec_tag(&self) -> u8 {
        match self {
            Keyword::Seen => 0,
            Keyword::Draft => 1,
            Keyword::Flagged => 2,
            Keyword::Answered => 3,
            Keyword::Recent => 4,
            Keyword::Important => 5,
            Keyword::Phishing => 6,
            Keyword::Junk => 7,
            Keyword::NotJunk => 8,
            Keyword::Deleted => 9,
            Keyword::Forwarded => 10,
            Keyword::MdnSent => 11,
            Keyword::Other(_) => 255,
        }
    }

    #[verifier::when_used_as_spec(spec_tag)]
    pub fn tag(&self) -> (tag: u8)
        ensures
            tag == self.spec_tag(),
    {
        match self {
            Keyword::Seen => 0,
            Keyword::Draft => 1,
            Keyword::Flagged => 2,
            Keyword::Answered => 3,
            Keyword::Recent => 4,
            Keyword::Important => 5,
            Keyword::Phishing => 6,
            Keyword::Junk => 7,
            Keyword::NotJunk => 8,
            Keyword::Deleted => 9,
            Keyword::Forwarded => 10,
            Keyword::MdnSent => 11,
            Keyword::Other(_) => 255,
        }
    }

    /// The system keyword with the given tag, if there is one.
    pub fn from_tag(tag: u8) -> (r: Option<Keyword>)
        ensures
            match r {
                Some(keyword) => keyword@ == (KeywordView { tag, name: Seq::empty() }),
                None => tag > LAST_KEYWORD_TAG,
            },
            tag <= LAST_KEYWORD_TAG ==> r is Some,
    {
        match tag {
            0 => Some(Keyword::Seen),
            1 => Some(Keyword::Draft),
            2 => Some(Keyword::Flagged),
            3 => Some(Keyword::Answered),
            4 => Some(Keyword::Recent),
            5 => Some(Keyword::Important),
            6 => Some(Keyword::Phishing),
            7 => Some(Keyword::Junk),
            8 => Some(Keyword::NotJunk),
            9 => Some(Keyword::Deleted),
            10 => Some(Keyword::Forwarded),
            11 => Some(Keyword::MdnSent),
            _ => None,
        }
    }

    /// Appends the wire form of the keyword to `buf`.
    pub fn serialize_into(&self, buf: &mut Vec<u8>)
        ensures
            final(buf)@ == old(buf)@ + encode_keyword(self@),
            self@.wf(),
    {
        match self {
            Keyword::Other(name) => {
                buf.push(OTHER_KEYWORD_TAG);
                push_text(buf, name.as_str());
                assert(buf@ =~= old(buf)@ + encode_keyword(self@));
            },
            _ => {
                buf.push(self.tag());
                assert(buf@ =~= old(buf)@ + encode_keyword(self@));
            },
        }
    }

    /// Reads the keyword that starts at `bytes[at]`.
    pub fn deserialize_from(bytes: &[u8], at: usize) -> (r: Option<(Keyword, usize)>)
        ensures
            match (decode_keyword(bytes@, at as int), r) {
                (Some((keyword, next)), Some((got, end))) => got@ == keyword && end == next
                    && at < next <= bytes@.len(),
                (None, None) => true,
                _ => false,
            },
    {
        if at >= bytes.len() {
            return None;
        }
        let tag: u8 = bytes[at];
        if tag == OTHER_KEYWORD_TAG {
            match next_text(bytes, at + 1) {
                Some((name, next)) => Some((Keyword::Other(name), next)),
                None => None,
            }
        } else {
            match Keyword::from_tag(tag) {
                Some(keyword) => Some((keyword, at + 1)),
                None => None,
            }
        }
    }
}

impl Clone for Keyword {
    fn clone(&self) -> (r: Keyword)
        ensures
            r@ == self@,
    {
        match self {
            Keyword::Other(name) => Keyword::Other(name.clone()),
            _ => {
                let copy = Keyword::from_tag(self.tag());
                copy.unwrap()
            },
        }
    }
}

} // verus!
