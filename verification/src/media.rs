//! Paper sizes and margins returned by `GetAllOptions`.

use vstd::prelude::*;
use crate::search::lemma_first_with;
use crate::proxy::{RawMargin, RawMedia};
use crate::text::str_eq;

verus! {

/// Margin values for a paper size, in hundredths of a millimetre.
#[derive(Debug, Clone)]
pub struct MarginInfo {
    /// Left margin.
    pub left: i32,
    /// Right margin.
    pub right: i32,
    /// Top margin.
    pub top: i32,
    /// Bottom margin.
    pub bottom: i32,
}

/// A single supported paper size with its dimensions and available margins.
#[derive(Debug, Clone)]
pub struct MediaInfo {
    /// The media name (e.g. `"iso_a4_210x297mm"`).
    pub name: String,
    /// Width in hundredths of a millimetre.
    pub width: i32,
    /// Length in hundredths of a millimetre.
    pub length: i32,
    /// Available margin configurations for this media.
    pub margins: Vec<MarginInfo>,
}

/// An owned collection of all paper sizes supported by a printer.
#[derive(Debug, Clone, Default)]
pub struct MediaCollection {
    /// All supported media entries, in the order the backend reported them.
    pub media: Vec<MediaInfo>,
}

/// `m` carries exactly the four margins of the raw record `r`.
pub open spec fn margin_from_raw(m: MarginInfo, r: RawMargin) -> bool {
    m.left == r.left && m.right == r.right && m.top == r.top && m.bottom == r.bottom
}

/// `m` carries exactly the data of the raw record `r`: name, size and
/// every margin set, in order.
pub open spec fn media_from_raw(m: MediaInfo, r: RawMedia) -> bool {
    &&& m.name == r.name
    &&& m.width == r.width
    &&& m.length == r.length
    &&& m.margins@.len() == r.margins@.len()
    &&& forall|i: int| 0 <= i < r.margins@.len() ==> margin_from_raw(#[trigger] m.margins@[i], r.margins@[i])
}

/// The position of the first media entry named `name`, or `None`.
pub open spec fn first_media_named(media: Seq<MediaInfo>, name: Seq<char>) -> Option<int> {
    if exists|i: int| 0 <= i < media.len() && media[i].name@ == name {
        Some(choose|i: int| 0 <= i < media.len() && media[i].name@ == name
            && forall|j: int| 0 <= j < i ==> media[j].name@ != name)
    } else {
        None
    }
}

impl MediaInfo {
    /// Builds the media entry that a raw `GetAllOptions` record describes.
    pub fn from_raw(r: &RawMedia) -> (m: MediaInfo)
        ensures
            media_from_raw(m, *r),
    {
        let mut margins: Vec<MarginInfo> = Vec::new();
        let mut i: usize = 0;
        while i < r.margins.len()
            invariant
                i <= r.margins@.len(),
                margins@.len() == i,
                forall|j: int| 0 <= j < i ==> margin_from_raw(#[trigger] margins@[j], r.margins@[j]),
            decreases r.margins@.len() - i,
        {
            let rm = &r.margins[i];
            margins.push(MarginInfo { left: rm.left, right: rm.right, top: rm.top, bottom: rm.bottom });
            i = i + 1;
        }
        MediaInfo { name: r.name.clone(), width: r.width, length: r.length, margins }
    }
}

impl MediaCollection {
    /// Builds a collection from the media records of a `GetAllOptions`
    /// reply, one entry per record, in the same order.
    pub fn from_dbus(raw: Vec<RawMedia>) -> (r: Self)
        ensures
            r.media@.len() == raw@.len(),
            forall|i: int| 0 <= i < raw@.len() ==> media_from_raw(#[trigger] r.media@[i], raw@[i]),
    {
        let mut media: Vec<MediaInfo> = Vec::new();
        let mut i: usize = 0;
        while i < raw.len()
            invariant
                i <= raw@.len(),
                media@.len() == i,
                forall|j: int| 0 <= j < i ==> media_from_raw(#[trigger] media@[j], raw@[j]),
            decreases raw@.len() - i,
        {
            media.push(MediaInfo::from_raw(&raw[i]));
            i = i + 1;
        }
        MediaCollection { media }
    }

    /// Returns the number of media entries.
    pub fn len(&self) -> (r: usize)
        ensures
            r == self.media@.len(),
    {
        self.media.len()
    }

    /// Returns `true` if the collection contains no media entries.
    pub fn is_empty(&self) -> (r: bool)
        ensures
            r == (self.media@.len() == 0),
    {
        self.media.len() == 0
    }

    /// Finds the first media entry with the given name.
    pub fn get(&self, name: &str) -> (r: Option<&MediaInfo>)
        ensures
            match first_media_named(self.media@, name@) {
                Some(i) => r == Some(&self.media@[i]),
                None => r is None,
            },
    {
        let mut i: usize = 0;
        while i < self.media.len()
            invariant
                i <= self.media@.len(),
                forall|j: int| 0 <= j < i ==> self.media@[j].name@ != name@,
            decreases self.media@.len() - i,
        {
            if str_eq(self.media[i].name.as_str(), name) {
                proof {
                    let w = choose|w: int| 0 <= w < self.media@.len() && self.media@[w].name@ == name@
                        && forall|j: int| 0 <= j < w ==> self.media@[j].name@ != name@;
                    assert(w == i);
                }
                return Some(&self.media[i]);
            }
            i = i + 1;
        }
        None
    }

    /// Returns an iterator over all media entries, in order.
    pub fn iter(&self) -> (r: std::slice::Iter<'_, MediaInfo>)
        ensures
            vstd::std_specs::iter::IteratorSpec::remaining(&r) == self.media@.as_ref(),
    {
        self.media.iter()
    }
}

/// A collection built from a reply finds every media entry of the reply by its
/// name: the lookup gives the first record with that name, at or before
/// the record asked about; and a name that no record has is not found.
pub proof fn law_reply_media_are_found(collection: Seq<MediaInfo>, raw: Seq<RawMedia>, k: int, name: Seq<char>)
    requires
        collection.len() == raw.len(),
        forall|i: int| 0 <= i < raw.len() ==> media_from_raw(#[trigger] collection[i], raw[i]),
    ensures
        0 <= k < raw.len() ==> (first_media_named(collection, raw[k].name@) matches Some(j)
            && 0 <= j <= k && media_from_raw(collection[j], raw[j])
            && raw[j].name@ == raw[k].name@),
        (forall|i: int| 0 <= i < raw.len() ==> raw[i].name@ != name) ==> first_media_named(collection, name) is None,
{
    if 0 <= k < raw.len() {
        assert(media_from_raw(collection[k], raw[k]));
        lemma_first_with(collection, |m: MediaInfo| m.name@ == raw[k].name@, k);
        let j = choose|j: int| 0 <= j < collection.len() && collection[j].name@ == raw[k].name@
            && forall|t: int| 0 <= t < j ==> collection[t].name@ != raw[k].name@;
        assert(media_from_raw(collection[j], raw[j]));
        if j > k {
            assert(collection[k].name@ != raw[k].name@);
        }
    }
    if forall|i: int| 0 <= i < raw.len() ==> raw[i].name@ != name {
        assert forall|i: int| 0 <= i < collection.len() implies collection[i].name@ != name by {
            assert(media_from_raw(collection[i], raw[i]));
        }
    }
}

/// Every entry of a collection built from the media records of a reply
/// has the record's name and size, and each of its margin sets has the
/// record's left, right, top and bottom margins, in the same order.
pub proof fn law_reply_media_fields_are_kept(collection: Seq<MediaInfo>, raw: Seq<RawMedia>)
    requires
        collection.len() == raw.len(),
        forall|i: int| 0 <= i < raw.len() ==> media_from_raw(#[trigger] collection[i], raw[i]),
    ensures
        forall|i: int| 0 <= i < raw.len() ==> {
            &&& (#[trigger] collection[i]).name == raw[i].name
            &&& collection[i].width == raw[i].width
            &&& collection[i].length == raw[i].length
            &&& collection[i].margins@.len() == raw[i].margins@.len()
        },
        forall|i: int, j: int| 0 <= i < raw.len() && 0 <= j < raw[i].margins@.len() ==> {
            &&& (#[trigger] collection[i].margins@[j]).left == raw[i].margins@[j].left
            &&& collection[i].margins@[j].right == raw[i].margins@[j].right
            &&& collection[i].margins@[j].top == raw[i].margins@[j].top
            &&& collection[i].margins@[j].bottom == raw[i].margins@[j].bottom
        },
{
    assert forall|i: int, j: int| 0 <= i < raw.len() && 0 <= j < raw[i].margins@.len() implies {
        &&& (#[trigger] collection[i].margins@[j]).left == raw[i].margins@[j].left
        &&& collection[i].margins@[j].right == raw[i].margins@[j].right
        &&& collection[i].margins@[j].top == raw[i].margins@[j].top
        &&& collection[i].margins@[j].bottom == raw[i].margins@[j].bottom
    } by {
        assert(media_from_raw(collection[i], raw[i]));
        assert(margin_from_raw(collection[i].margins@[j], raw[i].margins@[j]));
    }
}

} // verus!
