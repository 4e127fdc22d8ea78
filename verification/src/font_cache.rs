//! The font cache: the files of the fonts that are loaded, shared by all who
//! read them.
//!
//! A cache is never changed where others may hold it. Taking a font in makes
//! a new cache, and the old one stays as it was for those who hold it.

use vstd::prelude::*;
use vstd::string::*;
use crate::hash::models;
use crate::replicate::{replicate_all, Replicate};
use crate::style::{Font, FontModel};

verus! {

/// The file of one font.
#[derive(Debug, PartialEq, Eq)]
pub struct FontData {
    pub font: Font,
    pub data: Vec<u8>,
}

/// The model of a [`FontData`].
pub struct FontDataModel {
    pub font: FontModel,
    pub data: Seq<u8>,
}

impl View for FontData {
    type V = FontDataModel;

    open spec fn view(&self) -> FontDataModel {
        FontDataModel { font: self.font@, data: self.data@ }
    }
}

impl Clone for FontData {
    fn clone(&self) -> (r: FontData)
        ensures
            r@ == self@,
    {
        FontData { font: self.font.clone(), data: self.data.clone() }
    }
}

impl Replicate for FontData {
    fn replicate(&self) -> (r: FontData) {
        self.clone()
    }
}

/// The files of the fonts that are loaded, in the order in which they were
/// loaded. No font has two files.
#[derive(Debug, PartialEq, Eq)]
pub struct FontCache {
    entries: Vec<FontData>,
}

/// The model of a [`FontCache`]: its entries in order.
pub struct FontCacheModel {
    pub entries: Seq<FontDataModel>,
}

impl View for FontCache {
    type V = FontCacheModel;

    closed spec fn view(&self) -> FontCacheModel {
        FontCacheModel { entries: models(self.entries@) }
    }
}

impl FontCacheModel {
    /// The cache without fonts.
    pub open spec fn empty() -> FontCacheModel {
        FontCacheModel { entries: Seq::empty() }
    }

    /// Whether the cache has a file for the font.
    pub open spec fn has(self, font: FontModel) -> bool {
        exists|i: int| 0 <= i < self.entries.len() && (#[trigger] self.entries[i]).font == font
    }

    /// Whether no font has two files.
    pub open spec fn well_formed(self) -> bool {
        forall|i: int, j: int|
            0 <= i < j < self.entries.len() ==> (#[trigger] self.entries[i]).font != (
            #[trigger] self.entries[j]).font
    }

    /// The place of a font in the cache, where it has a file.
    pub open spec fn position(self, font: FontModel) -> int {
        choose|i: int| 0 <= i < self.entries.len() && (#[trigger] self.entries[i]).font == font
    }

    /// The cache after a font was taken in: its file replaces the one that
    /// the font had, in its place, or comes last where the font had none.
    pub open spec fn with(self, font: FontModel, data: Seq<u8>) -> FontCacheModel {
        let entry = FontDataModel { font, data };
        if self.has(font) {
            FontCacheModel { entries: self.entries.update(self.position(font), entry) }
        } else {
            FontCacheModel { entries: self.entries.push(entry) }
        }
    }

    /// The file of a font, where the cache has one.
    pub open spec fn get(self, font: FontModel) -> Option<Seq<u8>> {
        if self.has(font) {
            Some(self.entries[self.position(font)].data)
        } else {
            None
        }
    }
}

/// Whether two fonts are the same: the same family and the same style.
pub fn same_font(a: &Font, b: &Font) -> (r: bool)
    ensures
        r == (a@ == b@),
{
    let r = a.family == b.family && a.style == b.style;
    assert(r == (a@ == b@)) by {
        if a@.family == b@.family && a@.style == b@.style {
            assert(a@ == b@);
        }
    }
    r
}

impl FontCache {
    #[verifier::type_invariant]
    pub closed spec fn holds_each_font_once(self) -> bool {
        self@.well_formed()
    }

    /// The cache without fonts.
    pub fn new() -> (r: FontCache)
        ensures
            r@ == FontCacheModel::empty(),
    {
        let entries: Vec<FontData> = Vec::new();
        assert(models(entries@) =~= Seq::<FontDataModel>::empty());
        FontCache { entries }
    }

    /// The number of fonts in the cache.
    pub fn len(&self) -> (r: usize)
        ensures
            r == self@.entries.len(),
            self@.well_formed(),
    {
        proof {
            use_type_invariant(self);
        }
        self.entries.len()
    }

    fn find(&self, font: &Font) -> (r: Option<usize>)
        ensures
            match r {
                Some(i) => i < self.entries.len() && self.entries@[i as int]@.font == font@
                    && self@.has(font@) && self@.position(font@) == i,
                None => !self@.has(font@),
            },
    {
        proof {
            use_type_invariant(self);
        }
        let mut i: usize = 0;
        while i < self.entries.len()
            invariant
                i <= self.entries.len(),
                self@.well_formed(),
                forall|j: int| 0 <= j < i ==> self.entries@[j]@.font != font@,
            decreases self.entries.len() - i,
        {
            if same_font(&self.entries[i].font, font) {
                proof {
                    let all = self@.entries;
                    assert(all[i as int].font == font@);
                    let p = self@.position(font@);
                    assert(all[p].font == font@);
                    if p < i {
                        assert(self.entries@[p]@.font != font@);
                    } else if p > i {
                        assert(all[i as int].font != all[p].font);
                    }
                }
                return Some(i);
            }
            i = i + 1;
        }
        proof {
            if self@.has(font@) {
                let p = self@.position(font@);
                assert(self.entries@[p]@.font == font@);
            }
        }
        None
    }

    /// Whether the cache has a file for the font.
    pub fn loaded_font(&self, font: &Font) -> (r: bool)
        ensures
            r == self@.has(font@),
    {
        self.find(font).is_some()
    }

    /// The file of a font, where the cache has one.
    pub fn get(&self, font: &Font) -> (r: Option<&Vec<u8>>)
        ensures
            match (r, self@.get(font@)) {
                (Some(data), Some(bytes)) => data@ == bytes,
                (None, None) => true,
                _ => false,
            },
    {
        match self.find(font) {
            Some(i) => Some(&self.entries[i].data),
            None => None,
        }
    }

    /// A new cache with a font taken in. This cache stays as it is.
    pub fn with(&self, font: Font, data: Vec<u8>) -> (r: FontCache)
        ensures
            r@ == self@.with(font@, data@),
    {
        proof {
            use_type_invariant(self);
        }
        let found = self.find(&font);
        let mut entries = replicate_all(&self.entries);
        let ghost before = models(entries@);
        let ghost entry = FontDataModel { font: font@, data: data@ };
        assert(before == self@.entries);
        match found {
            Some(i) => {
                assert(entries@.len() == before.len());
                entries.set(i, FontData { font, data });
                assert(models(entries@) =~= before.update(i as int, entry));
                let ghost after = models(entries@);
                assert forall|a: int, b: int| 0 <= a < b < after.len() implies (
                #[trigger] after[a]).font != (#[trigger] after[b]).font by {
                    assert(before[a].font != before[b].font);
                    assert(before[i as int].font == font@);
                }
                FontCache { entries }
            },
            None => {
                assert(entries@.len() == before.len());
                entries.push(FontData { font, data });
                assert(models(entries@) =~= before.push(entry));
                let ghost after = models(entries@);
                assert forall|a: int, b: int| 0 <= a < b < after.len() implies (
                #[trigger] after[a]).font != (#[trigger] after[b]).font by {
                    if b < before.len() {
                        assert(before[a].font != before[b].font);
                    } else {
                        assert(before[a].font != font@);
                    }
                }
                FontCache { entries }
            },
        }
    }

    /// The entries of the cache, in order.
    pub fn entries(&self) -> (r: &Vec<FontData>)
        ensures
            models(r@) == self@.entries,
    {
        &self.entries
    }

    /// A cache in memory has no more entries than a 64-bit number counts,
    /// and no file longer than that.
    pub proof fn lemma_entries_fit(&self)
        ensures
            self@.entries.len() <= u64::MAX,
            forall|i: int|
                0 <= i < self@.entries.len() ==> (#[trigger] self@.entries[i]).data.len()
                    <= u64::MAX,
    {
        assert(self.entries@.len() == self.entries.len());
        assert forall|i: int| 0 <= i < self@.entries.len() implies (
        #[trigger] self@.entries[i]).data.len() <= u64::MAX by {
            assert(self.entries@[i].data@.len() == self.entries@[i].data.len());
        }
    }
}

impl Clone for FontCache {
    fn clone(&self) -> (r: FontCache)
        ensures
            r@ == self@,
    {
        proof {
            use_type_invariant(self);
        }
        FontCache { entries: replicate_all(&self.entries) }
    }
}

impl Default for FontCache {
    fn default() -> (r: FontCache)
        ensures
            r@ == FontCacheModel::empty(),
    {
        FontCache::new()
    }
}

/// Taking a font in leaves every other font with its file, gives the font
/// the new file, and keeps every font at one file.
pub proof fn lemma_with(cache: FontCacheModel, font: FontModel, data: Seq<u8>)
    requires
        cache.well_formed(),
    ensures
        cache.with(font, data).well_formed(),
        cache.with(font, data).get(font) == Some(data),
        forall|other: FontModel|
            other != font ==> cache.with(font, data).get(other) == cache.get(other),
{
    let next = cache.with(font, data);
    let entry = FontDataModel { font, data };
    if cache.has(font) {
        let p = cache.position(font);
        assert(next.entries[p] == entry);
        assert(next.has(font));
        assert forall|a: int, b: int| 0 <= a < b < next.entries.len() implies (
        #[trigger] next.entries[a]).font != (#[trigger] next.entries[b]).font by {
            assert(cache.entries[a].font != cache.entries[b].font);
        }
        let q = next.position(font);
        if q != p {
            assert(next.entries[q].font == next.entries[p].font);
        }
        assert forall|other: FontModel| other != font implies next.get(other) == cache.get(
            other,
        ) by {
            lemma_with_keeps(cache, next, other);
        }
    } else {
        let p = cache.entries.len() as int;
        assert(next.entries[p] == entry);
        assert(next.has(font));
        assert forall|a: int, b: int| 0 <= a < b < next.entries.len() implies (
        #[trigger] next.entries[a]).font != (#[trigger] next.entries[b]).font by {
            if b < p {
                assert(cache.entries[a].font != cache.entries[b].font);
            } else {
                assert(cache.entries[a].font != font);
            }
        }
        let q = next.position(font);
        if q != p {
            assert(cache.entries[q].font == font);
        }
        assert forall|other: FontModel| other != font implies next.get(other) == cache.get(
            other,
        ) by {
            lemma_with_keeps(cache, next, other);
        }
    }
}

proof fn lemma_with_keeps(cache: FontCacheModel, next: FontCacheModel, other: FontModel)
    requires
        cache.well_formed(),
        next.well_formed(),
        next.entries.len() >= cache.entries.len(),
        forall|i: int|
            0 <= i < cache.entries.len() && (#[trigger] cache.entries[i]).font == other
                ==> next.entries[i] == cache.entries[i],
        forall|i: int|
            0 <= i < next.entries.len() && (#[trigger] next.entries[i]).font == other ==> i
                < cache.entries.len() && cache.entries[i] == next.entries[i],
    ensures
        next.get(other) == cache.get(other),
{
    if cache.has(other) {
        let p = cache.position(other);
        assert(next.entries[p].font == other);
        let q = next.position(other);
        if q != p {
            if q < p {
                assert(next.entries[q].font != next.entries[p].font);
            } else {
                assert(next.entries[p].font != next.entries[q].font);
            }
        }
    } else if next.has(other) {
        let q = next.position(other);
        assert(cache.entries[q].font == other);
    }
}

} // verus!
