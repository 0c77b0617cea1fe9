//! Lists of assets (folders, clips, palettes and audio clips) being dragged or deleted.
use std::collections::HashSet;
use vstd::prelude::*;

use crate::id_set::set_items;

verus! {

broadcast use vstd::std_specs::hash::group_hash_axioms;

/// The kinds of asset.
#[derive(Clone, Copy, PartialEq, Eq, Structural)]
pub enum AssetKind {
    Folder,
    Clip,
    Palette,
    AudioClip,
}

/// An asset, by kind and id.
#[derive(Clone, Copy, PartialEq, Eq, Structural)]
pub struct AssetRef {
    pub kind: AssetKind,
    pub ptr: u64,
}

/// One step of moving assets: the asset and the folder it moves into (`None` for the top).
#[derive(Clone, Copy)]
pub struct AssetTransfer {
    pub asset: AssetRef,
    pub new_folder: Option<u64>,
}

/// The order in which kinds are handled: folders, clips, palettes, audio clips.
pub open spec fn kind_rank(k: AssetKind) -> int {
    match k {
        AssetKind::Folder => 0,
        AssetKind::Clip => 1,
        AssetKind::Palette => 2,
        AssetKind::AudioClip => 3,
    }
}

/// `s` lists assets kind by kind, in the order of `kind_rank`.
pub open spec fn kinds_in_order(s: Seq<AssetRef>) -> bool {
    forall|i: int, j: int| 0 <= i < j < s.len() ==> kind_rank(s[i].kind) <= kind_rank(s[j].kind)
}

/// The assets of kind `kind` with the ids `ids`.
pub open spec fn refs_of(ids: Seq<u64>, kind: AssetKind) -> Seq<AssetRef> {
    ids.map_values(|p: u64| AssetRef { kind, ptr: p })
}

/// Appends every id of `ids` as an asset of kind `kind`.
fn push_refs(out: &mut Vec<AssetRef>, ids: &HashSet<u64>, kind: AssetKind)
    ensures
        exists|l: Seq<u64>|
            l.no_duplicates() && l.to_set() == ids@ && final(out)@ == old(out)@ + refs_of(l, kind),
{
    let items = set_items(ids);
    let ghost start = out@;
    for i in 0..items.len()
        invariant
            out@ == start + refs_of(items@.take(i as int), kind),
    {
        out.push(AssetRef { kind, ptr: items[i] });
        assert(out@ =~= start + refs_of(items@.take(i + 1), kind));
    }
    assert(items@.take(items@.len() as int) =~= items@);
}

/// Appending the distinct assets of one kind, ranked after every kind already listed, keeps
/// the list free of repeats and in kind order.
proof fn lemma_append_kind(s: Seq<AssetRef>, l: Seq<u64>, kind: AssetKind)
    requires
        s.no_duplicates(),
        kinds_in_order(s),
        forall|i: int| 0 <= i < s.len() ==> kind_rank(#[trigger] s[i].kind) < kind_rank(kind),
        l.no_duplicates(),
    ensures
        (s + refs_of(l, kind)).no_duplicates(),
        kinds_in_order(s + refs_of(l, kind)),
        forall|a: AssetRef|
            (s + refs_of(l, kind)).contains(a) <==> (s.contains(a) || (a.kind == kind
                && l.to_set().contains(a.ptr))),
{
    let t = s + refs_of(l, kind);
    assert forall|i: int, j: int| 0 <= i < t.len() && 0 <= j < t.len() && i != j implies t[i] != t[j] by {
        if i >= s.len() && j >= s.len() {
            assert(t[i].ptr == l[i - s.len()] && t[j].ptr == l[j - s.len()]);
        } else if i < s.len() && j >= s.len() {
            assert(t[j].kind == kind);
        } else if i >= s.len() && j < s.len() {
            assert(t[i].kind == kind);
        }
    }
    assert forall|a: AssetRef|
        t.contains(a) <==> (s.contains(a) || (a.kind == kind && l.to_set().contains(a.ptr))) by {
        if t.contains(a) {
            let i = choose|i: int| 0 <= i < t.len() && t[i] == a;
            if i >= s.len() {
                assert(l[i - s.len()] == a.ptr);
                assert(l.contains(a.ptr));
            } else {
                assert(s[i] == a);
            }
        }
        if s.contains(a) {
            let i = choose|i: int| 0 <= i < s.len() && s[i] == a;
            assert(t[i] == a);
        }
        if a.kind == kind && l.to_set().contains(a.ptr) {
            let k = choose|k: int| 0 <= k < l.len() && l[k] == a.ptr;
            assert(t[s.len() + k] == a);
        }
    }
}

/// Assets of the four kinds, by id.
pub struct AssetList {
    pub folders: HashSet<u64>,
    pub clips: HashSet<u64>,
    pub palettes: HashSet<u64>,
    pub audio_clips: HashSet<u64>,
}

impl AssetList {

    /// The ids of the listed assets of kind `kind`.
    pub open spec fn ids(&self, kind: AssetKind) -> Set<u64> {
        match kind {
            AssetKind::Folder => self.folders@,
            AssetKind::Clip => self.clips@,
            AssetKind::Palette => self.palettes@,
            AssetKind::AudioClip => self.audio_clips@,
        }
    }

    /// `s` lists the assets of `self`, each once, kind by kind.
    pub open spec fn listed_by(&self, s: Seq<AssetRef>) -> bool {
        &&& s.no_duplicates()
        &&& kinds_in_order(s)
        &&& forall|a: AssetRef| #[trigger] s.contains(a) <==> self.ids(a.kind).contains(a.ptr)
    }

    /// No assets.
    pub fn new() -> (r: Self)
        ensures
            forall|k: AssetKind| r.ids(k) == Set::<u64>::empty(),
    {
        AssetList {
            folders: HashSet::new(),
            clips: HashSet::new(),
            palettes: HashSet::new(),
            audio_clips: HashSet::new(),
        }
    }

    /// Adds an asset.
    pub fn add(&mut self, asset: AssetRef)
        ensures
            forall|k: AssetKind|
                final(self).ids(k) == if k == asset.kind {
                    old(self).ids(k).insert(asset.ptr)
                } else {
                    old(self).ids(k)
                },
    {
        match asset.kind {
            AssetKind::Folder => {
                self.folders.insert(asset.ptr);
            },
            AssetKind::Clip => {
                self.clips.insert(asset.ptr);
            },
            AssetKind::Palette => {
                self.palettes.insert(asset.ptr);
            },
            AssetKind::AudioClip => {
                self.audio_clips.insert(asset.ptr);
            },
        }
    }

    /// The list of just `asset`.
    pub fn single(asset: AssetRef) -> (r: Self)
        ensures
            forall|k: AssetKind|
                r.ids(k) == if k == asset.kind {
                    set![asset.ptr]
                } else {
                    Set::<u64>::empty()
                },
    {
        let mut r = Self::new();
        r.add(asset);
        assert(Set::<u64>::empty().insert(asset.ptr) =~= set![asset.ptr]);
        r
    }

    /// Every listed asset, once each: folders, then clips, palettes and audio clips.
    pub fn assets(&self) -> (r: Vec<AssetRef>)
        ensures
            self.listed_by(r@),
    {
        let mut r: Vec<AssetRef> = Vec::new();
        push_refs(&mut r, &self.folders, AssetKind::Folder);
        let ghost s1 = r@;
        proof {
            let l = choose|l: Seq<u64>|
                l.no_duplicates() && l.to_set() == self.folders@ && s1 == Seq::<AssetRef>::empty()
                    + refs_of(l, AssetKind::Folder);
            lemma_append_kind(Seq::empty(), l, AssetKind::Folder);
        }
        push_refs(&mut r, &self.clips, AssetKind::Clip);
        let ghost s2 = r@;
        proof {
            let l = choose|l: Seq<u64>|
                l.no_duplicates() && l.to_set() == self.clips@ && s2 == s1 + refs_of(l, AssetKind::Clip);
            lemma_append_kind(s1, l, AssetKind::Clip);
        }
        push_refs(&mut r, &self.palettes, AssetKind::Palette);
        let ghost s3 = r@;
        proof {
            let l = choose|l: Seq<u64>|
                l.no_duplicates() && l.to_set() == self.palettes@ && s3 == s2 + refs_of(
                    l,
                    AssetKind::Palette,
                );
            lemma_append_kind(s2, l, AssetKind::Palette);
        }
        push_refs(&mut r, &self.audio_clips, AssetKind::AudioClip);
        proof {
            let l = choose|l: Seq<u64>|
                l.no_duplicates() && l.to_set() == self.audio_clips@ && r@ == s3 + refs_of(
                    l,
                    AssetKind::AudioClip,
                );
            lemma_append_kind(s3, l, AssetKind::AudioClip);
            assert forall|a: AssetRef| #[trigger] r@.contains(a) <==> self.ids(a.kind).contains(a.ptr) by {
                assert(!Seq::<AssetRef>::empty().contains(a));
            }
        }
        r
    }

    /// The steps that move every listed asset into the folder `new_parent` (`None` for the
    /// top), kind by kind.
    pub fn transfer(self, new_parent: Option<u64>) -> (r: Vec<AssetTransfer>)
        ensures
            self.listed_by(r@.map_values(|t: AssetTransfer| t.asset)),
            forall|i: int| 0 <= i < r@.len() ==> (#[trigger] r@[i]).new_folder == new_parent,
    {
        let assets = self.assets();
        let mut r: Vec<AssetTransfer> = Vec::new();
        for i in 0..assets.len()
            invariant
                r@.map_values(|t: AssetTransfer| t.asset) == assets@.take(i as int),
                forall|k: int| 0 <= k < r@.len() ==> (#[trigger] r@[k]).new_folder == new_parent,
        {
            let ghost before = r@;
            r.push(AssetTransfer { asset: assets[i], new_folder: new_parent });
            assert(r@ == before.push(AssetTransfer { asset: assets@[i as int], new_folder: new_parent }));
            assert(assets@.take(i + 1) =~= assets@.take(i as int).push(assets@[i as int]));
            assert(r@.map_values(|t: AssetTransfer| t.asset) =~= before.map_values(
                |t: AssetTransfer| t.asset,
            ).push(assets@[i as int]));
        }
        assert(assets@.take(assets@.len() as int) =~= assets@);
        r
    }

    /// The assets to delete, when every listed asset can be deleted; `can_delete` decides
    /// that for each asset. Nothing is deleted when one of them cannot be.
    pub fn try_delete<F: Fn(AssetRef) -> bool>(&self, can_delete: &F) -> (r: Option<Vec<AssetRef>>)
        requires
            forall|a: AssetRef| can_delete.requires((a,)),
        ensures
            match r {
                Some(v) => self.listed_by(v@) && forall|a: AssetRef|
                    #[trigger] self.ids(a.kind).contains(a.ptr) ==> can_delete.ensures((a,), true),
                None => exists|a: AssetRef|
                    #[trigger] self.ids(a.kind).contains(a.ptr) && can_delete.ensures((a,), false),
            },
    {
        let assets = self.assets();
        for i in 0..assets.len()
            invariant
                self.listed_by(assets@),
                forall|a: AssetRef| can_delete.requires((a,)),
                forall|k: int| 0 <= k < i ==> can_delete.ensures((#[trigger] assets@[k],), true),
        {
            if !can_delete(assets[i]) {
                assert(assets@.contains(assets@[i as int]));
                return None;
            }
        }
        assert forall|a: AssetRef| #[trigger] self.ids(a.kind).contains(a.ptr) implies can_delete.ensures(
            (a,),
            true,
        ) by {
            assert(assets@.contains(a));
            let k = choose|k: int| 0 <= k < assets@.len() && assets@[k] == a;
        }
        Some(assets)
    }
}

/// What opening a palette does to the open clip: give the palette an inner part first when it
/// has none, or load the one it has, and add that inner part to the clip's palettes.
#[derive(Clone, Copy, Debug, PartialEq, Eq, Structural)]
pub enum PaletteOpen {
    /// Create an inner part for the palette `palette`, then add it to the clip `clip`.
    CreateInner { palette: u64, clip: u64 },
    /// Load the inner part `inner`, then add it to the clip `clip`.
    LoadInner { inner: u64, clip: u64 },
}

/// Opening the palette `palette` while the clip whose inner part is `open_clip` (`None` where
/// the clip or its inner part is not loaded) is open. `palette_inner` is `None` where the
/// palette is not loaded, else the palette's inner part, `None` in it where it has none yet.
/// Nothing happens unless both the clip and the palette are loaded.
pub fn palette_on_open(palette: u64, open_clip: Option<u64>, palette_inner: Option<Option<u64>>) -> (r: Option<PaletteOpen>)
    ensures
        r == match (open_clip, palette_inner) {
            (Some(clip), Some(None)) => Some(PaletteOpen::CreateInner { palette, clip }),
            (Some(clip), Some(Some(inner))) => Some(PaletteOpen::LoadInner { inner, clip }),
            _ => None,
        },
{
    let clip = match open_clip {
        Some(clip) => clip,
        None => return None,
    };
    match palette_inner {
        Some(None) => Some(PaletteOpen::CreateInner { palette, clip }),
        Some(Some(inner)) => Some(PaletteOpen::LoadInner { inner, clip }),
        None => None,
    }
}

/// Folders and clips, by id.
pub struct AssetSelection {
    pub folders: HashSet<u64>,
    pub clips: HashSet<u64>,
}

impl AssetSelection {

    /// The ids of the selected assets of kind `kind`.
    pub open spec fn ids(&self, kind: AssetKind) -> Set<u64> {
        match kind {
            AssetKind::Folder => self.folders@,
            AssetKind::Clip => self.clips@,
            _ => Set::empty(),
        }
    }

    /// The same assets as a list of assets of every kind.
    pub fn into_list(self) -> (r: AssetList)
        ensures
            forall|k: AssetKind| r.ids(k) == self.ids(k),
    {
        AssetList {
            folders: self.folders,
            clips: self.clips,
            palettes: HashSet::new(),
            audio_clips: HashSet::new(),
        }
    }

    /// Adds a folder or a clip.
    pub fn select(&mut self, asset: AssetRef)
        requires
            asset.kind == AssetKind::Folder || asset.kind == AssetKind::Clip,
        ensures
            forall|k: AssetKind|
                final(self).ids(k) == if k == asset.kind {
                    old(self).ids(k).insert(asset.ptr)
                } else {
                    old(self).ids(k)
                },
    {
        match asset.kind {
            AssetKind::Folder => {
                self.folders.insert(asset.ptr);
            },
            _ => {
                self.clips.insert(asset.ptr);
            },
        }
    }

    /// The selection of just `asset`, a folder or a clip.
    pub fn single(asset: AssetRef) -> (r: Self)
        requires
            asset.kind == AssetKind::Folder || asset.kind == AssetKind::Clip,
        ensures
            forall|k: AssetKind|
                r.ids(k) == if k == asset.kind {
                    set![asset.ptr]
                } else {
                    Set::<u64>::empty()
                },
    {
        let mut r = AssetSelection { folders: HashSet::new(), clips: HashSet::new() };
        r.select(asset);
        assert(Set::<u64>::empty().insert(asset.ptr) =~= set![asset.ptr]);
        r
    }

    /// Every selected asset, once each: folders, then clips.
    pub fn assets(self) -> (r: Vec<AssetRef>)
        ensures
            r@.no_duplicates(),
            kinds_in_order(r@),
            forall|a: AssetRef| #[trigger] r@.contains(a) <==> self.ids(a.kind).contains(a.ptr),
    {
        let list = self.into_list();
        list.assets()
    }

    /// The steps that move every selected asset into the folder `new_parent` (`None` for the
    /// top), folders first.
    pub fn transfer(self, new_parent: Option<u64>) -> (r: Vec<AssetTransfer>)
        ensures
            ({
                let moved = r@.map_values(|t: AssetTransfer| t.asset);
                &&& moved.no_duplicates()
                &&& kinds_in_order(moved)
                &&& forall|a: AssetRef| #[trigger] moved.contains(a) <==> self.ids(a.kind).contains(a.ptr)
            }),
            forall|i: int| 0 <= i < r@.len() ==> (#[trigger] r@[i]).new_folder == new_parent,
    {
        self.into_list().transfer(new_parent)
    }

    /// The assets to delete, when every selected asset can be deleted; nothing is deleted when
    /// one of them cannot be.
    pub fn try_delete<F: Fn(AssetRef) -> bool>(self, can_delete: &F) -> (r: Option<Vec<AssetRef>>)
        requires
            forall|a: AssetRef| can_delete.requires((a,)),
        ensures
            match r {
                Some(v) => v@.no_duplicates() && kinds_in_order(v@) && (forall|a: AssetRef|
                    #[trigger] v@.contains(a) <==> self.ids(a.kind).contains(a.ptr)) && forall|a: AssetRef|
                    #[trigger] self.ids(a.kind).contains(a.ptr) ==> can_delete.ensures((a,), true),
                None => exists|a: AssetRef|
                    #[trigger] self.ids(a.kind).contains(a.ptr) && can_delete.ensures((a,), false),
            },
    {
        let list = self.into_list();
        list.try_delete(can_delete)
    }
}

} // verus!
