//! Choosing one asset of a release.
//!
//! Unattended, a pattern chooses: the first asset whose name it matches.
//! Interactively, a person chooses from the list of labels, and the choice
//! comes back as a position in that list.

use vstd::prelude::*;
use crate::github::{asset_views, Asset, AssetView, Renderable};
use crate::pattern::{regex_finds, AssetPattern};
use crate::search::{first_flagged, first_set, lemma_first_set_sound, lemma_first_set_upto};

verus! {

/// For each asset, whether `pattern` matches its name.
pub open spec fn name_flags(assets: Seq<AssetView>, pattern: Seq<char>) -> Seq<bool> {
    assets.map_values(|a: AssetView| regex_finds(pattern, a.name))
}

/// The position of the first asset whose name `pattern` matches.
pub open spec fn matching_index(assets: Seq<AssetView>, pattern: Seq<char>) -> Option<int> {
    first_set(name_flags(assets, pattern))
}

/// `found` is the element of `assets` at `index`, or nothing where there is
/// no index or it lies outside `assets`.
pub open spec fn is_asset_at(assets: Seq<Asset>, index: Option<int>, found: Option<&Asset>) -> bool {
    match index {
        Some(i) if 0 <= i < assets.len() => found == Some(&assets[i]),
        _ => found is None,
    }
}

/// The asset chosen by a pattern has a name that the pattern matches and
/// no asset before it has; no asset is chosen exactly when the pattern
/// matches no name.
pub proof fn lemma_matching_index_exact(assets: Seq<AssetView>, pattern: Seq<char>)
    ensures
        match matching_index(assets, pattern) {
            Some(i) => {
                &&& 0 <= i < assets.len()
                &&& regex_finds(pattern, assets[i].name)
                &&& forall|j: int| 0 <= j < i ==> !regex_finds(pattern, assets[j].name)
            },
            None => forall|j: int| 0 <= j < assets.len() ==> !regex_finds(pattern, assets[j].name),
        },
{
    let flags = name_flags(assets, pattern);
    lemma_first_set_sound(flags);
    match first_set(flags) {
        Some(i) => {
            assert forall|j: int| 0 <= j < i implies !regex_finds(pattern, assets[j].name) by {
                assert(!flags[j]);
            }
        },
        None => {
            assert forall|j: int| 0 <= j < assets.len() implies !regex_finds(pattern, assets[j].name) by {
                assert(!flags[j]);
            }
        },
    }
}

/// Of two assets whose names the pattern matches, the later one is never
/// the one chosen.
pub proof fn lemma_earlier_match_wins(assets: Seq<AssetView>, pattern: Seq<char>, earlier: int, later: int)
    requires
        0 <= earlier < later < assets.len(),
        regex_finds(pattern, assets[earlier].name),
        regex_finds(pattern, assets[later].name),
    ensures
        matching_index(assets, pattern) is Some,
        matching_index(assets, pattern).unwrap() <= earlier,
{
    let flags = name_flags(assets, pattern);
    assert(flags[earlier]);
    lemma_first_set_upto(flags, earlier);
}

/// For each asset, whether `pattern` matches its name.
pub fn mark_matching(assets: &[Asset], pattern: &AssetPattern) -> (flags: Vec<bool>)
    ensures
        flags@ == name_flags(asset_views(assets@), pattern@),
{
    let mut flags: Vec<bool> = Vec::new();
    let mut i: usize = 0;
    while i < assets.len()
        invariant
            i <= assets.len(),
            flags@ == name_flags(asset_views(assets@), pattern@).take(i as int),
        decreases assets.len() - i,
    {
        let hit = pattern.finds(assets[i].name.as_str());
        flags.push(hit);
        i += 1;
        assert(flags@ =~= name_flags(asset_views(assets@), pattern@).take(i as int));
    }
    assert(flags@ =~= name_flags(asset_views(assets@), pattern@));
    flags
}

/// The asset at the first set flag, where `flags` marks the assets one for
/// one. Nothing where no flag is set or the first set flag marks no asset.
pub fn first_marked<'a>(assets: &'a [Asset], flags: &[bool]) -> (found: Option<&'a Asset>)
    ensures
        is_asset_at(assets@, first_set(flags@), found),
{
    match first_flagged(flags) {
        Some(i) => if i < assets.len() {
            Some(&assets[i])
        } else {
            None
        },
        None => None,
    }
}

/// The first asset, in the order given, whose name `pattern` matches.
pub fn select_asset<'a>(assets: &'a [Asset], pattern: &AssetPattern) -> (found: Option<&'a Asset>)
    ensures
        match matching_index(asset_views(assets@), pattern@) {
            Some(i) => 0 <= i < assets.len() && found == Some(&assets@[i]),
            None => found is None,
        },
{
    let flags = mark_matching(assets, pattern);
    proof {
        lemma_first_set_sound(flags@);
    }
    first_marked(assets, flags.as_slice())
}

/// The labels of `items` as a chooser shows them, one for one and in the
/// same order.
pub fn labels<T: Renderable>(items: &[T]) -> (shown: Vec<String>)
    ensures
        shown@.len() == items@.len(),
        forall|i: int| 0 <= i < items@.len() ==> (#[trigger] shown@[i])@ == items@[i].label(),
{
    let render = T::get_render();
    let mut shown: Vec<String> = Vec::new();
    let mut i: usize = 0;
    while i < items.len()
        invariant
            i <= items.len(),
            shown@.len() == i,
            forall|k: int| 0 <= k < i ==> (#[trigger] shown@[k])@ == items@[k].label(),
        decreases items.len() - i,
    {
        shown.push(String::from_str(render.render(&items[i])));
        i += 1;
    }
    shown
}

/// The item that a choice among the labels of `items` stands for: the item
/// at the chosen position. Nothing where nothing was chosen, or where the
/// position is none of `items`.
pub fn chosen<'a, T>(items: &'a [T], choice: Option<usize>) -> (found: Option<&'a T>)
    ensures
        match choice {
            Some(i) if i < items@.len() => found == Some(&items@[i as int]),
            _ => found is None,
        },
{
    match choice {
        Some(i) => if i < items.len() {
            Some(&items[i])
        } else {
            None
        },
        None => None,
    }
}

/// The name a download is saved under: `output` where it is set, else the
/// asset's own name.
pub fn output_name<'a>(output: &'a Option<String>, asset: &'a Asset) -> (name: &'a str)
    ensures
        name@ == match *output {
            Some(given) => given@,
            None => asset.name@,
        },
{
    match output {
        Some(given) => given.as_str(),
        None => asset.name.as_str(),
    }
}

} // verus!
