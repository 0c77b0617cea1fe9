use cipollino_client::assets::{palette_on_open, AssetKind, AssetList, AssetRef, AssetSelection, PaletteOpen};
use cipollino_client::names::sort_by_name;
use cipollino_client::panels::{
    ColorsPanel, DebugPanel, DockingLayoutPref, OnionSkinFutureColor, OnionSkinPastColor, Panel,
    PanelKind, ToolSettings,
};
use cipollino_client::recents::UserPref;
use cipollino_client::scene::{render_list, rendered_strokes, LayerScene};

#[test]
fn panel_names_round_trip() {
    for debug_build in [false, true] {
        for kind in PanelKind::all(debug_build) {
            assert!(PanelKind::from_name(kind.name(), debug_build) == Some(kind));
        }
    }
    assert_eq!(PanelKind::all(true).len(), 5);
    assert_eq!(PanelKind::all(false).len(), 4);
}

#[test]
fn unknown_panel_names() {
    assert!(PanelKind::from_name("Colors", true).is_none());
    assert!(PanelKind::from_name("assets", true).is_none());
    assert!(PanelKind::from_name("", true).is_none());
    assert!(PanelKind::from_name("Tool Settings", false) == Some(PanelKind::ToolSettings));
}

#[test]
fn panel_titles() {
    assert_eq!(ColorsPanel::default().title(), "Colors");
    assert_eq!(ColorsPanel::name(), "Colors");
    let debug = DebugPanel::default();
    assert!(!debug.request_redraw);
    assert_eq!(debug.title(), "Debug");
    assert_eq!(ToolSettings::default().title(), "Tool Settings");
    assert_eq!(ToolSettings::name(), "Tool Settings");
}

#[test]
fn preference_names() {
    assert_eq!(DockingLayoutPref::name(), "docking_layout");
    assert_eq!(OnionSkinPastColor::name(), "onion_skin_past_color");
    assert_eq!(OnionSkinFutureColor::name(), "onion_skin_future_color");
}

fn asset(kind: AssetKind, ptr: u64) -> AssetRef {
    AssetRef { kind, ptr }
}

#[test]
fn asset_transfer_goes_kind_by_kind() {
    let mut list = AssetList::single(asset(AssetKind::AudioClip, 4));
    list.add(asset(AssetKind::Clip, 2));
    list.add(asset(AssetKind::Folder, 1));
    list.add(asset(AssetKind::Palette, 3));
    let steps = list.transfer(Some(7));
    let got: Vec<(u64, Option<u64>)> = steps.iter().map(|s| (s.asset.ptr, s.new_folder)).collect();
    assert_eq!(got, vec![(1, Some(7)), (2, Some(7)), (3, Some(7)), (4, Some(7))]);
}

#[test]
fn asset_delete_needs_every_asset_deletable() {
    let mut list = AssetList::new();
    list.add(asset(AssetKind::Folder, 1));
    list.add(asset(AssetKind::Clip, 2));
    let all_ok = |_: AssetRef| true;
    let deleted = list.try_delete(&all_ok).unwrap();
    assert_eq!(deleted.len(), 2);
    assert!(deleted[0] == asset(AssetKind::Folder, 1));
    let clip_in_use = |a: AssetRef| a.kind != AssetKind::Clip;
    assert!(list.try_delete(&clip_in_use).is_none());
}

#[test]
fn asset_selection_transfer_and_delete() {
    let mut sel = AssetSelection::single(asset(AssetKind::Clip, 5));
    sel.select(asset(AssetKind::Folder, 6));
    let steps = AssetSelection { folders: sel.folders.clone(), clips: sel.clips.clone() }.transfer(None);
    let got: Vec<u64> = steps.iter().map(|s| s.asset.ptr).collect();
    assert_eq!(got, vec![6, 5]);
    assert!(steps.iter().all(|s| s.new_folder.is_none()));
    let no = |_: AssetRef| false;
    assert!(sel.try_delete(&no).is_none());
}

#[test]
fn assets_listed_once_each() {
    let mut list = AssetList::new();
    list.add(asset(AssetKind::Clip, 2));
    list.add(asset(AssetKind::Clip, 2));
    list.add(asset(AssetKind::Palette, 2));
    let all = list.assets();
    assert_eq!(all.len(), 2);
}

#[test]
fn names_sorted() {
    let items = vec![("b".to_string(), 1), ("A".to_string(), 2), ("a".to_string(), 3), ("ab".to_string(), 4), ("a".to_string(), 5)];
    let sorted = sort_by_name(items);
    let got: Vec<(String, u64)> = sorted;
    assert_eq!(
        got,
        vec![
            ("A".to_string(), 2),
            ("a".to_string(), 3),
            ("a".to_string(), 5),
            ("ab".to_string(), 4),
            ("b".to_string(), 1)
        ]
    );
}

#[test]
fn names_sorted_like_strings() {
    let names = ["Layer 10", "Layer 2", "layer", "Ünicode", "Zed", ""];
    let items: Vec<(String, u64)> = names.iter().enumerate().map(|(i, n)| (n.to_string(), i as u64)).collect();
    let mut expected: Vec<String> = names.iter().map(|n| n.to_string()).collect();
    expected.sort();
    let got: Vec<String> = sort_by_name(items).into_iter().map(|(n, _)| n).collect();
    assert_eq!(got, expected);
}

#[test]
fn scene_draws_bottom_layer_first() {
    let layers = vec![
        LayerScene { hidden: false, scene: Some(vec![1, 2]) },
        LayerScene { hidden: true, scene: Some(vec![3]) },
        LayerScene { hidden: false, scene: None },
        LayerScene { hidden: false, scene: Some(vec![4, 5, 6]) },
    ];
    let list = render_list(&layers);
    assert_eq!(list, vec![6, 5, 4, 2, 1]);
    let set = rendered_strokes(&list);
    assert_eq!(set.len(), 5);
    assert!(set.contains(&4) && !set.contains(&3));
}

#[test]
fn opening_a_palette_adds_it_to_the_open_clip() {
    assert_eq!(
        palette_on_open(7, Some(3), Some(None)),
        Some(PaletteOpen::CreateInner { palette: 7, clip: 3 })
    );
    assert_eq!(
        palette_on_open(7, Some(3), Some(Some(9))),
        Some(PaletteOpen::LoadInner { inner: 9, clip: 3 })
    );
    assert_eq!(palette_on_open(7, None, Some(Some(9))), None);
    assert_eq!(palette_on_open(7, Some(3), None), None);
}
