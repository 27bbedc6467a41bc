use dockm::dock::{Dockm, Location, Sections};
use dockm::entry::{FileData, StaticItem, TileData};
use dockm::error::DockError;

fn item(guid: u32, label: &str) -> StaticItem {
    StaticItem {
        guid,
        tile_type: "file-tile".to_owned(),
        tile_data: TileData {
            file_type: 32,
            file_data: FileData::new(label, 15),
            file_label: label.to_owned(),
            directory: None,
            display_as: None,
            arrangement: None,
        },
    }
}

fn guids(v: &Option<Vec<StaticItem>>) -> Vec<u32> {
    v.as_ref().unwrap().iter().map(|i| i.guid).collect()
}

fn doc_with(apps: Option<Vec<StaticItem>>) -> Dockm {
    Dockm {
        static_only: Some(false),
        persistent_apps: apps,
        persistent_others: Some(vec![item(90, "Downloads")]),
        recent_apps: Some(vec![]),
        static_apps: None,
        static_others: None,
    }
}

fn abc() -> Vec<StaticItem> {
    vec![item(1, "A"), item(2, "B"), item(3, "C")]
}

#[test]
fn insert_at_beginning() {
    let mut d = doc_with(Some(abc()));
    let r = d.add_item_to_section_with_location(item(9, "X"), Sections::PersistentApps, Location::Beginning);
    assert_eq!(r, Ok(()));
    assert_eq!(guids(&d.persistent_apps), vec![9, 1, 2, 3]);
}

#[test]
fn insert_at_end() {
    let mut d = doc_with(Some(abc()));
    let r = d.add_item_to_section_with_location(item(9, "X"), Sections::PersistentApps, Location::End);
    assert_eq!(r, Ok(()));
    assert_eq!(guids(&d.persistent_apps), vec![1, 2, 3, 9]);
}

#[test]
fn insert_at_middle_even_length() {
    let mut d = doc_with(Some(vec![item(1, "A"), item(2, "B")]));
    let r = d.add_item_to_section_with_location(item(9, "X"), Sections::PersistentApps, Location::Middle);
    assert_eq!(r, Ok(()));
    assert_eq!(guids(&d.persistent_apps), vec![1, 9, 2]);
}

#[test]
fn insert_at_middle_odd_length() {
    let mut d = doc_with(Some(abc()));
    let r = d.add_item_to_section_with_location(item(9, "X"), Sections::PersistentApps, Location::Middle);
    assert_eq!(r, Ok(()));
    assert_eq!(guids(&d.persistent_apps), vec![1, 9, 2, 3]);
}

#[test]
fn insert_into_empty_section_at_every_location() {
    for loc in [Location::Beginning, Location::Middle, Location::End] {
        let mut d = doc_with(Some(vec![]));
        let r = d.add_item_to_section_with_location(item(9, "X"), Sections::PersistentApps, loc);
        assert_eq!(r, Ok(()));
        assert_eq!(guids(&d.persistent_apps), vec![9]);
    }
}

#[test]
fn insert_into_missing_section_fails() {
    let mut d = doc_with(Some(abc()));
    let before = d.clone();
    let r = d.add_item_to_section_with_location(item(9, "X"), Sections::StaticApps, Location::Beginning);
    assert_eq!(r, Err(DockError::SectionMissing(Sections::StaticApps)));
    assert_eq!(d, before);
    assert!(d.static_apps.is_none());
    match r {
        Err(DockError::SectionMissing(s)) => assert_eq!(s.key(), "static-apps"),
        _ => panic!("expected a missing section"),
    }
}

#[test]
fn append_to_section() {
    let mut d = doc_with(Some(abc()));
    let r = d.add_item_to_section(item(9, "X"), Sections::PersistentApps);
    assert_eq!(r, Ok(()));
    assert_eq!(guids(&d.persistent_apps), vec![1, 2, 3, 9]);
}

#[test]
fn append_to_missing_section_fails() {
    let mut d = doc_with(None);
    let before = d.clone();
    let r = d.add_item_to_section(item(9, "X"), Sections::PersistentApps);
    assert_eq!(r, Err(DockError::SectionMissing(Sections::PersistentApps)));
    assert_eq!(d, before);
}

#[test]
fn other_sections_untouched() {
    let mut d = doc_with(Some(abc()));
    let r = d.add_item_to_section_with_location(item(9, "X"), Sections::PersistentOthers, Location::Beginning);
    assert_eq!(r, Ok(()));
    assert_eq!(guids(&d.persistent_others), vec![9, 90]);
    assert_eq!(guids(&d.persistent_apps), vec![1, 2, 3]);
    assert_eq!(guids(&d.recent_apps), Vec::<u32>::new());
    assert!(d.static_apps.is_none());
    assert!(d.static_others.is_none());
    assert_eq!(d.static_only, Some(false));
}

#[test]
fn each_section_is_reached() {
    let all = [
        Sections::PersistentApps,
        Sections::PersistentOthers,
        Sections::RecentApps,
        Sections::StaticApps,
        Sections::StaticOther,
    ];
    for s in all {
        let mut d = Dockm {
            static_only: None,
            persistent_apps: Some(vec![]),
            persistent_others: Some(vec![]),
            recent_apps: Some(vec![]),
            static_apps: Some(vec![]),
            static_others: Some(vec![]),
        };
        assert_eq!(d.add_item_to_section(item(7, "Y"), s), Ok(()));
        let slots = [
            &d.persistent_apps,
            &d.persistent_others,
            &d.recent_apps,
            &d.static_apps,
            &d.static_others,
        ];
        for (t, slot) in all.iter().zip(slots.iter()) {
            let n = slot.as_ref().unwrap().len();
            assert_eq!(n, if *t == s { 1 } else { 0 });
        }
    }
}

#[test]
fn section_keys() {
    assert_eq!(Sections::PersistentApps.key(), "persistent-apps");
    assert_eq!(Sections::PersistentOthers.key(), "persistent-others");
    assert_eq!(Sections::RecentApps.key(), "recent-apps");
    assert_eq!(Sections::StaticApps.key(), "static-apps");
    assert_eq!(Sections::StaticOther.key(), "static-others");
}
