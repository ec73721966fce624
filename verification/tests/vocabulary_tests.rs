use steam_bridge::platform::{
    display_type_of, entries_from_platform, sort_method_of, PlatformDataRequest,
    PlatformDisplayType, PlatformEntry, PlatformSortMethod, PlatformUploadMethod,
};
use steam_bridge::vocabulary::{
    DataRequest, DisplayType, LeaderboardEntry, SortMethod, UploadScoreMethod,
};

#[test]
fn sort_method_maps_each_variant() {
    assert_eq!(PlatformSortMethod::from(SortMethod::Ascending), PlatformSortMethod::Ascending);
    assert_eq!(PlatformSortMethod::from(SortMethod::Descending), PlatformSortMethod::Descending);
    assert_eq!(SortMethod::from(PlatformSortMethod::Ascending), SortMethod::Ascending);
    assert_eq!(SortMethod::from(PlatformSortMethod::Descending), SortMethod::Descending);
}

#[test]
fn sort_method_round_trips() {
    for method in [SortMethod::Ascending, SortMethod::Descending] {
        assert_eq!(SortMethod::from(PlatformSortMethod::from(method)), method);
    }
    for reported in [PlatformSortMethod::Ascending, PlatformSortMethod::Descending] {
        assert_eq!(PlatformSortMethod::from(SortMethod::from(reported)), reported);
    }
}

#[test]
fn display_type_maps_each_variant() {
    assert_eq!(PlatformDisplayType::from(DisplayType::Numeric), PlatformDisplayType::Numeric);
    assert_eq!(
        PlatformDisplayType::from(DisplayType::TimeSeconds),
        PlatformDisplayType::TimeSeconds
    );
    assert_eq!(
        PlatformDisplayType::from(DisplayType::TimeMilliSeconds),
        PlatformDisplayType::TimeMilliSeconds
    );
    assert_eq!(DisplayType::from(PlatformDisplayType::Numeric), DisplayType::Numeric);
    assert_eq!(DisplayType::from(PlatformDisplayType::TimeSeconds), DisplayType::TimeSeconds);
    assert_eq!(
        DisplayType::from(PlatformDisplayType::TimeMilliSeconds),
        DisplayType::TimeMilliSeconds
    );
}

#[test]
fn display_type_round_trips() {
    for display in [DisplayType::Numeric, DisplayType::TimeSeconds, DisplayType::TimeMilliSeconds] {
        assert_eq!(DisplayType::from(PlatformDisplayType::from(display)), display);
    }
    for reported in [
        PlatformDisplayType::Numeric,
        PlatformDisplayType::TimeSeconds,
        PlatformDisplayType::TimeMilliSeconds,
    ] {
        assert_eq!(PlatformDisplayType::from(DisplayType::from(reported)), reported);
    }
}

#[test]
fn data_request_maps_each_variant() {
    assert_eq!(PlatformDataRequest::from(DataRequest::Global), PlatformDataRequest::Global);
    assert_eq!(
        PlatformDataRequest::from(DataRequest::GlobalAroundUser),
        PlatformDataRequest::GlobalAroundUser
    );
    assert_eq!(PlatformDataRequest::from(DataRequest::Friends), PlatformDataRequest::Friends);
    assert_eq!(DataRequest::from(PlatformDataRequest::Global), DataRequest::Global);
    assert_eq!(
        DataRequest::from(PlatformDataRequest::GlobalAroundUser),
        DataRequest::GlobalAroundUser
    );
    assert_eq!(DataRequest::from(PlatformDataRequest::Friends), DataRequest::Friends);
}

#[test]
fn data_request_round_trips() {
    for request in [DataRequest::Global, DataRequest::GlobalAroundUser, DataRequest::Friends] {
        assert_eq!(DataRequest::from(PlatformDataRequest::from(request)), request);
    }
    for reported in [
        PlatformDataRequest::Global,
        PlatformDataRequest::GlobalAroundUser,
        PlatformDataRequest::Friends,
    ] {
        assert_eq!(PlatformDataRequest::from(DataRequest::from(reported)), reported);
    }
}

#[test]
fn upload_method_maps_each_variant() {
    assert_eq!(
        PlatformUploadMethod::from(UploadScoreMethod::KeepBest),
        PlatformUploadMethod::KeepBest
    );
    assert_eq!(
        PlatformUploadMethod::from(UploadScoreMethod::ForceUpdate),
        PlatformUploadMethod::ForceUpdate
    );
    assert_eq!(
        UploadScoreMethod::from(PlatformUploadMethod::KeepBest),
        UploadScoreMethod::KeepBest
    );
    assert_eq!(
        UploadScoreMethod::from(PlatformUploadMethod::ForceUpdate),
        UploadScoreMethod::ForceUpdate
    );
}

#[test]
fn upload_method_round_trips() {
    for method in [UploadScoreMethod::KeepBest, UploadScoreMethod::ForceUpdate] {
        assert_eq!(UploadScoreMethod::from(PlatformUploadMethod::from(method)), method);
    }
    for reported in [PlatformUploadMethod::KeepBest, PlatformUploadMethod::ForceUpdate] {
        assert_eq!(PlatformUploadMethod::from(UploadScoreMethod::from(reported)), reported);
    }
}

#[test]
fn into_uses_the_same_mapping() {
    let reported: PlatformSortMethod = SortMethod::Descending.into();
    assert_eq!(reported, PlatformSortMethod::Descending);
    let method: UploadScoreMethod = PlatformUploadMethod::ForceUpdate.into();
    assert_eq!(method, UploadScoreMethod::ForceUpdate);
}

#[test]
fn reported_sort_method_is_translated_or_absent() {
    assert_eq!(sort_method_of(Some(PlatformSortMethod::Ascending)), Some(SortMethod::Ascending));
    assert_eq!(sort_method_of(Some(PlatformSortMethod::Descending)), Some(SortMethod::Descending));
    assert_eq!(sort_method_of(None), None);
}

#[test]
fn reported_display_type_is_translated_or_absent() {
    assert_eq!(display_type_of(Some(PlatformDisplayType::Numeric)), Some(DisplayType::Numeric));
    assert_eq!(
        display_type_of(Some(PlatformDisplayType::TimeMilliSeconds)),
        Some(DisplayType::TimeMilliSeconds)
    );
    assert_eq!(display_type_of(None), None);
}

#[test]
fn platform_entry_becomes_public_entry() {
    let record = PlatformEntry {
        user: 76_561_198_000_000_001,
        global_rank: 3,
        score: -15,
        details: vec![7, 8, 9],
    };
    assert_eq!(
        LeaderboardEntry::from(record),
        LeaderboardEntry {
            global_rank: 3,
            score: -15,
            steam_id: 76_561_198_000_000_001,
            details: vec![7, 8, 9],
        }
    );
}

#[test]
fn platform_entry_keeps_the_full_identifier_range() {
    let record = PlatformEntry { user: u64::MAX, global_rank: i32::MAX, score: i32::MIN, details: vec![] };
    let entry = LeaderboardEntry::from(record);
    assert_eq!(entry.steam_id, u64::MAX);
    assert_eq!(entry.global_rank, i32::MAX);
    assert_eq!(entry.score, i32::MIN);
    assert!(entry.details.is_empty());
}

#[test]
fn records_are_converted_in_order() {
    let records = vec![
        PlatformEntry { user: 10, global_rank: 1, score: 300, details: vec![1] },
        PlatformEntry { user: 20, global_rank: 2, score: 200, details: vec![] },
        PlatformEntry { user: 30, global_rank: 3, score: 100, details: vec![5, 6] },
    ];
    let entries = entries_from_platform(records);
    assert_eq!(
        entries,
        vec![
            LeaderboardEntry { global_rank: 1, score: 300, steam_id: 10, details: vec![1] },
            LeaderboardEntry { global_rank: 2, score: 200, steam_id: 20, details: vec![] },
            LeaderboardEntry { global_rank: 3, score: 100, steam_id: 30, details: vec![5, 6] },
        ]
    );
}

#[test]
fn no_records_give_no_entries() {
    assert_eq!(entries_from_platform(Vec::new()), Vec::<LeaderboardEntry>::new());
}
