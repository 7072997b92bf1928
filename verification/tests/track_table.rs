use player_core::keys::{down_event, left_event, up_event, Key};
use player_core::model::{
    App, IoEvent, KeyBindings, Library, Page, PlayContextId, PlayableId, PlaylistId, PlaylistItem,
    SavedTrackItem, ScrollableResultPages, SearchResults, TrackId, TrackItem, TrackTable,
    TrackTableContext, UserConfig,
};
use player_core::track_table::{
    handle_save_track_event, handler, jump_to_end, on_enter, on_queue, play_random_song,
};

fn bindings() -> UserConfig {
    UserConfig {
        keys: KeyBindings {
            next_page: Key::Ctrl('d'),
            previous_page: Key::Ctrl('u'),
            jump_to_start: Key::Ctrl('a'),
            jump_to_end: Key::Ctrl('e'),
            add_item_to_queue: Key::Char('z'),
        },
    }
}

fn base_app() -> App {
    App {
        track_table: TrackTable { context: None, selected_index: 0, tracks: vec![] },
        playlists: None,
        selected_playlist_index: None,
        active_playlist_index: None,
        playlist_tracks: None,
        made_for_you_tracks: None,
        playlist_offset: 0,
        made_for_you_offset: 0,
        made_for_you_index: 0,
        large_search_limit: 20,
        library: Library {
            saved_tracks: ScrollableResultPages { index: 0, pages: vec![] },
            made_for_you_playlists: ScrollableResultPages { index: 0, pages: vec![] },
        },
        search_results: SearchResults { selected_playlists_index: None, playlists: None },
        recommended_tracks: vec![],
        recommendations_context: None,
        recommendations_seed: String::new(),
        user_config: bindings(),
        sidebar_focused: false,
        pending_io: vec![],
    }
}

fn track(name: &str, id: Option<&str>) -> TrackItem {
    TrackItem { id: id.map(|s| TrackId { id: s.to_string() }), name: name.to_string() }
}

fn playlist(id: &str, tracks_total: u32) -> PlaylistItem {
    PlaylistItem { id: PlaylistId { id: id.to_string() }, tracks_total }
}

fn playlist_page(items: Vec<PlaylistItem>) -> Page<PlaylistItem> {
    let total = items.len() as u32;
    Page { items, total, offset: 0, limit: 20 }
}

#[test]
fn key_event_predicates_cover_vi_style_bindings() {
    assert!(down_event(Key::Down));
    assert!(down_event(Key::Char('j')));
    assert!(down_event(Key::Ctrl('n')));
    assert!(!down_event(Key::Char('J')));
    assert!(up_event(Key::Up));
    assert!(up_event(Key::Char('k')));
    assert!(left_event(Key::Left));
    assert!(left_event(Key::Char('h')));
}

#[test]
fn down_steps_and_wraps_the_selection() {
    let mut app = base_app();
    app.track_table.tracks = vec![track("a", None), track("b", None), track("c", None)];
    handler(Key::Char('j'), &mut app);
    assert_eq!(app.track_table.selected_index, 1);
    handler(Key::Char('j'), &mut app);
    assert_eq!(app.track_table.selected_index, 2);
    handler(Key::Char('j'), &mut app);
    assert_eq!(app.track_table.selected_index, 0);
    assert_eq!(app.pending_io, vec![]);
}

#[test]
fn up_wraps_to_the_last_row() {
    let mut app = base_app();
    app.track_table.tracks = vec![track("a", None), track("b", None), track("c", None)];
    handler(Key::Char('k'), &mut app);
    assert_eq!(app.track_table.selected_index, 2);
    handler(Key::Char('k'), &mut app);
    assert_eq!(app.track_table.selected_index, 1);
}

#[test]
fn high_middle_and_low_jump_on_screen() {
    let mut app = base_app();
    app.track_table.tracks = (0..7).map(|i| track(&format!("t{}", i), None)).collect();
    app.track_table.selected_index = 4;
    handler(Key::Char('H'), &mut app);
    assert_eq!(app.track_table.selected_index, 0);
    handler(Key::Char('M'), &mut app);
    assert_eq!(app.track_table.selected_index, 3);
    handler(Key::Char('L'), &mut app);
    assert_eq!(app.track_table.selected_index, 6);
}

#[test]
fn left_gives_focus_back_to_the_sidebar() {
    let mut app = base_app();
    handler(Key::Left, &mut app);
    assert!(app.sidebar_focused);
}

#[test]
fn down_at_the_last_row_loads_the_next_playlist_page() {
    let mut app = base_app();
    app.track_table.context = Some(TrackTableContext::MyPlaylists);
    app.track_table.tracks = vec![track("a", None), track("b", None)];
    app.track_table.selected_index = 1;
    app.playlists = Some(playlist_page(vec![playlist("pl1", 100)]));
    app.selected_playlist_index = Some(0);
    app.playlist_tracks = Some(Page { items: vec![], total: 100, offset: 0, limit: 20 });
    handler(Key::Down, &mut app);
    assert_eq!(app.playlist_offset, 20);
    assert_eq!(app.track_table.selected_index, 0);
    assert_eq!(
        app.pending_io,
        vec![IoEvent::GetPlaylistItems(PlaylistId { id: "pl1".to_string() }, 20)]
    );
}

#[test]
fn up_at_the_first_row_loads_the_previous_playlist_page() {
    let mut app = base_app();
    app.track_table.context = Some(TrackTableContext::MyPlaylists);
    app.track_table.tracks = vec![track("a", None), track("b", None)];
    app.playlist_offset = 40;
    app.playlists = Some(playlist_page(vec![playlist("pl1", 100)]));
    app.selected_playlist_index = Some(0);
    handler(Key::Up, &mut app);
    assert_eq!(app.playlist_offset, 20);
    assert_eq!(app.track_table.selected_index, 19);
    assert_eq!(
        app.pending_io,
        vec![IoEvent::GetPlaylistItems(PlaylistId { id: "pl1".to_string() }, 20)]
    );
}

#[test]
fn next_page_key_requests_the_following_page() {
    let mut app = base_app();
    app.track_table.context = Some(TrackTableContext::MyPlaylists);
    app.playlists = Some(playlist_page(vec![playlist("pl1", 50)]));
    app.selected_playlist_index = Some(0);
    app.playlist_tracks = Some(Page { items: vec![], total: 50, offset: 0, limit: 20 });
    handler(Key::Ctrl('d'), &mut app);
    assert_eq!(app.playlist_offset, 20);
    assert_eq!(
        app.pending_io,
        vec![IoEvent::GetPlaylistItems(PlaylistId { id: "pl1".to_string() }, 20)]
    );
}

#[test]
fn previous_page_key_steps_the_offset_back() {
    let mut app = base_app();
    app.track_table.context = Some(TrackTableContext::MyPlaylists);
    app.playlists = Some(playlist_page(vec![playlist("pl1", 50)]));
    app.selected_playlist_index = Some(0);
    app.playlist_offset = 40;
    handler(Key::Ctrl('u'), &mut app);
    assert_eq!(app.playlist_offset, 20);
    assert_eq!(
        app.pending_io,
        vec![IoEvent::GetPlaylistItems(PlaylistId { id: "pl1".to_string() }, 20)]
    );
}

#[test]
fn saved_tracks_paging_advances_fetched_pages_before_requesting_more() {
    let mut app = base_app();
    app.track_table.context = Some(TrackTableContext::SavedTracks);
    let page = |offset: u32| Page::<SavedTrackItem> { items: vec![], total: 90, offset, limit: 20 };
    app.library.saved_tracks.pages = vec![page(0), page(20)];
    handler(Key::Ctrl('d'), &mut app);
    assert_eq!(app.library.saved_tracks.index, 1);
    assert_eq!(app.pending_io, vec![]);
    handler(Key::Ctrl('d'), &mut app);
    assert_eq!(app.library.saved_tracks.index, 1);
    assert_eq!(app.pending_io, vec![IoEvent::GetCurrentSavedTracks(Some(40))]);
    handler(Key::Ctrl('u'), &mut app);
    assert_eq!(app.library.saved_tracks.index, 0);
}

#[test]
fn jump_to_end_moves_to_the_final_page_boundary() {
    let mut app = base_app();
    app.track_table.context = Some(TrackTableContext::MyPlaylists);
    app.playlists = Some(playlist_page(vec![playlist("pl1", 105)]));
    app.selected_playlist_index = Some(0);
    jump_to_end(&mut app);
    assert_eq!(app.playlist_offset, 100);
    assert_eq!(
        app.pending_io,
        vec![IoEvent::GetPlaylistItems(PlaylistId { id: "pl1".to_string() }, 100)]
    );
}

#[test]
fn jump_to_start_resets_the_offset() {
    let mut app = base_app();
    app.track_table.context = Some(TrackTableContext::MyPlaylists);
    app.playlists = Some(playlist_page(vec![playlist("pl1", 105)]));
    app.selected_playlist_index = Some(0);
    app.playlist_offset = 80;
    handler(Key::Ctrl('a'), &mut app);
    assert_eq!(app.playlist_offset, 0);
    assert_eq!(
        app.pending_io,
        vec![IoEvent::GetPlaylistItems(PlaylistId { id: "pl1".to_string() }, 0)]
    );
}

#[test]
fn jump_to_end_leaves_a_single_page_playlist_alone() {
    let mut app = base_app();
    app.track_table.context = Some(TrackTableContext::MyPlaylists);
    app.playlists = Some(playlist_page(vec![playlist("pl1", 15)]));
    app.selected_playlist_index = Some(0);
    jump_to_end(&mut app);
    assert_eq!(app.playlist_offset, 0);
    assert_eq!(app.pending_io, vec![]);
}

#[test]
fn saving_records_the_selected_track() {
    let mut app = base_app();
    app.track_table.tracks = vec![track("one", Some("t1")), track("two", Some("t2"))];
    app.track_table.selected_index = 1;
    handle_save_track_event(&mut app);
    assert_eq!(
        app.pending_io,
        vec![IoEvent::ToggleSaveTrack(PlayableId::Track(TrackId { id: "t2".to_string() }))]
    );
}

#[test]
fn saving_skips_tracks_without_an_identifier() {
    let mut app = base_app();
    app.track_table.tracks = vec![track("local", None)];
    handle_save_track_event(&mut app);
    assert_eq!(app.pending_io, vec![]);
}

#[test]
fn queueing_uses_the_context_listing() {
    let mut app = base_app();
    app.track_table.context = Some(TrackTableContext::RecommendedTracks);
    app.recommended_tracks = vec![track("r0", Some("ra")), track("r1", Some("rb"))];
    app.track_table.selected_index = 1;
    on_queue(&mut app);
    assert_eq!(
        app.pending_io,
        vec![IoEvent::AddItemToQueue(PlayableId::Track(TrackId { id: "rb".to_string() }))]
    );
}

#[test]
fn enter_plays_the_selected_track_first_in_its_context() {
    let mut app = base_app();
    app.track_table.context = Some(TrackTableContext::MyPlaylists);
    app.track_table.tracks = vec![track("one", Some("t1"))];
    app.playlists = Some(playlist_page(vec![playlist("pl1", 30)]));
    app.active_playlist_index = Some(0);
    on_enter(&mut app);
    assert_eq!(
        app.pending_io,
        vec![IoEvent::StartPlayback(
            Some(PlayContextId::Playlist(PlaylistId { id: "pl1".to_string() })),
            Some(vec![PlayableId::Track(TrackId { id: "t1".to_string() })]),
            Some(0),
        )]
    );
}

#[test]
fn enter_on_saved_tracks_plays_all_fetched_pages_from_the_absolute_offset() {
    let mut app = base_app();
    app.track_table.context = Some(TrackTableContext::SavedTracks);
    let saved = |id: &str| SavedTrackItem { track: track(id, Some(id)) };
    app.library.saved_tracks.pages = vec![
        Page { items: vec![saved("a"), saved("b")], total: 4, offset: 0, limit: 2 },
        Page { items: vec![saved("c"), saved("d")], total: 4, offset: 2, limit: 2 },
    ];
    app.library.saved_tracks.index = 1;
    app.track_table.selected_index = 1;
    on_enter(&mut app);
    let expected_ids: Vec<PlayableId> = ["a", "b", "c", "d"]
        .iter()
        .map(|s| PlayableId::Track(TrackId { id: s.to_string() }))
        .collect();
    assert_eq!(app.pending_io, vec![IoEvent::StartPlayback(None, Some(expected_ids), Some(3))]);
}

#[test]
fn random_playback_lands_inside_the_playlist() {
    for _ in 0..50 {
        let mut app = base_app();
        app.track_table.context = Some(TrackTableContext::MyPlaylists);
        app.playlists = Some(playlist_page(vec![playlist("pl1", 10)]));
        app.selected_playlist_index = Some(0);
        play_random_song(&mut app);
        assert_eq!(app.pending_io.len(), 1);
        match &app.pending_io[0] {
            IoEvent::StartPlayback(ctx, uris, Some(pos)) => {
                assert_eq!(
                    ctx,
                    &Some(PlayContextId::Playlist(PlaylistId { id: "pl1".to_string() }))
                );
                assert!(uris.is_none());
                assert!(*pos < 10);
            },
            other => panic!("unexpected request {:?}", other),
        }
    }
}

#[test]
fn random_playback_of_an_empty_playlist_records_nothing() {
    let mut app = base_app();
    app.track_table.context = Some(TrackTableContext::MyPlaylists);
    app.playlists = Some(playlist_page(vec![playlist("pl1", 0)]));
    app.selected_playlist_index = Some(0);
    play_random_song(&mut app);
    assert_eq!(app.pending_io, vec![]);
}

#[test]
fn recommendations_seed_from_the_selected_track() {
    let mut app = base_app();
    app.track_table.tracks = vec![track("Seed Song", Some("sid"))];
    handler(Key::Char('r'), &mut app);
    assert_eq!(app.recommendations_seed, "Seed Song");
    assert_eq!(app.pending_io.len(), 1);
    match &app.pending_io[0] {
        IoEvent::GetRecommendationsForSeed(Some(ids), Some(first)) => {
            assert_eq!(ids, &vec!["sid".to_string()]);
            assert_eq!(first.name, "Seed Song");
        },
        other => panic!("unexpected request {:?}", other),
    }
}

#[test]
fn unbound_keys_change_nothing() {
    let mut app = base_app();
    app.track_table.tracks = vec![track("a", Some("t"))];
    let before_sel = app.track_table.selected_index;
    handler(Key::Char('q'), &mut app);
    assert_eq!(app.track_table.selected_index, before_sel);
    assert_eq!(app.pending_io, vec![]);
    assert!(!app.sidebar_focused);
}
