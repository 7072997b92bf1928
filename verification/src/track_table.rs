use vstd::prelude::*;
use crate::keys::{
    down_event, down_event_spec, high_event, high_event_spec, left_event, left_event_spec,
    low_event, low_event_spec, middle_event, middle_event_spec, on_down_press_handler,
    on_high_press_handler, on_low_press_handler, on_middle_press_handler, on_up_press_handler,
    up_event, up_event_spec, Key,
};
use crate::model::{
    saved_page_of, App, IoEvent, Page, PlayContextId, PlayableId, PlaylistId, PlaylistItem,
    SavedTrackItem, TrackId, TrackItem, TrackTableContext,
};

verus! {

/// Relies on rand's `random_range` over `0..n`: a uniformly drawn index that
/// always lies inside the given non-empty range.
#[verifier::external_body]
fn random_below(n: usize) -> (r: usize)
    requires
        n >= 1,
    ensures
        r < n,
{
    rand::random_range(0..n)
}

/// The focus went back to the sidebar and nothing else happened.
pub open spec fn left_effect(a: &App, b: &App) -> bool {
    &&& a.table_nav_frame(b)
    &&& b.pending_io@ == a.pending_io@
    &&& b.track_table.selected_index == a.track_table.selected_index
    &&& b.playlist_offset == a.playlist_offset
    &&& b.made_for_you_offset == a.made_for_you_offset
    &&& b.library.saved_tracks.index == a.library.saved_tracks.index
    &&& b.recommendations_context == a.recommendations_context
    &&& b.recommendations_seed == a.recommendations_seed
    &&& b.sidebar_focused
}

/// A left press gives focus back to the sidebar.
pub fn handle_left_event(app: &mut App)
    ensures
        left_effect(old(app), final(app)),
{
    app.sidebar_focused = true;
}

/// The playlist selected in the sidebar list, if the list is fetched and the
/// selection points at one of its rows.
pub open spec fn selected_playlist(a: &App) -> Option<PlaylistItem> {
    match (a.playlists, a.selected_playlist_index) {
        (Some(page), Some(i)) => if i < page.items@.len() {
            Some(page.items@[i as int])
        } else {
            None
        },
        _ => None,
    }
}

/// The playlist the search results point at.
pub open spec fn search_selected_playlist(a: &App) -> Option<PlaylistItem> {
    match (a.search_results.playlists, a.search_results.selected_playlists_index) {
        (Some(page), Some(i)) => if i < page.items@.len() {
            Some(page.items@[i as int])
        } else {
            None
        },
        _ => None,
    }
}

/// The made-for-you playlist on screen: a row of the first fetched page.
pub open spec fn made_for_you_playlist(a: &App) -> Option<PlaylistItem> {
    if a.library.made_for_you_playlists.pages@.len() > 0 {
        let page = a.library.made_for_you_playlists.pages@[0];
        if a.made_for_you_index < page.items@.len() {
            Some(page.items@[a.made_for_you_index as int])
        } else {
            None
        }
    } else {
        None
    }
}

/// The identifier of the table row the selection is on, if that row exists
/// and its track has one.
pub open spec fn selected_track_id(a: &App) -> Option<TrackId> {
    if a.track_table.selected_index < a.track_table.tracks@.len() {
        a.track_table.tracks@[a.track_table.selected_index as int].id
    } else {
        None
    }
}

/// The recorded requests grew by exactly one, keeping the old ones.
pub open spec fn io_extended_by_one(a: &App, b: &App) -> bool {
    &&& b.pending_io@.len() == a.pending_io@.len() + 1
    &&& b.pending_io@.take(a.pending_io@.len() as int) == a.pending_io@
}

/// An erased clone of a playlist identifier.
pub fn playlist_id_static_from_ref(id: &PlaylistId) -> (r: PlaylistId)
    ensures
        r == *id,
{
    id.clone()
}

/// A playlist identifier as a playback context.
pub fn playlist_context_id_from_ref(id: &PlaylistId) -> (r: PlayContextId)
    ensures
        r == PlayContextId::Playlist(*id),
{
    PlayContextId::Playlist(id.clone())
}

/// A track identifier as something playable, if the track has one.
pub fn track_playable_id(id: Option<TrackId>) -> (r: Option<PlayableId>)
    ensures
        r == (match id {
            Some(track_id) => Some(PlayableId::Track(track_id)),
            None => None::<PlayableId>,
        }),
{
    match id {
        Some(track_id) => Some(PlayableId::Track(track_id)),
        None => None,
    }
}

/// A save request was recorded for the selected track, when it has an
/// identifier.
pub open spec fn save_effect(a: &App, b: &App) -> bool {
    &&& a.only_io_changed(b)
    &&& b.pending_io@ == (match selected_track_id(a) {
        Some(tid) => a.pending_io@.push(IoEvent::ToggleSaveTrack(PlayableId::Track(tid))),
        None => a.pending_io@,
    })
}

/// Toggles saving of the selected track: records the request when the
/// selection is on a track that has an identifier, and does nothing
/// otherwise.
pub fn handle_save_track_event(app: &mut App)
    ensures
        save_effect(old(app), final(app)),
{
    if app.track_table.selected_index < app.track_table.tracks.len() {
        let track = &app.track_table.tracks[app.track_table.selected_index];
        let id = match &track.id {
            Some(t) => Some(t.clone()),
            None => None,
        };
        if let Some(playable_id) = track_playable_id(id) {
            app.dispatch(IoEvent::ToggleSaveTrack(playable_id));
        }
    }
}

/// Seeds song-radio recommendations from the selected track: remembers the
/// seed context and name, and records the recommendations request carrying
/// the track's identifier (when it has one) and the track itself.
/// The selected track became the song-radio seed and a recommendations
/// request carrying it was recorded.
pub open spec fn recommend_effect(a: &App, b: &App) -> bool {
    &&& a.table_nav_frame(b)
    &&& b.track_table.selected_index == a.track_table.selected_index
    &&& b.playlist_offset == a.playlist_offset
    &&& b.made_for_you_offset == a.made_for_you_offset
    &&& b.library.saved_tracks.index == a.library.saved_tracks.index
    &&& b.sidebar_focused == a.sidebar_focused
    &&& a.track_table.selected_index < a.track_table.tracks@.len() ==> {
        let t = a.track_table.tracks@[a.track_table.selected_index as int];
        &&& b.recommendations_context == Some(crate::model::RecommendationsContext::Song)
        &&& b.recommendations_seed == t.name
        &&& io_extended_by_one(a, b)
        &&& (b.pending_io@.last() matches IoEvent::GetRecommendationsForSeed(ids, ft) && ft
            == Some(t) && (match t.id {
            Some(tid) => ids matches Some(v) && v@.len() == 1 && v@[0]@ == tid.id@,
            None => ids is None,
        }))
    }
    &&& a.track_table.selected_index >= a.track_table.tracks@.len() ==> *b == *a
}

pub fn handle_recommended_tracks(app: &mut App)
    ensures
        recommend_effect(old(app), final(app)),
{
    if app.track_table.selected_index < app.track_table.tracks.len() {
        let first_track = app.track_table.tracks[app.track_table.selected_index].clone();
        let track_id_list: Option<Vec<String>> = match &first_track.id {
            Some(tid) => {
                let mut v: Vec<String> = Vec::new();
                v.push(tid.id.clone());
                Some(v)
            },
            None => None,
        };
        app.recommendations_context = Some(crate::model::RecommendationsContext::Song);
        app.recommendations_seed = first_track.name.clone();
        app.get_recommendations_for_seed(track_id_list, Some(first_track));
        proof {
            let t = old(app).track_table.tracks@[old(app).track_table.selected_index as int];
            assert(app.recommendations_seed =~= t.name);
            assert(app.pending_io@.take(old(app).pending_io@.len() as int) =~= old(app).pending_io@);
        }
    }
}

/// Jumps the playlist view back to its first page: resets the paging offset
/// and records a request for the first page of the selected playlist.
/// The playlist view went back to its first page and that page was
/// requested.
pub open spec fn jump_start_effect(a: &App, b: &App) -> bool {
    &&& a.table_nav_frame(b)
    &&& b.track_table.selected_index == a.track_table.selected_index
    &&& b.made_for_you_offset == a.made_for_you_offset
    &&& b.library.saved_tracks.index == a.library.saved_tracks.index
    &&& b.recommendations_context == a.recommendations_context
    &&& b.recommendations_seed == a.recommendations_seed
    &&& b.sidebar_focused == a.sidebar_focused
    &&& (a.track_table.context == Some(TrackTableContext::MyPlaylists) && selected_playlist(a)
        is Some) ==> (match selected_playlist(a) {
        Some(pl) => b.playlist_offset == 0 && b.pending_io@ == a.pending_io@.push(
            IoEvent::GetPlaylistItems(pl.id, 0),
        ),
        None => false,
    })
    &&& !(a.track_table.context == Some(TrackTableContext::MyPlaylists) && selected_playlist(a)
        is Some) ==> *b == *a
}

pub fn jump_to_start(app: &mut App)
    ensures
        jump_start_effect(old(app), final(app)),
{
    if let Some(context) = &app.track_table.context {
        match context {
            TrackTableContext::MyPlaylists => {
                if let (Some(playlists), Some(selected_playlist_index)) = (
                    &app.playlists,
                    &app.selected_playlist_index,
                ) {
                    if *selected_playlist_index < playlists.items.len() {
                        let playlist_id = playlist_id_static_from_ref(
                            &playlists.items[*selected_playlist_index].id,
                        );
                        app.playlist_offset = 0;
                        app.dispatch(IoEvent::GetPlaylistItems(playlist_id, 0));
                    }
                }
            },
            _ => {},
        }
    }
}

/// Jumps the playlist view to its last page: when the playlist holds more
/// tracks than one page, moves the paging offset to the final page boundary
/// and records a request for that page.
/// The playlist view jumped to its final page boundary and that page was
/// requested; a playlist that fits one page is left alone.
pub open spec fn jump_end_effect(a: &App, b: &App) -> bool {
    &&& a.table_nav_frame(b)
    &&& b.track_table.selected_index == a.track_table.selected_index
    &&& b.made_for_you_offset == a.made_for_you_offset
    &&& b.library.saved_tracks.index == a.library.saved_tracks.index
    &&& b.recommendations_context == a.recommendations_context
    &&& b.recommendations_seed == a.recommendations_seed
    &&& b.sidebar_focused == a.sidebar_focused
    &&& (match selected_playlist(a) {
        Some(pl) => if a.track_table.context == Some(TrackTableContext::MyPlaylists)
            && a.large_search_limit < pl.tracks_total {
            let last_page = pl.tracks_total - (pl.tracks_total % a.large_search_limit);
            &&& b.playlist_offset == last_page
            &&& b.pending_io@ == a.pending_io@.push(
                IoEvent::GetPlaylistItems(pl.id, last_page as u32),
            )
        } else {
            *b == *a
        },
        None => *b == *a,
    })
}

pub fn jump_to_end(app: &mut App)
    requires
        old(app).wf(),
    ensures
        jump_end_effect(old(app), final(app)),
{
    if let Some(context) = &app.track_table.context {
        match context {
            TrackTableContext::MyPlaylists => {
                if let (Some(playlists), Some(selected_playlist_index)) = (
                    &app.playlists,
                    &app.selected_playlist_index,
                ) {
                    if *selected_playlist_index < playlists.items.len() {
                        let selected = &playlists.items[*selected_playlist_index];
                        let total_tracks = selected.tracks_total;
                        if app.large_search_limit < total_tracks {
                            let playlist_id = playlist_id_static_from_ref(&selected.id);
                            app.playlist_offset = total_tracks - (total_tracks
                                % app.large_search_limit);
                            app.dispatch(
                                IoEvent::GetPlaylistItems(playlist_id, app.playlist_offset),
                            );
                        }
                    }
                }
            },
            _ => {},
        }
    }
}

/// The playable identifiers of the given rows, in order, skipping tracks
/// without one.
pub open spec fn track_playables(ts: Seq<TrackItem>) -> Seq<PlayableId>
    decreases ts.len(),
{
    if ts.len() == 0 {
        Seq::empty()
    } else {
        track_playables(ts.drop_last()) + (match ts.last().id {
            Some(tid) => seq![PlayableId::Track(tid)],
            None => Seq::empty(),
        })
    }
}

/// The playable identifiers of one saved-tracks page, in order.
pub open spec fn saved_playables(items: Seq<SavedTrackItem>) -> Seq<PlayableId>
    decreases items.len(),
{
    if items.len() == 0 {
        Seq::empty()
    } else {
        saved_playables(items.drop_last()) + (match items.last().track.id {
            Some(tid) => seq![PlayableId::Track(tid)],
            None => Seq::empty(),
        })
    }
}

/// The playable identifiers of the first `k` saved-tracks pages, in order.
pub open spec fn saved_playables_upto(pages: Seq<Page<SavedTrackItem>>, k: int) -> Seq<PlayableId>
    decreases k,
{
    if k <= 0 || k > pages.len() {
        Seq::empty()
    } else {
        saved_playables_upto(pages, k - 1) + saved_playables(pages[k - 1].items@)
    }
}

/// How many saved rows (playable or not) the first `k` pages hold.
pub open spec fn saved_items_before(pages: Seq<Page<SavedTrackItem>>, k: int) -> int
    decreases k,
{
    if k <= 0 || k > pages.len() {
        0
    } else {
        saved_items_before(pages, k - 1) + pages[k - 1].items@.len()
    }
}

fn collect_playables(ts: &Vec<TrackItem>) -> (out: Vec<PlayableId>)
    ensures
        out@ == track_playables(ts@),
{
    let mut out: Vec<PlayableId> = Vec::new();
    let mut i: usize = 0;
    while i < ts.len()
        invariant
            i <= ts@.len(),
            out@ == track_playables(ts@.take(i as int)),
        decreases ts@.len() - i,
    {
        proof {
            assert(ts@.take(i + 1).drop_last() =~= ts@.take(i as int));
            assert(ts@.take(i + 1).last() == ts@[i as int]);
        }
        match &ts[i].id {
            Some(t) => {
                out.push(PlayableId::Track(t.clone()));
                proof {
                    assert(out@ =~= track_playables(ts@.take(i + 1)));
                }
            },
            None => {
                proof {
                    assert(out@ =~= track_playables(ts@.take(i + 1)));
                }
            },
        }
        i += 1;
    }
    proof {
        assert(ts@.take(ts@.len() as int) =~= ts@);
    }
    out
}

/// The track whose identifier an add-to-queue press would enqueue.
pub open spec fn queue_target(a: &App) -> Option<TrackId> {
    match a.track_table.context {
        Some(TrackTableContext::MyPlaylists) => selected_track_id(a),
        Some(TrackTableContext::PlaylistSearch) => selected_track_id(a),
        Some(TrackTableContext::MadeForYou) => selected_track_id(a),
        Some(TrackTableContext::RecommendedTracks) => if a.track_table.selected_index
            < a.recommended_tracks@.len() {
            a.recommended_tracks@[a.track_table.selected_index as int].id
        } else {
            None
        },
        Some(TrackTableContext::SavedTracks) => (match saved_page_of(a) {
            Some(p) => if a.track_table.selected_index < p.items@.len() {
                p.items@[a.track_table.selected_index as int].track.id
            } else {
                None
            },
            None => None,
        }),
        _ => None,
    }
}

/// Adds the selected track to the playback queue: records the request when
/// the context's selected row is a track with an identifier.
/// An add-to-queue request was recorded for the context's selected track,
/// when it has an identifier.
pub open spec fn queue_effect(a: &App, b: &App) -> bool {
    &&& a.only_io_changed(b)
    &&& b.pending_io@ == (match queue_target(a) {
        Some(tid) => a.pending_io@.push(IoEvent::AddItemToQueue(PlayableId::Track(tid))),
        None => a.pending_io@,
    })
}

pub fn on_queue(app: &mut App)
    ensures
        queue_effect(old(app), final(app)),
{
    let target: Option<TrackId> = match &app.track_table.context {
        Some(TrackTableContext::MyPlaylists)
        | Some(TrackTableContext::PlaylistSearch)
        | Some(TrackTableContext::MadeForYou) => {
            if app.track_table.selected_index < app.track_table.tracks.len() {
                match &app.track_table.tracks[app.track_table.selected_index].id {
                    Some(t) => Some(t.clone()),
                    None => None,
                }
            } else {
                None
            }
        },
        Some(TrackTableContext::RecommendedTracks) => {
            if app.track_table.selected_index < app.recommended_tracks.len() {
                match &app.recommended_tracks[app.track_table.selected_index].id {
                    Some(t) => Some(t.clone()),
                    None => None,
                }
            } else {
                None
            }
        },
        Some(TrackTableContext::SavedTracks) => {
            match app.library.saved_tracks.get_results(None) {
                Some(page) => {
                    if app.track_table.selected_index < page.items.len() {
                        match &page.items[app.track_table.selected_index].track.id {
                            Some(t) => Some(t.clone()),
                            None => None,
                        }
                    } else {
                        None
                    }
                },
                None => None,
            }
        },
        _ => None,
    };
    if let Some(playable_id) = track_playable_id(target) {
        app.dispatch(IoEvent::AddItemToQueue(playable_id));
    }
}

/// Starts playback of a random track of the current listing. The drawn
/// position is random, so the contract fixes the request's shape and range
/// but not the position itself; a listing with nothing to play records no
/// request.
/// A playback request for a random position of the current listing was
/// recorded: its shape and range are fixed, the position is random.
pub open spec fn random_effect(a: &App, b: &App) -> bool {
    &&& a.only_io_changed(b)
    &&& (match a.track_table.context {
            Some(TrackTableContext::MyPlaylists) => (match selected_playlist(a) {
                Some(pl) => if pl.tracks_total > 0 {
                    io_extended_by_one(a, b) && (b.pending_io@.last() matches IoEvent::StartPlayback(c, ov, oi)
                        && c == Some(PlayContextId::Playlist(pl.id)) && ov is None && (
                    oi matches Some(i) && i < pl.tracks_total))
                } else {
                    b.pending_io@ == a.pending_io@
                },
                None => b.pending_io@ == a.pending_io@,
            }),
            Some(TrackTableContext::SavedTracks) => (match saved_page_of(a) {
                Some(p) => if saved_playables(p.items@).len() > 0 {
                    io_extended_by_one(a, b) && (b.pending_io@.last() matches IoEvent::StartPlayback(c, ov, oi)
                        && c is None && (ov matches Some(v) && v@ == saved_playables(p.items@))
                        && (oi matches Some(i) && i < saved_playables(p.items@).len()))
                } else {
                    b.pending_io@ == a.pending_io@
                },
                None => b.pending_io@ == a.pending_io@,
            }),
            Some(TrackTableContext::PlaylistSearch) => (match search_selected_playlist(a) {
                Some(pl) => if pl.tracks_total > 0 {
                    io_extended_by_one(a, b) && (b.pending_io@.last() matches IoEvent::StartPlayback(c, ov, oi)
                        && c == Some(PlayContextId::Playlist(pl.id)) && ov is None && (
                    oi matches Some(i) && i < pl.tracks_total))
                } else {
                    b.pending_io@ == a.pending_io@
                },
                None => b.pending_io@ == a.pending_io@,
            }),
            Some(TrackTableContext::MadeForYou) => (match made_for_you_playlist(a) {
                Some(pl) => if pl.tracks_total > 0 {
                    io_extended_by_one(a, b) && (b.pending_io@.last() matches IoEvent::StartPlayback(c, ov, oi)
                        && c == Some(PlayContextId::Playlist(pl.id)) && ov is None && (
                    oi matches Some(i) && i < pl.tracks_total))
                } else {
                    b.pending_io@ == a.pending_io@
                },
                None => b.pending_io@ == a.pending_io@,
            }),
            _ => b.pending_io@ == a.pending_io@,
        })
}

pub fn play_random_song(app: &mut App)
    ensures
        random_effect(old(app), final(app)),
{
    let context = match &app.track_table.context {
        Some(c) => *c,
        None => {
            return ;
        },
    };
    match context {
        TrackTableContext::MyPlaylists => {
            let target: Option<(PlayContextId, u32)> = match (
                &app.selected_playlist_index,
                &app.playlists,
            ) {
                (Some(selected_playlist_index), Some(playlists)) => {
                    if *selected_playlist_index < playlists.items.len() {
                        let selected = &playlists.items[*selected_playlist_index];
                        Some((playlist_context_id_from_ref(&selected.id), selected.tracks_total))
                    } else {
                        None
                    }
                },
                _ => None,
            };
            if let Some((context_id, total)) = target {
                if total > 0 {
                    let pos = random_below(total as usize);
                    app.dispatch(
                        IoEvent::StartPlayback(Some(context_id), None, Some(pos)),
                    );
                }
            }
        },
        TrackTableContext::RecommendedTracks => {},
        TrackTableContext::SavedTracks => {
            let playable_ids: Option<Vec<PlayableId>> = match app.library.saved_tracks.get_results(
                None,
            ) {
                Some(page) => {
                    let mut tracks: Vec<TrackItem> = Vec::new();
                    let mut i: usize = 0;
                    while i < page.items.len()
                        invariant
                            i <= page.items@.len(),
                            tracks@.len() == i,
                            forall|j: int| 0 <= j < i ==> tracks@[j] == page.items@[j].track,
                        decreases page.items@.len() - i,
                    {
                        tracks.push(page.items[i].track.clone());
                        i += 1;
                    }
                    proof {
                        assert(tracks@ =~= page.items@.map_values(|s: SavedTrackItem| s.track));
                        lemma_saved_playables_as_tracks(page.items@);
                    }
                    Some(collect_playables(&tracks))
                },
                None => None,
            };
            if let Some(ids) = playable_ids {
                if ids.len() > 0 {
                    let rand_idx = random_below(ids.len());
                    app.dispatch(IoEvent::StartPlayback(None, Some(ids), Some(rand_idx)));
                }
            }
        },
        TrackTableContext::AlbumSearch => {},
        TrackTableContext::PlaylistSearch => {
            let target: Option<(PlayContextId, u32)> = match (
                &app.search_results.selected_playlists_index,
                &app.search_results.playlists,
            ) {
                (Some(selected_playlist_index), Some(playlist_result)) => {
                    if *selected_playlist_index < playlist_result.items.len() {
                        let selected = &playlist_result.items[*selected_playlist_index];
                        Some((playlist_context_id_from_ref(&selected.id), selected.tracks_total))
                    } else {
                        None
                    }
                },
                _ => None,
            };
            if let Some((context_id, total)) = target {
                if total > 0 {
                    let pos = random_below(total as usize);
                    app.dispatch(
                        IoEvent::StartPlayback(Some(context_id), None, Some(pos)),
                    );
                }
            }
        },
        TrackTableContext::MadeForYou => {
            let target: Option<(PlayContextId, u32)> = match app
                .library
                .made_for_you_playlists
                .get_results(Some(0)) {
                Some(page) => {
                    if app.made_for_you_index < page.items.len() {
                        let playlist = &page.items[app.made_for_you_index];
                        Some((playlist_context_id_from_ref(&playlist.id), playlist.tracks_total))
                    } else {
                        None
                    }
                },
                None => None,
            };
            if let Some((context_id, total)) = target {
                if total > 0 {
                    let pos = random_below(total as usize);
                    app.dispatch(
                        IoEvent::StartPlayback(Some(context_id), None, Some(pos)),
                    );
                }
            }
        },
    }
}

/// The playback context of the playlist marked active in the sidebar.
pub open spec fn active_playlist_ctx(a: &App) -> Option<PlayContextId> {
    match (a.playlists, a.active_playlist_index) {
        (Some(page), Some(i)) => if i < page.items@.len() {
            Some(PlayContextId::Playlist(page.items@[i as int].id))
        } else {
            None
        },
        _ => None,
    }
}

/// The saved-tracks pages the absolute offset counts: every fetched page
/// before the one on screen.
pub open spec fn saved_pages_seen(a: &App) -> int {
    if a.library.saved_tracks.index <= a.library.saved_tracks.pages@.len() {
        a.library.saved_tracks.index as int
    } else {
        a.library.saved_tracks.pages@.len() as int
    }
}

/// The machine limits an enter press needs: row positions combined with
/// paging offsets still fit a `usize`.
pub open spec fn offsets_fit(a: &App) -> bool {
    &&& a.track_table.selected_index + a.playlist_offset <= usize::MAX
    &&& a.track_table.selected_index + a.made_for_you_offset <= usize::MAX
    &&& saved_items_before(a.library.saved_tracks.pages@, saved_pages_seen(a))
        + a.track_table.selected_index <= usize::MAX
}

/// What an enter press does: start playback of the selection, scoped to the
/// listing it came from.
pub open spec fn enter_effect(a: &App, b: &App) -> bool {
    &&& a.only_io_changed(b)
    &&& (match a.track_table.context {
        Some(TrackTableContext::MyPlaylists) => if a.track_table.selected_index
            < a.track_table.tracks@.len() {
            match selected_track_id(a) {
                Some(tid) => io_extended_by_one(a, b) && (b.pending_io@.last()
                    matches IoEvent::StartPlayback(c, ov, oi) && c == active_playlist_ctx(a) && (
                ov matches Some(v) && v@ == seq![PlayableId::Track(tid)]) && oi == Some(0usize)),
                None => b.pending_io@ == a.pending_io@.push(
                    IoEvent::StartPlayback(
                        active_playlist_ctx(a),
                        None,
                        Some((a.track_table.selected_index + a.playlist_offset) as usize),
                    ),
                ),
            }
        } else {
            b.pending_io@ == a.pending_io@
        },
        Some(TrackTableContext::RecommendedTracks) => if track_playables(
            a.recommended_tracks@,
        ).len() > 0 {
            io_extended_by_one(a, b) && (b.pending_io@.last() matches IoEvent::StartPlayback(
                c,
                ov,
                oi,
            ) && c is None && (ov matches Some(v) && v@ == track_playables(a.recommended_tracks@))
                && oi == Some(a.track_table.selected_index))
        } else {
            b.pending_io@ == a.pending_io@
        },
        Some(TrackTableContext::SavedTracks) => {
            let pages = a.library.saved_tracks.pages@;
            let all = saved_playables_upto(pages, pages.len() as int);
            if all.len() > 0 {
                io_extended_by_one(a, b) && (b.pending_io@.last() matches IoEvent::StartPlayback(
                    c,
                    ov,
                    oi,
                ) && c is None && (ov matches Some(v) && v@ == all) && oi == Some(
                    ((saved_items_before(pages, saved_pages_seen(a))
                        + a.track_table.selected_index) as usize),
                ))
            } else {
                b.pending_io@ == a.pending_io@
            }
        },
        Some(TrackTableContext::PlaylistSearch) => if a.track_table.selected_index
            < a.track_table.tracks@.len() {
            b.pending_io@ == a.pending_io@.push(
                IoEvent::StartPlayback(
                    (match search_selected_playlist(a) {
                        Some(pl) => Some(PlayContextId::Playlist(pl.id)),
                        None => None,
                    }),
                    None,
                    Some(a.track_table.selected_index),
                ),
            )
        } else {
            b.pending_io@ == a.pending_io@
        },
        Some(TrackTableContext::MadeForYou) => if a.track_table.selected_index
            < a.track_table.tracks@.len() {
            b.pending_io@ == a.pending_io@.push(
                IoEvent::StartPlayback(
                    (match made_for_you_playlist(a) {
                        Some(pl) => Some(PlayContextId::Playlist(pl.id)),
                        None => None,
                    }),
                    None,
                    Some((a.track_table.selected_index + a.made_for_you_offset) as usize),
                ),
            )
        } else {
            b.pending_io@ == a.pending_io@
        },
        _ => b.pending_io@ == a.pending_io@,
    })
}

proof fn lemma_saved_items_before_mono(pages: Seq<Page<SavedTrackItem>>, k: int, m: int)
    requires
        0 <= k <= m <= pages.len(),
    ensures
        0 <= saved_items_before(pages, k) <= saved_items_before(pages, m),
    decreases m,
{
    if m > 0 {
        if k == m {
            lemma_saved_items_before_mono(pages, k - 1, m - 1);
        } else {
            lemma_saved_items_before_mono(pages, k, m - 1);
        }
    }
}

fn collect_saved_playables(items: &Vec<SavedTrackItem>) -> (out: Vec<PlayableId>)
    ensures
        out@ == saved_playables(items@),
{
    let mut out: Vec<PlayableId> = Vec::new();
    let mut i: usize = 0;
    while i < items.len()
        invariant
            i <= items@.len(),
            out@ == saved_playables(items@.take(i as int)),
        decreases items@.len() - i,
    {
        proof {
            assert(items@.take(i + 1).drop_last() =~= items@.take(i as int));
            assert(items@.take(i + 1).last() == items@[i as int]);
        }
        match &items[i].track.id {
            Some(t) => {
                out.push(PlayableId::Track(t.clone()));
                proof {
                    assert(out@ =~= saved_playables(items@.take(i + 1)));
                }
            },
            None => {
                proof {
                    assert(out@ =~= saved_playables(items@.take(i + 1)));
                }
            },
        }
        i += 1;
    }
    proof {
        assert(items@.take(items@.len() as int) =~= items@);
    }
    out
}

/// Starts playback from the selected row. A track selected in a playlist
/// plays inside that playlist's context, leading with the track itself when
/// it has an identifier; recommended and saved listings play their collected
/// tracks from the selected position; rows without anything playable record
/// no request.
pub fn on_enter(app: &mut App)
    requires
        offsets_fit(old(app)),
    ensures
        enter_effect(old(app), final(app)),
{
    let context = match &app.track_table.context {
        Some(c) => *c,
        None => {
            return ;
        },
    };
    match context {
        TrackTableContext::MyPlaylists => {
            if app.track_table.selected_index < app.track_table.tracks.len() {
                let track_id = match &app.track_table.tracks[app.track_table.selected_index].id {
                    Some(t) => Some(t.clone()),
                    None => None,
                };
                let context_id: Option<PlayContextId> = match (
                    &app.active_playlist_index,
                    &app.playlists,
                ) {
                    (Some(active_playlist_index), Some(playlists)) => {
                        if *active_playlist_index < playlists.items.len() {
                            Some(
                                playlist_context_id_from_ref(
                                    &playlists.items[*active_playlist_index].id,
                                ),
                            )
                        } else {
                            None
                        }
                    },
                    _ => None,
                };
                match track_playable_id(track_id) {
                    Some(playable_id) => {
                        let mut uris: Vec<PlayableId> = Vec::new();
                        uris.push(playable_id);
                        app.dispatch(IoEvent::StartPlayback(context_id, Some(uris), Some(0)));
                    },
                    None => {
                        let pos = app.track_table.selected_index + (app.playlist_offset as usize);
                        app.dispatch(IoEvent::StartPlayback(context_id, None, Some(pos)));
                    },
                }
            }
        },
        TrackTableContext::RecommendedTracks => {
            let playable_ids = collect_playables(&app.recommended_tracks);
            if playable_ids.len() > 0 {
                let pos = app.track_table.selected_index;
                app.dispatch(IoEvent::StartPlayback(None, Some(playable_ids), Some(pos)));
            }
        },
        TrackTableContext::SavedTracks => {
            let mut all_playable_ids: Vec<PlayableId> = Vec::new();
            let mut page_idx: usize = 0;
            let n_pages = app.library.saved_tracks.pages.len();
            while page_idx < n_pages
                invariant
                    n_pages == app.library.saved_tracks.pages@.len(),
                    page_idx <= n_pages,
                    all_playable_ids@ == saved_playables_upto(
                        app.library.saved_tracks.pages@,
                        page_idx as int,
                    ),
                decreases n_pages - page_idx,
            {
                let page_ids = collect_saved_playables(
                    &app.library.saved_tracks.pages[page_idx].items,
                );
                let mut j: usize = 0;
                while j < page_ids.len()
                    invariant
                        j <= page_ids@.len(),
                        page_idx < app.library.saved_tracks.pages@.len(),
                        page_ids@ == saved_playables(
                            app.library.saved_tracks.pages@[page_idx as int].items@,
                        ),
                        all_playable_ids@ == saved_playables_upto(
                            app.library.saved_tracks.pages@,
                            page_idx as int,
                        ) + page_ids@.take(j as int),
                    decreases page_ids@.len() - j,
                {
                    all_playable_ids.push(page_ids[j].clone());
                    proof {
                        assert(page_ids@.take(j + 1) =~= page_ids@.take(j as int).push(
                            page_ids@[j as int],
                        ));
                        assert(all_playable_ids@ =~= saved_playables_upto(
                            app.library.saved_tracks.pages@,
                            page_idx as int,
                        ) + page_ids@.take(j + 1));
                    }
                    j += 1;
                }
                proof {
                    assert(page_ids@.take(page_ids@.len() as int) =~= page_ids@);
                    assert(all_playable_ids@ =~= saved_playables_upto(
                        app.library.saved_tracks.pages@,
                        page_idx as int + 1,
                    ));
                }
                page_idx += 1;
            }
            if all_playable_ids.len() > 0 {
                let current_page_index = app.library.saved_tracks.index;
                let mut absolute_offset: usize = 0;
                let mut k: usize = 0;
                let bound = if current_page_index <= n_pages {
                    current_page_index
                } else {
                    n_pages
                };
                proof {
                    lemma_saved_items_before_mono(
                        app.library.saved_tracks.pages@,
                        0,
                        bound as int,
                    );
                }
                while k < bound
                    invariant
                        offsets_fit(old(app)),
                        *app == *old(app),
                        n_pages == app.library.saved_tracks.pages@.len(),
                        bound == saved_pages_seen(app),
                        k <= bound,
                        absolute_offset == saved_items_before(
                            app.library.saved_tracks.pages@,
                            k as int,
                        ),
                    decreases bound - k,
                {
                    proof {
                        lemma_saved_items_before_mono(
                            app.library.saved_tracks.pages@,
                            k as int + 1,
                            bound as int,
                        );
                    }
                    absolute_offset = absolute_offset
                        + app.library.saved_tracks.pages[k].items.len();
                    k += 1;
                }
                absolute_offset = absolute_offset + app.track_table.selected_index;
                app.dispatch(
                    IoEvent::StartPlayback(None, Some(all_playable_ids), Some(absolute_offset)),
                );
            }
        },
        TrackTableContext::AlbumSearch => {},
        TrackTableContext::PlaylistSearch => {
            if app.track_table.selected_index < app.track_table.tracks.len() {
                let context_id: Option<PlayContextId> = match (
                    &app.search_results.selected_playlists_index,
                    &app.search_results.playlists,
                ) {
                    (Some(selected_playlist_index), Some(playlist_result)) => {
                        if *selected_playlist_index < playlist_result.items.len() {
                            Some(
                                playlist_context_id_from_ref(
                                    &playlist_result.items[*selected_playlist_index].id,
                                ),
                            )
                        } else {
                            None
                        }
                    },
                    _ => None,
                };
                let pos = app.track_table.selected_index;
                app.dispatch(IoEvent::StartPlayback(context_id, None, Some(pos)));
            }
        },
        TrackTableContext::MadeForYou => {
            if app.track_table.selected_index < app.track_table.tracks.len() {
                let context_id: Option<PlayContextId> = match app
                    .library
                    .made_for_you_playlists
                    .get_results(Some(0)) {
                    Some(page) => {
                        if app.made_for_you_index < page.items.len() {
                            Some(
                                playlist_context_id_from_ref(
                                    &page.items[app.made_for_you_index].id,
                                ),
                            )
                        } else {
                            None
                        }
                    },
                    None => None,
                };
                let pos = app.track_table.selected_index + (app.made_for_you_offset as usize);
                app.dispatch(IoEvent::StartPlayback(context_id, None, Some(pos)));
            }
        },
    }
}

/// Everything a selection move leaves alone.
pub open spec fn keeps_misc(a: &App, b: &App) -> bool {
    &&& a.table_nav_frame(b)
    &&& b.recommendations_context == a.recommendations_context
    &&& b.recommendations_seed == a.recommendations_seed
    &&& b.sidebar_focused == a.sidebar_focused
}

/// The selection moved to row `i` and nothing else happened.
pub open spec fn select_effect(a: &App, b: &App, i: int) -> bool {
    &&& keeps_misc(a, b)
    &&& b.pending_io@ == a.pending_io@
    &&& b.playlist_offset == a.playlist_offset
    &&& b.made_for_you_offset == a.made_for_you_offset
    &&& b.library.saved_tracks.index == a.library.saved_tracks.index
    &&& b.track_table.selected_index == i
}

/// What moving the saved-tracks view one page forward does: advance to an
/// already fetched page, or request the page past the last fetched one.
pub open spec fn saved_next_effect(a: &App, b: &App) -> bool {
    if a.library.saved_tracks.index + 1 < a.library.saved_tracks.pages@.len() {
        &&& b.library.saved_tracks.index == a.library.saved_tracks.index + 1
        &&& b.pending_io@ == a.pending_io@
    } else {
        &&& b.library.saved_tracks.index == a.library.saved_tracks.index
        &&& b.pending_io@ == (match saved_page_of(a) {
            Some(p) => a.pending_io@.push(
                IoEvent::GetCurrentSavedTracks(Some(((p.offset + p.limit) as u32))),
            ),
            None => a.pending_io@,
        })
    }
}

/// What a down press does: load the next page when the selection sits on the
/// last row of a pageable listing with more to fetch (resetting the
/// selection to the top of the incoming page), otherwise step the selection
/// down with wrap-around.
pub open spec fn down_transition(a: &App, b: &App) -> bool {
    let len = a.track_table.tracks@.len() as int;
    let at_last = len > 0 && a.track_table.selected_index == len - 1;
    let my_more = at_last && a.track_table.context == Some(TrackTableContext::MyPlaylists)
        && selected_playlist(a) is Some && (match a.playlist_tracks {
        Some(pt) => a.playlist_offset + a.large_search_limit < pt.total,
        None => false,
    });
    let mfy_more = at_last && a.track_table.context == Some(TrackTableContext::MadeForYou)
        && made_for_you_playlist(a) is Some && (match a.made_for_you_tracks {
        Some(pt) => a.made_for_you_offset + a.large_search_limit < pt.total,
        None => false,
    });
    let saved_more = at_last && a.track_table.context == Some(TrackTableContext::SavedTracks) && (
    match saved_page_of(a) {
        Some(p) => p.offset + p.limit < p.total,
        None => false,
    });
    &&& keeps_misc(a, b)
    &&& if my_more {
        &&& b.playlist_offset == a.playlist_offset + a.large_search_limit
        &&& b.made_for_you_offset == a.made_for_you_offset
        &&& b.library.saved_tracks.index == a.library.saved_tracks.index
        &&& b.track_table.selected_index == 0
        &&& b.pending_io@ == (match selected_playlist(a) {
            Some(pl) => a.pending_io@.push(
                IoEvent::GetPlaylistItems(
                    pl.id,
                    ((a.playlist_offset + a.large_search_limit) as u32),
                ),
            ),
            None => a.pending_io@,
        })
    } else if mfy_more {
        &&& b.playlist_offset == a.playlist_offset
        &&& b.made_for_you_offset == a.made_for_you_offset + a.large_search_limit
        &&& b.library.saved_tracks.index == a.library.saved_tracks.index
        &&& b.track_table.selected_index == 0
        &&& b.pending_io@ == (match made_for_you_playlist(a) {
            Some(pl) => a.pending_io@.push(
                IoEvent::GetMadeForYouPlaylistItems(
                    pl.id,
                    ((a.made_for_you_offset + a.large_search_limit) as u32),
                ),
            ),
            None => a.pending_io@,
        })
    } else if saved_more {
        &&& b.playlist_offset == a.playlist_offset
        &&& b.made_for_you_offset == a.made_for_you_offset
        &&& b.track_table.selected_index == 0
        &&& saved_next_effect(a, b)
    } else {
        &&& b.playlist_offset == a.playlist_offset
        &&& b.made_for_you_offset == a.made_for_you_offset
        &&& b.library.saved_tracks.index == a.library.saved_tracks.index
        &&& b.pending_io@ == a.pending_io@
        &&& b.track_table.selected_index == crate::keys::next_index_down(
            len,
            Some(a.track_table.selected_index),
        )
    }
}

/// What an up press does: from the first row of a pageable listing with a
/// previous page, load that page (putting the selection on its last row),
/// otherwise step the selection up with wrap-around.
pub open spec fn up_transition(a: &App, b: &App) -> bool {
    let len = a.track_table.tracks@.len() as int;
    let at_first = a.track_table.selected_index == 0;
    let my_prev = at_first && a.track_table.context == Some(TrackTableContext::MyPlaylists)
        && a.playlist_offset > 0 && selected_playlist(a) is Some;
    let mfy_prev = at_first && a.track_table.context == Some(TrackTableContext::MadeForYou)
        && a.made_for_you_offset > 0 && made_for_you_playlist(a) is Some;
    let saved_prev = at_first && a.track_table.context == Some(TrackTableContext::SavedTracks)
        && a.library.saved_tracks.index > 0;
    &&& keeps_misc(a, b)
    &&& if my_prev {
        let new_off = if a.playlist_offset >= a.large_search_limit {
            a.playlist_offset - a.large_search_limit
        } else {
            0
        };
        &&& b.playlist_offset == new_off
        &&& b.made_for_you_offset == a.made_for_you_offset
        &&& b.library.saved_tracks.index == a.library.saved_tracks.index
        &&& b.track_table.selected_index == a.large_search_limit - 1
        &&& b.pending_io@ == (match selected_playlist(a) {
            Some(pl) => a.pending_io@.push(
                IoEvent::GetPlaylistItems(pl.id, (new_off as u32)),
            ),
            None => a.pending_io@,
        })
    } else if mfy_prev {
        let new_off = if a.made_for_you_offset >= a.large_search_limit {
            a.made_for_you_offset - a.large_search_limit
        } else {
            0
        };
        &&& b.playlist_offset == a.playlist_offset
        &&& b.made_for_you_offset == new_off
        &&& b.library.saved_tracks.index == a.library.saved_tracks.index
        &&& b.track_table.selected_index == a.large_search_limit - 1
        &&& b.pending_io@ == (match made_for_you_playlist(a) {
            Some(pl) => a.pending_io@.push(
                IoEvent::GetMadeForYouPlaylistItems(pl.id, (new_off as u32)),
            ),
            None => a.pending_io@,
        })
    } else if saved_prev {
        &&& b.playlist_offset == a.playlist_offset
        &&& b.made_for_you_offset == a.made_for_you_offset
        &&& b.library.saved_tracks.index == a.library.saved_tracks.index - 1
        &&& b.track_table.selected_index == a.large_search_limit - 1
        &&& b.pending_io@ == a.pending_io@
    } else {
        &&& b.playlist_offset == a.playlist_offset
        &&& b.made_for_you_offset == a.made_for_you_offset
        &&& b.library.saved_tracks.index == a.library.saved_tracks.index
        &&& b.pending_io@ == a.pending_io@
        &&& b.track_table.selected_index == crate::keys::next_index_up(
            len,
            Some(a.track_table.selected_index),
        )
    }
}

/// What a next-page press does: request the following page of the current
/// pageable listing when more rows exist, leaving the selection alone.
pub open spec fn next_page_transition(a: &App, b: &App) -> bool {
    let my_more = a.track_table.context == Some(TrackTableContext::MyPlaylists)
        && selected_playlist(a) is Some && (match a.playlist_tracks {
        Some(pt) => a.playlist_offset + a.large_search_limit < pt.total,
        None => false,
    });
    let mfy_more = a.track_table.context == Some(TrackTableContext::MadeForYou)
        && made_for_you_playlist(a) is Some && (match a.made_for_you_tracks {
        Some(pt) => a.made_for_you_offset + a.large_search_limit < pt.total,
        None => false,
    });
    &&& keeps_misc(a, b)
    &&& b.track_table.selected_index == a.track_table.selected_index
    &&& if my_more {
        &&& b.playlist_offset == a.playlist_offset + a.large_search_limit
        &&& b.made_for_you_offset == a.made_for_you_offset
        &&& b.library.saved_tracks.index == a.library.saved_tracks.index
        &&& b.pending_io@ == (match selected_playlist(a) {
            Some(pl) => a.pending_io@.push(
                IoEvent::GetPlaylistItems(
                    pl.id,
                    ((a.playlist_offset + a.large_search_limit) as u32),
                ),
            ),
            None => a.pending_io@,
        })
    } else if a.track_table.context == Some(TrackTableContext::SavedTracks) {
        &&& b.playlist_offset == a.playlist_offset
        &&& b.made_for_you_offset == a.made_for_you_offset
        &&& saved_next_effect(a, b)
    } else if mfy_more {
        &&& b.playlist_offset == a.playlist_offset
        &&& b.made_for_you_offset == a.made_for_you_offset + a.large_search_limit
        &&& b.library.saved_tracks.index == a.library.saved_tracks.index
        &&& b.pending_io@ == (match made_for_you_playlist(a) {
            Some(pl) => a.pending_io@.push(
                IoEvent::GetMadeForYouPlaylistItems(
                    pl.id,
                    ((a.made_for_you_offset + a.large_search_limit) as u32),
                ),
            ),
            None => a.pending_io@,
        })
    } else {
        &&& b.playlist_offset == a.playlist_offset
        &&& b.made_for_you_offset == a.made_for_you_offset
        &&& b.library.saved_tracks.index == a.library.saved_tracks.index
        &&& b.pending_io@ == a.pending_io@
    }
}

/// What a previous-page press does: step the paging offset back one page
/// (stopping at the first) and request that page, leaving the selection
/// alone.
pub open spec fn prev_page_transition(a: &App, b: &App) -> bool {
    let my_sel = a.track_table.context == Some(TrackTableContext::MyPlaylists) && a.playlists
        is Some && a.selected_playlist_index is Some;
    let mfy_page = a.track_table.context == Some(TrackTableContext::MadeForYou)
        && a.library.made_for_you_playlists.pages@.len() > 0;
    &&& keeps_misc(a, b)
    &&& b.track_table.selected_index == a.track_table.selected_index
    &&& if my_sel {
        let new_off = if a.playlist_offset >= a.large_search_limit {
            a.playlist_offset - a.large_search_limit
        } else {
            a.playlist_offset as int
        };
        &&& b.playlist_offset == new_off
        &&& b.made_for_you_offset == a.made_for_you_offset
        &&& b.library.saved_tracks.index == a.library.saved_tracks.index
        &&& b.pending_io@ == (match selected_playlist(a) {
            Some(pl) => a.pending_io@.push(
                IoEvent::GetPlaylistItems(pl.id, (new_off as u32)),
            ),
            None => a.pending_io@,
        })
    } else if a.track_table.context == Some(TrackTableContext::SavedTracks) {
        &&& b.playlist_offset == a.playlist_offset
        &&& b.made_for_you_offset == a.made_for_you_offset
        &&& b.library.saved_tracks.index == (if a.library.saved_tracks.index > 0 {
            a.library.saved_tracks.index - 1
        } else {
            0
        })
        &&& b.pending_io@ == a.pending_io@
    } else if mfy_page {
        let new_off = if a.made_for_you_offset >= a.large_search_limit {
            a.made_for_you_offset - a.large_search_limit
        } else {
            a.made_for_you_offset as int
        };
        &&& b.playlist_offset == a.playlist_offset
        &&& b.made_for_you_offset == new_off
        &&& b.library.saved_tracks.index == a.library.saved_tracks.index
        &&& b.pending_io@ == (match made_for_you_playlist(a) {
            Some(pl) => a.pending_io@.push(
                IoEvent::GetMadeForYouPlaylistItems(pl.id, (new_off as u32)),
            ),
            None => a.pending_io@,
        })
    } else {
        &&& b.playlist_offset == a.playlist_offset
        &&& b.made_for_you_offset == a.made_for_you_offset
        &&& b.library.saved_tracks.index == a.library.saved_tracks.index
        &&& b.pending_io@ == a.pending_io@
    }
}

/// Routes one key press on the track table: selection movement, paging,
/// playback, queueing, saving and recommendation seeding. Guards are tried
/// in a fixed order, so the contract of each arm holds under the negation of
/// the arms before it; every arm leaves the fields of `table_nav_frame`
/// alone and only ever appends to the recorded requests.
pub fn handler(key: Key, app: &mut App)
    requires
        old(app).wf(),
        old(app).saved_page_offsets_bounded(),
        offsets_fit(old(app)),
    ensures
        old(app).table_nav_frame(final(app)),
        left_event_spec(key) ==> left_effect(old(app), final(app)),
        !left_event_spec(key) && down_event_spec(key) ==> down_transition(old(app), final(app)),
        !left_event_spec(key) && !down_event_spec(key) && up_event_spec(key) ==> up_transition(
            old(app),
            final(app),
        ),
        high_event_spec(key) ==> select_effect(old(app), final(app), 0),
        middle_event_spec(key) ==> select_effect(
            old(app),
            final(app),
            old(app).track_table.tracks@.len() as int / 2,
        ),
        low_event_spec(key) ==> select_effect(
            old(app),
            final(app),
            if old(app).track_table.tracks@.len() > 0 {
                old(app).track_table.tracks@.len() - 1
            } else {
                0
            },
        ),
        key == Key::Enter ==> enter_effect(old(app), final(app)),
        plain_key(key, old(app)) && key == old(app).user_config.keys.next_page
            ==> next_page_transition(old(app), final(app)),
        plain_key(key, old(app)) && key != old(app).user_config.keys.next_page && key == old(
            app,
        ).user_config.keys.previous_page ==> prev_page_transition(old(app), final(app)),
        plain_key(key, old(app)) && !page_key(key, old(app)) && key == Key::Char('s')
            ==> save_effect(old(app), final(app)),
        plain_key(key, old(app)) && !page_key(key, old(app)) && key == Key::Char('S')
            ==> random_effect(old(app), final(app)),
        plain_key(key, old(app)) && !page_key(key, old(app)) && key != Key::Char('s') && key
            != Key::Char('S') && key == old(app).user_config.keys.jump_to_end ==> jump_end_effect(
            old(app),
            final(app),
        ),
        plain_key(key, old(app)) && !page_key(key, old(app)) && key != Key::Char('s') && key
            != Key::Char('S') && key != old(app).user_config.keys.jump_to_end && key == old(
            app,
        ).user_config.keys.jump_to_start ==> jump_start_effect(old(app), final(app)),
        plain_key(key, old(app)) && !page_key(key, old(app)) && key != Key::Char('s') && key
            != Key::Char('S') && key != old(app).user_config.keys.jump_to_end && key != old(
            app,
        ).user_config.keys.jump_to_start && key == Key::Char('r') ==> recommend_effect(
            old(app),
            final(app),
        ),
        plain_key(key, old(app)) && !page_key(key, old(app)) && key != Key::Char('s') && key
            != Key::Char('S') && key != old(app).user_config.keys.jump_to_end && key != old(
            app,
        ).user_config.keys.jump_to_start && key != Key::Char('r') && key == old(
            app,
        ).user_config.keys.add_item_to_queue ==> queue_effect(old(app), final(app)),
        plain_key(key, old(app)) && !page_key(key, old(app)) && key != Key::Char('s') && key
            != Key::Char('S') && key != old(app).user_config.keys.jump_to_end && key != old(
            app,
        ).user_config.keys.jump_to_start && key != Key::Char('r') && key != old(
            app,
        ).user_config.keys.add_item_to_queue ==> *final(app) == *old(app),
{
    if left_event(key) {
        handle_left_event(app);
    } else if down_event(key) {
        let current_index = app.track_table.selected_index;
        let tracks_len = app.track_table.tracks.len();
        if tracks_len > 0 && current_index == tracks_len - 1 {
            match &app.track_table.context {
                Some(TrackTableContext::MyPlaylists) => {
                    if let (Some(playlists), Some(selected_playlist_index)) = (
                        &app.playlists,
                        &app.selected_playlist_index,
                    ) {
                        if *selected_playlist_index < playlists.items.len() {
                            if let Some(playlist_tracks) = &app.playlist_tracks {
                                if (app.playlist_offset as u64) + (app.large_search_limit as u64)
                                    < (playlist_tracks.total as u64) {
                                    let playlist_id = playlist_id_static_from_ref(
                                        &playlists.items[*selected_playlist_index].id,
                                    );
                                    app.playlist_offset = app.playlist_offset
                                        + app.large_search_limit;
                                    app.dispatch(
                                        IoEvent::GetPlaylistItems(playlist_id, app.playlist_offset),
                                    );
                                    app.track_table.selected_index = 0;
                                    return ;
                                }
                            }
                        }
                    }
                },
                Some(TrackTableContext::MadeForYou) => {
                    let target: Option<PlaylistId> = match app
                        .library
                        .made_for_you_playlists
                        .get_results(Some(0)) {
                        Some(page) => {
                            if app.made_for_you_index < page.items.len() {
                                Some(
                                    playlist_id_static_from_ref(
                                        &page.items[app.made_for_you_index].id,
                                    ),
                                )
                            } else {
                                None
                            }
                        },
                        None => None,
                    };
                    if let Some(playlist_id) = target {
                        if let Some(made_for_you_tracks) = &app.made_for_you_tracks {
                            if (app.made_for_you_offset as u64) + (app.large_search_limit as u64)
                                < (made_for_you_tracks.total as u64) {
                                app.made_for_you_offset = app.made_for_you_offset
                                    + app.large_search_limit;
                                app.dispatch(
                                    IoEvent::GetMadeForYouPlaylistItems(
                                        playlist_id,
                                        app.made_for_you_offset,
                                    ),
                                );
                                app.track_table.selected_index = 0;
                                return ;
                            }
                        }
                    }
                },
                Some(TrackTableContext::SavedTracks) => {
                    let more: bool = match app.library.saved_tracks.get_results(None) {
                        Some(saved_tracks) => (saved_tracks.offset as u64) + (saved_tracks.limit
                            as u64) < (saved_tracks.total as u64),
                        None => false,
                    };
                    if more {
                        app.get_current_user_saved_tracks_next();
                        app.track_table.selected_index = 0;
                        return ;
                    }
                },
                _ => {},
            }
        }
        let next_index = on_down_press_handler(
            app.track_table.tracks.as_slice(),
            Some(app.track_table.selected_index),
        );
        app.track_table.selected_index = next_index;
    } else if up_event(key) {
        let current_index = app.track_table.selected_index;
        if current_index == 0 {
            match &app.track_table.context {
                Some(TrackTableContext::MyPlaylists) => {
                    if app.playlist_offset > 0 {
                        if let (Some(playlists), Some(selected_playlist_index)) = (
                            &app.playlists,
                            &app.selected_playlist_index,
                        ) {
                            if *selected_playlist_index < playlists.items.len() {
                                let playlist_id = playlist_id_static_from_ref(
                                    &playlists.items[*selected_playlist_index].id,
                                );
                                app.playlist_offset = if app.playlist_offset
                                    >= app.large_search_limit {
                                    app.playlist_offset - app.large_search_limit
                                } else {
                                    0
                                };
                                app.dispatch(
                                    IoEvent::GetPlaylistItems(playlist_id, app.playlist_offset),
                                );
                                app.track_table.selected_index = (app.large_search_limit
                                    - 1) as usize;
                                return ;
                            }
                        }
                    }
                },
                Some(TrackTableContext::MadeForYou) => {
                    if app.made_for_you_offset > 0 {
                        let target: Option<PlaylistId> = match app
                            .library
                            .made_for_you_playlists
                            .get_results(Some(0)) {
                            Some(page) => {
                                if app.made_for_you_index < page.items.len() {
                                    Some(
                                        playlist_id_static_from_ref(
                                            &page.items[app.made_for_you_index].id,
                                        ),
                                    )
                                } else {
                                    None
                                }
                            },
                            None => None,
                        };
                        if let Some(playlist_id) = target {
                            app.made_for_you_offset = if app.made_for_you_offset
                                >= app.large_search_limit {
                                app.made_for_you_offset - app.large_search_limit
                            } else {
                                0
                            };
                            app.dispatch(
                                IoEvent::GetMadeForYouPlaylistItems(
                                    playlist_id,
                                    app.made_for_you_offset,
                                ),
                            );
                            app.track_table.selected_index = (app.large_search_limit - 1) as usize;
                            return ;
                        }
                    }
                },
                Some(TrackTableContext::SavedTracks) => {
                    if app.library.saved_tracks.index > 0 {
                        app.get_current_user_saved_tracks_previous();
                        app.track_table.selected_index = (app.large_search_limit - 1) as usize;
                        return ;
                    }
                },
                _ => {},
            }
        }
        let next_index = on_up_press_handler(
            app.track_table.tracks.as_slice(),
            Some(app.track_table.selected_index),
        );
        app.track_table.selected_index = next_index;
    } else if high_event(key) {
        let next_index = on_high_press_handler();
        app.track_table.selected_index = next_index;
    } else if middle_event(key) {
        let next_index = on_middle_press_handler(app.track_table.tracks.as_slice());
        app.track_table.selected_index = next_index;
    } else if low_event(key) {
        let next_index = on_low_press_handler(app.track_table.tracks.as_slice());
        app.track_table.selected_index = next_index;
    } else if key == Key::Enter {
        on_enter(app);
    } else if key == app.user_config.keys.next_page {
        scroll_down(app);
    } else if key == app.user_config.keys.previous_page {
        scroll_up(app);
    } else if key == Key::Char('s') {
        handle_save_track_event(app);
    } else if key == Key::Char('S') {
        play_random_song(app);
    } else if key == app.user_config.keys.jump_to_end {
        jump_to_end(app);
    } else if key == app.user_config.keys.jump_to_start {
        jump_to_start(app);
    } else if key == Key::Char('r') {
        handle_recommended_tracks(app);
    } else if key == app.user_config.keys.add_item_to_queue {
        on_queue(app);
    }
}

/// The key matched none of the fixed navigation guards before the
/// configurable ones.
pub open spec fn plain_key(k: Key, a: &App) -> bool {
    &&& !left_event_spec(k)
    &&& !down_event_spec(k)
    &&& !up_event_spec(k)
    &&& !high_event_spec(k)
    &&& !middle_event_spec(k)
    &&& !low_event_spec(k)
    &&& k != Key::Enter
}

/// The key is one of the two paging keys.
pub open spec fn page_key(k: Key, a: &App) -> bool {
    k == a.user_config.keys.next_page || k == a.user_config.keys.previous_page
}

/// Loads the next page of the current pageable listing, if more rows exist.
fn scroll_down(app: &mut App)
    requires
        old(app).saved_page_offsets_bounded(),
    ensures
        next_page_transition(old(app), final(app)),
{
    match &app.track_table.context {
        Some(TrackTableContext::MyPlaylists) => {
            if let (Some(playlists), Some(selected_playlist_index)) = (
                &app.playlists,
                &app.selected_playlist_index,
            ) {
                if *selected_playlist_index < playlists.items.len() {
                    if let Some(playlist_tracks) = &app.playlist_tracks {
                        if (app.playlist_offset as u64) + (app.large_search_limit as u64)
                            < (playlist_tracks.total as u64) {
                            let playlist_id = playlist_id_static_from_ref(
                                &playlists.items[*selected_playlist_index].id,
                            );
                            app.playlist_offset = app.playlist_offset + app.large_search_limit;
                            app.dispatch(
                                IoEvent::GetPlaylistItems(playlist_id, app.playlist_offset),
                            );
                        }
                    }
                }
            }
        },
        Some(TrackTableContext::SavedTracks) => {
            app.get_current_user_saved_tracks_next();
        },
        Some(TrackTableContext::MadeForYou) => {
            let target: Option<PlaylistId> = match app
                .library
                .made_for_you_playlists
                .get_results(Some(0)) {
                Some(page) => {
                    if app.made_for_you_index < page.items.len() {
                        Some(playlist_id_static_from_ref(&page.items[app.made_for_you_index].id))
                    } else {
                        None
                    }
                },
                None => None,
            };
            if let Some(playlist_id) = target {
                if let Some(made_for_you_tracks) = &app.made_for_you_tracks {
                    if (app.made_for_you_offset as u64) + (app.large_search_limit as u64)
                        < (made_for_you_tracks.total as u64) {
                        app.made_for_you_offset = app.made_for_you_offset + app.large_search_limit;
                        app.dispatch(
                            IoEvent::GetMadeForYouPlaylistItems(
                                playlist_id,
                                app.made_for_you_offset,
                            ),
                        );
                    }
                }
            }
        },
        _ => {},
    }
}

/// Steps the paging offset of the current pageable listing one page back and
/// requests that page.
fn scroll_up(app: &mut App)
    ensures
        prev_page_transition(old(app), final(app)),
{
    match &app.track_table.context {
        Some(TrackTableContext::MyPlaylists) => {
            if app.playlists.is_some() && app.selected_playlist_index.is_some() {
                if app.playlist_offset >= app.large_search_limit {
                    app.playlist_offset = app.playlist_offset - app.large_search_limit;
                }
                let target: Option<PlaylistId> = match (
                    &app.playlists,
                    &app.selected_playlist_index,
                ) {
                    (Some(playlists), Some(selected_playlist_index)) => {
                        if *selected_playlist_index < playlists.items.len() {
                            Some(
                                playlist_id_static_from_ref(
                                    &playlists.items[*selected_playlist_index].id,
                                ),
                            )
                        } else {
                            None
                        }
                    },
                    _ => None,
                };
                if let Some(playlist_id) = target {
                    app.dispatch(IoEvent::GetPlaylistItems(playlist_id, app.playlist_offset));
                }
            }
        },
        Some(TrackTableContext::SavedTracks) => {
            app.get_current_user_saved_tracks_previous();
        },
        Some(TrackTableContext::MadeForYou) => {
            if app.library.made_for_you_playlists.pages.len() > 0 {
                if app.made_for_you_offset >= app.large_search_limit {
                    app.made_for_you_offset = app.made_for_you_offset - app.large_search_limit;
                }
                let target: Option<PlaylistId> = match app
                    .library
                    .made_for_you_playlists
                    .get_results(Some(0)) {
                    Some(page) => {
                        if app.made_for_you_index < page.items.len() {
                            Some(
                                playlist_id_static_from_ref(
                                    &page.items[app.made_for_you_index].id,
                                ),
                            )
                        } else {
                            None
                        }
                    },
                    None => None,
                };
                if let Some(playlist_id) = target {
                    app.dispatch(
                        IoEvent::GetMadeForYouPlaylistItems(playlist_id, app.made_for_you_offset),
                    );
                }
            }
        },
        _ => {},
    }
}

/// Per row, a saved page's playables are its tracks' playables.
proof fn lemma_saved_playables_as_tracks(items: Seq<SavedTrackItem>)
    ensures
        saved_playables(items) == track_playables(
            items.map_values(|s: SavedTrackItem| s.track),
        ),
    decreases items.len(),
{
    let mapped = items.map_values(|s: SavedTrackItem| s.track);
    if items.len() == 0 {
        assert(saved_playables(items) =~= track_playables(mapped));
    } else {
        lemma_saved_playables_as_tracks(items.drop_last());
        assert(items.drop_last().map_values(|s: SavedTrackItem| s.track) =~= mapped.drop_last());
        assert(mapped.last() == items.last().track);
    }
}

} // verus!
