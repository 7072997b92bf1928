use vstd::prelude::*;
use crate::keys::Key;

verus! {

/// Identifier of a playlist, as the streaming service names it.
#[derive(Debug, PartialEq)]
#[verifier::ext_equal]
pub struct PlaylistId {
    pub id: String,
}

impl Clone for PlaylistId {
    fn clone(&self) -> (r: Self)
        ensures
            r == *self,
    {
        let r = PlaylistId { id: self.id.clone() };
        proof {
            assert(r =~= *self);
        }
        r
    }
}

/// Identifier of a single track.
#[derive(Debug, PartialEq)]
#[verifier::ext_equal]
pub struct TrackId {
    pub id: String,
}

impl Clone for TrackId {
    fn clone(&self) -> (r: Self)
        ensures
            r == *self,
    {
        let r = TrackId { id: self.id.clone() };
        proof {
            assert(r =~= *self);
        }
        r
    }
}

/// Identifier of a playback context (only playlists are played from here).
#[derive(Debug, PartialEq)]
#[verifier::ext_equal]
pub enum PlayContextId {
    Playlist(PlaylistId),
}

/// Identifier of something playable (only tracks are queued from here).
#[derive(Debug, PartialEq)]
#[verifier::ext_equal]
pub enum PlayableId {
    Track(TrackId),
}

impl Clone for PlayableId {
    fn clone(&self) -> (r: Self)
        ensures
            r == *self,
    {
        match self {
            PlayableId::Track(t) => PlayableId::Track(t.clone()),
        }
    }
}

/// One track row of the table.
#[derive(Debug, PartialEq)]
#[verifier::ext_equal]
pub struct TrackItem {
    /// The track's identifier; local files have none.
    pub id: Option<TrackId>,
    pub name: String,
}

impl Clone for TrackItem {
    fn clone(&self) -> (r: Self)
        ensures
            r == *self,
    {
        let id = match &self.id {
            Option::Some(t) => Option::Some(t.clone()),
            Option::None => Option::None,
        };
        let r = TrackItem { id, name: self.name.clone() };
        proof {
            assert(r =~= *self);
        }
        r
    }
}

/// One saved-tracks row: the track inside its saved wrapper.
#[derive(Debug, PartialEq)]
#[verifier::ext_equal]
pub struct SavedTrackItem {
    pub track: TrackItem,
}

/// A playlist row: its identifier and how many tracks the service reports.
#[derive(Debug, PartialEq)]
#[verifier::ext_equal]
pub struct PlaylistItem {
    pub id: PlaylistId,
    pub tracks_total: u32,
}

/// One page of results fetched from the service.
#[derive(Debug, PartialEq)]
#[verifier::ext_equal]
pub struct Page<T> {
    pub items: Vec<T>,
    pub total: u32,
    pub offset: u32,
    pub limit: u32,
}

/// Pages fetched so far, with the page currently on screen.
#[derive(Debug, PartialEq)]
#[verifier::ext_equal]
pub struct ScrollableResultPages<T> {
    pub index: usize,
    pub pages: Vec<Page<T>>,
}

impl<T> ScrollableResultPages<T> {
    /// The page at the given index, or the one on screen.
    pub fn get_results(&self, at_index: Option<usize>) -> (r: Option<&Page<T>>)
        ensures
            r == (match at_index {
                Option::Some(i) => if i < self.pages@.len() {
                    Option::Some(&self.pages@[i as int])
                } else {
                    Option::None
                },
                Option::None => if self.index < self.pages@.len() {
                    Option::Some(&self.pages@[self.index as int])
                } else {
                    Option::None
                },
            }),
    {
        let i = match at_index {
            Option::Some(i) => i,
            Option::None => self.index,
        };
        if i < self.pages.len() {
            Option::Some(&self.pages[i])
        } else {
            Option::None
        }
    }
}

/// Which listing fills the track table.
#[derive(Clone, Copy, PartialEq, Eq, Structural, Debug)]
pub enum TrackTableContext {
    MyPlaylists,
    RecommendedTracks,
    SavedTracks,
    AlbumSearch,
    PlaylistSearch,
    MadeForYou,
}

/// The track table: its rows, the selected row, and where the rows came from.
#[derive(Debug, PartialEq)]
#[verifier::ext_equal]
pub struct TrackTable {
    pub context: Option<TrackTableContext>,
    pub selected_index: usize,
    pub tracks: Vec<TrackItem>,
}

/// What seeded the recommendations view.
#[derive(Clone, Copy, PartialEq, Eq, Structural, Debug)]
pub enum RecommendationsContext {
    Artist,
    Song,
}

/// The user's saved library.
#[derive(Debug, PartialEq)]
#[verifier::ext_equal]
pub struct Library {
    pub saved_tracks: ScrollableResultPages<SavedTrackItem>,
    pub made_for_you_playlists: ScrollableResultPages<PlaylistItem>,
}

/// Search results, reduced to what the track table reads.
#[derive(Debug, PartialEq)]
#[verifier::ext_equal]
pub struct SearchResults {
    pub selected_playlists_index: Option<usize>,
    pub playlists: Option<Page<PlaylistItem>>,
}

/// Configurable key bindings the handler consults.
#[derive(Clone, Copy, PartialEq, Eq, Structural, Debug)]
pub struct KeyBindings {
    pub next_page: Key,
    pub previous_page: Key,
    pub jump_to_start: Key,
    pub jump_to_end: Key,
    pub add_item_to_queue: Key,
}

#[derive(Clone, Copy, PartialEq, Eq, Structural, Debug)]
pub struct UserConfig {
    pub keys: KeyBindings,
}

/// A request for the network layer, recorded by the handler and performed
/// outside it.
#[derive(Debug, PartialEq)]
#[verifier::ext_equal]
pub enum IoEvent {
    GetPlaylistItems(PlaylistId, u32),
    GetMadeForYouPlaylistItems(PlaylistId, u32),
    GetCurrentSavedTracks(Option<u32>),
    StartPlayback(Option<PlayContextId>, Option<Vec<PlayableId>>, Option<usize>),
    ToggleSaveTrack(PlayableId),
    AddItemToQueue(PlayableId),
    GetRecommendationsForSeed(Option<Vec<String>>, Option<TrackItem>),
}

/// Navigation and listing state the track table works against. The wider
/// application owns more; this holds exactly what the table's key handler
/// reads and writes, with network requests recorded in `pending_io` for the
/// embedding to perform.
#[verifier::ext_equal]
pub struct App {
    pub track_table: TrackTable,
    pub playlists: Option<Page<PlaylistItem>>,
    pub selected_playlist_index: Option<usize>,
    pub active_playlist_index: Option<usize>,
    pub playlist_tracks: Option<Page<TrackItem>>,
    pub made_for_you_tracks: Option<Page<TrackItem>>,
    pub playlist_offset: u32,
    pub made_for_you_offset: u32,
    pub made_for_you_index: usize,
    pub large_search_limit: u32,
    pub library: Library,
    pub search_results: SearchResults,
    pub recommended_tracks: Vec<TrackItem>,
    pub recommendations_context: Option<RecommendationsContext>,
    pub recommendations_seed: String,
    pub user_config: UserConfig,
    /// True when focus has moved back out of the table to the sidebar; the
    /// route stack of the full application is reduced to this flag here.
    pub sidebar_focused: bool,
    /// Requests recorded for the network layer, oldest first.
    pub pending_io: Vec<IoEvent>,
}

impl App {
    /// The one structural assumption the handler needs: a page size of zero
    /// would make paging meaningless.
    pub open spec fn wf(&self) -> bool {
        self.large_search_limit >= 1
    }

    /// The fields no table operation ever writes.
    pub open spec fn table_nav_frame(&self, b: &App) -> bool {
        &&& b.track_table.context == self.track_table.context
        &&& b.track_table.tracks == self.track_table.tracks
        &&& b.playlists == self.playlists
        &&& b.selected_playlist_index == self.selected_playlist_index
        &&& b.active_playlist_index == self.active_playlist_index
        &&& b.playlist_tracks == self.playlist_tracks
        &&& b.made_for_you_tracks == self.made_for_you_tracks
        &&& b.made_for_you_index == self.made_for_you_index
        &&& b.large_search_limit == self.large_search_limit
        &&& b.library.saved_tracks.pages == self.library.saved_tracks.pages
        &&& b.library.made_for_you_playlists == self.library.made_for_you_playlists
        &&& b.search_results == self.search_results
        &&& b.recommended_tracks == self.recommended_tracks
        &&& b.user_config == self.user_config
    }

    /// Nothing changed but possibly the recorded requests.
    pub open spec fn only_io_changed(&self, b: &App) -> bool {
        &&& self.table_nav_frame(b)
        &&& b.track_table.selected_index == self.track_table.selected_index
        &&& b.playlist_offset == self.playlist_offset
        &&& b.made_for_you_offset == self.made_for_you_offset
        &&& b.library.saved_tracks.index == self.library.saved_tracks.index
        &&& b.recommendations_context == self.recommendations_context
        &&& b.recommendations_seed == self.recommendations_seed
        &&& b.sidebar_focused == self.sidebar_focused
    }

    /// Records one request for the network layer; the handler itself does no
    /// input or output.
    pub fn dispatch(&mut self, ev: IoEvent)
        ensures
            old(self).only_io_changed(final(self)),
            final(self).pending_io@ == old(self).pending_io@.push(ev),
            final(self).pending_io@.take(old(self).pending_io@.len() as int) == old(
                self,
            ).pending_io@,
            final(self).pending_io@.last() == ev,
    {
        self.pending_io.push(ev);
        proof {
            assert(self.pending_io@.take(old(self).pending_io@.len() as int) =~= old(
                self,
            ).pending_io@);
        }
    }

    /// Moves the saved-tracks view one page forward: to the next already
    /// fetched page, or, when on the last fetched page, records a request
    /// for the page after it.
    pub fn get_current_user_saved_tracks_next(&mut self)
        requires
            old(self).saved_page_offsets_bounded(),
        ensures
            old(self).table_nav_frame(final(self)),
            final(self).track_table.selected_index == old(self).track_table.selected_index,
            final(self).playlist_offset == old(self).playlist_offset,
            final(self).made_for_you_offset == old(self).made_for_you_offset,
            final(self).recommendations_context == old(self).recommendations_context,
            final(self).recommendations_seed == old(self).recommendations_seed,
            final(self).sidebar_focused == old(self).sidebar_focused,
            old(self).library.saved_tracks.index + 1 < old(self).library.saved_tracks.pages@.len()
                ==> {
                &&& final(self).library.saved_tracks.index == old(
                    self,
                ).library.saved_tracks.index + 1
                &&& final(self).pending_io@ == old(self).pending_io@
            },
            !(old(self).library.saved_tracks.index + 1 < old(
                self,
            ).library.saved_tracks.pages@.len()) ==> {
                &&& final(self).library.saved_tracks.index == old(self).library.saved_tracks.index
                &&& final(self).pending_io@ == (match saved_page_of(old(self)) {
                    Option::Some(p) => old(self).pending_io@.push(
                        IoEvent::GetCurrentSavedTracks(
                            Option::Some((p.offset + p.limit) as u32),
                        ),
                    ),
                    Option::None => old(self).pending_io@,
                })
            },
    {
        let cur = self.library.saved_tracks.index;
        let len = self.library.saved_tracks.pages.len();
        if len > 0 && cur < len - 1 {
            self.library.saved_tracks.index = cur + 1;
        } else {
            let (off, has) = match self.library.saved_tracks.get_results(Option::None) {
                Option::Some(p) => ((p.offset + p.limit), true),
                Option::None => (0, false),
            };
            if has {
                self.dispatch(IoEvent::GetCurrentSavedTracks(Option::Some(off)));
            }
        }
    }

    /// Every fetched saved-tracks page has a next-page offset that still fits
    /// the service's offset type.
    pub open spec fn saved_page_offsets_bounded(&self) -> bool {
        forall|i: int|
            0 <= i < self.library.saved_tracks.pages@.len()
                ==> (#[trigger] self.library.saved_tracks.pages@[i]).offset
                + self.library.saved_tracks.pages@[i].limit <= u32::MAX
    }

    /// Moves the saved-tracks view one page back, stopping at the first.
    pub fn get_current_user_saved_tracks_previous(&mut self)
        ensures
            old(self).table_nav_frame(final(self)),
            final(self).track_table.selected_index == old(self).track_table.selected_index,
            final(self).playlist_offset == old(self).playlist_offset,
            final(self).made_for_you_offset == old(self).made_for_you_offset,
            final(self).recommendations_context == old(self).recommendations_context,
            final(self).recommendations_seed == old(self).recommendations_seed,
            final(self).sidebar_focused == old(self).sidebar_focused,
            final(self).pending_io@ == old(self).pending_io@,
            final(self).library.saved_tracks.index == (if old(self).library.saved_tracks.index > 0 {
                old(self).library.saved_tracks.index - 1
            } else {
                0
            }),
    {
        if self.library.saved_tracks.index > 0 {
            self.library.saved_tracks.index = self.library.saved_tracks.index - 1;
        }
    }

    /// Records a recommendations request for the given seed tracks.
    pub fn get_recommendations_for_seed(
        &mut self,
        seed_track_ids: Option<Vec<String>>,
        first_track: Option<TrackItem>,
    )
        ensures
            old(self).only_io_changed(final(self)),
            final(self).pending_io@ == old(self).pending_io@.push(
                IoEvent::GetRecommendationsForSeed(seed_track_ids, first_track),
            ),
    {
        self.dispatch(IoEvent::GetRecommendationsForSeed(seed_track_ids, first_track));
    }
}

/// The saved-tracks page currently on screen, if fetched.
pub open spec fn saved_page_of(a: &App) -> Option<Page<SavedTrackItem>> {
    if a.library.saved_tracks.index < a.library.saved_tracks.pages@.len() {
        Option::Some(a.library.saved_tracks.pages@[a.library.saved_tracks.index as int])
    } else {
        Option::None
    }
}

} // verus!
