//! Songs, playlists, and the manager that owns the named playlists.

use crate::text::{extension, file_stem, lowercase, opt_chars, path_extension, path_file_stem, str_eq, str_lowercase};
use vstd::prelude::*;
use vstd::string::*;

verus! {

/// A point in time: seconds since the Unix epoch, and the nanoseconds within
/// that second.
#[derive(Debug, Clone, Copy, PartialEq, Eq, Structural)]
pub struct Timestamp {
    pub secs: i64,
    pub nanos: u32,
}

/// One entry of a playlist. `duration` is in milliseconds.
#[derive(Debug, Clone, PartialEq, Eq)]
pub struct Song {
    pub title: String,
    pub artist: String,
    pub file_path: String,
    pub duration: Option<u64>,
}

/// What a song holds, as plain text.
pub struct SongView {
    pub title: Seq<char>,
    pub artist: Seq<char>,
    pub file_path: Seq<char>,
    pub duration: Option<u64>,
}

impl View for Song {
    type V = SongView;

    open spec fn view(&self) -> SongView {
        SongView {
            title: self.title@,
            artist: self.artist@,
            file_path: self.file_path@,
            duration: self.duration,
        }
    }
}

/// The songs of a list, each as plain text, in order.
pub open spec fn songs_view(songs: Seq<Song>) -> Seq<SongView> {
    songs.map_values(|s: Song| s@)
}

/// The strings of a list, each as its characters, in order.
pub open spec fn strings_view(strings: Seq<String>) -> Seq<Seq<char>> {
    strings.map_values(|s: String| s@)
}

impl Song {
    /// A song with the same fields.
    pub fn duplicate(&self) -> (copy: Song)
        ensures
            copy@ == self@,
    {
        Song {
            title: self.title.clone(),
            artist: self.artist.clone(),
            file_path: self.file_path.clone(),
            duration: self.duration,
        }
    }

    /// The song that stands for an audio file of which only the path and the
    /// title are known.
    pub fn untagged(title: String, file_path: String) -> (song: Song)
        ensures
            song@ == untagged_song(title@, file_path@),
    {
        Song { title, artist: "Unknown".to_owned(), file_path, duration: None }
    }
}

/// A song without artist or duration.
pub open spec fn untagged_song(title: Seq<char>, file_path: Seq<char>) -> SongView {
    SongView { title, artist: "Unknown"@, file_path, duration: None }
}

/// A named, ordered list of songs.
#[derive(Debug, Clone, PartialEq, Eq)]
pub struct Playlist {
    pub name: String,
    pub songs: Vec<Song>,
    pub created_at: Timestamp,
}

/// What a playlist holds, as plain values.
pub struct PlaylistView {
    pub name: Seq<char>,
    pub songs: Seq<SongView>,
    pub created_at: Timestamp,
}

impl View for Playlist {
    type V = PlaylistView;

    open spec fn view(&self) -> PlaylistView {
        PlaylistView {
            name: self.name@,
            songs: songs_view(self.songs@),
            created_at: self.created_at,
        }
    }
}

/// Reads the clock with `chrono::Utc::now`. Nothing is promised of the time
/// that comes back.
#[verifier::external_body]
fn utc_now() -> (now: Timestamp) {
    let now = chrono::Utc::now();
    Timestamp { secs: now.timestamp(), nanos: now.timestamp_subsec_nanos() }
}

impl Playlist {
    /// An empty playlist, created now.
    pub fn new(name: String) -> (playlist: Playlist)
        ensures
            playlist@.name == name@,
            playlist@.songs == Seq::<SongView>::empty(),
    {
        Playlist::created_at(name, utc_now())
    }

    /// An empty playlist with the given creation time.
    pub fn created_at(name: String, created_at: Timestamp) -> (playlist: Playlist)
        ensures
            playlist@ == (PlaylistView { name: name@, songs: Seq::empty(), created_at }),
    {
        let playlist = Playlist { name, songs: Vec::new(), created_at };
        assert(playlist@.songs =~= Seq::empty());
        playlist
    }

    /// Appends a song.
    pub fn add_song(&mut self, song: Song)
        ensures
            final(self)@ == (PlaylistView { songs: old(self)@.songs.push(song@), ..old(self)@ }),
    {
        self.songs.push(song);
        assert(songs_view(self.songs@) =~= songs_view(old(self).songs@).push(song@));
    }

    /// Takes out the song at `index`, if there is one.
    pub fn remove_song(&mut self, index: usize) -> (removed: Option<Song>)
        ensures
            index < old(self)@.songs.len() ==> removed is Some
                && removed->0@ == old(self)@.songs[index as int]
                && final(self)@ == (PlaylistView {
                    songs: old(self)@.songs.remove(index as int),
                    ..old(self)@
                }),
            index >= old(self)@.songs.len() ==> removed is None && *final(self) == *old(self),
    {
        if index < self.songs.len() {
            let song = self.songs.remove(index);
            assert(songs_view(self.songs@) =~= songs_view(old(self).songs@).remove(index as int));
            Some(song)
        } else {
            None
        }
    }

    /// The song at `index`, if there is one.
    pub fn get_song(&self, index: usize) -> (song: Option<&Song>)
        ensures
            index < self@.songs.len() ==> song is Some && song->0@ == self@.songs[index as int],
            index >= self@.songs.len() ==> song is None,
    {
        if index < self.songs.len() {
            Some(&self.songs[index])
        } else {
            None
        }
    }

    /// The number of songs.
    pub fn len(&self) -> (n: usize)
        ensures
            n == self@.songs.len(),
    {
        self.songs.len()
    }

    /// Whether the playlist holds no song.
    pub fn is_empty(&self) -> (empty: bool)
        ensures
            empty == (self@.songs.len() == 0),
    {
        self.songs.len() == 0
    }

    /// A playlist with the same name, songs and creation time.
    pub fn duplicate(&self) -> (copy: Playlist)
        ensures
            copy@ == self@,
    {
        let mut songs: Vec<Song> = Vec::new();
        let mut i: usize = 0;
        while i < self.songs.len()
            invariant
                i <= self.songs.len(),
                songs@.len() == i,
                forall|j: int| 0 <= j < i ==> (#[trigger] songs@[j])@ == self.songs@[j]@,
            decreases self.songs.len() - i,
        {
            songs.push(self.songs[i].duplicate());
            i += 1;
        }
        assert(songs_view(songs@) =~= songs_view(self.songs@));
        Playlist { name: self.name.clone(), songs, created_at: self.created_at }
    }
}

/// Why the manager turned a request down.
#[derive(Debug, Clone, PartialEq, Eq)]
pub enum PlaylistError {
    /// A playlist of this name exists already.
    AlreadyExists(String),
    /// No playlist has this name.
    NotFound(String),
    /// No playlist is current.
    NoCurrentPlaylist,
    /// There is no current playlist, or it has no song at the index.
    RemoveFailed,
}

/// What an error says, as plain text.
pub enum PlaylistErrorView {
    AlreadyExists(Seq<char>),
    NotFound(Seq<char>),
    NoCurrentPlaylist,
    RemoveFailed,
}

impl View for PlaylistError {
    type V = PlaylistErrorView;

    open spec fn view(&self) -> PlaylistErrorView {
        match self {
            PlaylistError::AlreadyExists(name) => PlaylistErrorView::AlreadyExists(name@),
            PlaylistError::NotFound(name) => PlaylistErrorView::NotFound(name@),
            PlaylistError::NoCurrentPlaylist => PlaylistErrorView::NoCurrentPlaylist,
            PlaylistError::RemoveFailed => PlaylistErrorView::RemoveFailed,
        }
    }
}

/// The text of an error message.
pub open spec fn error_text(error: PlaylistErrorView) -> Seq<char> {
    match error {
        PlaylistErrorView::AlreadyExists(name) => "Playlist '"@ + name + "' already exists"@,
        PlaylistErrorView::NotFound(name) => "Playlist '"@ + name + "' not found"@,
        PlaylistErrorView::NoCurrentPlaylist => "No current playlist selected"@,
        PlaylistErrorView::RemoveFailed => "Failed to remove song"@,
    }
}

impl PlaylistError {
    /// The message for the operator.
    pub fn message(&self) -> (text: String)
        ensures
            text@ == error_text(self@),
    {
        match self {
            PlaylistError::AlreadyExists(name) => {
                let mut text = "Playlist '".to_owned();
                text.append(name.as_str());
                text.append("' already exists");
                text
            },
            PlaylistError::NotFound(name) => {
                let mut text = "Playlist '".to_owned();
                text.append(name.as_str());
                text.append("' not found");
                text
            },
            PlaylistError::NoCurrentPlaylist => "No current playlist selected".to_owned(),
            PlaylistError::RemoveFailed => "Failed to remove song".to_owned(),
        }
    }
}

/// Whether some playlist of the list has this name.
pub open spec fn has_name(playlists: Seq<Playlist>, name: Seq<char>) -> bool {
    exists|i: int| 0 <= i < playlists.len() && (#[trigger] playlists[i]).name@ == name
}

/// The place of a playlist with this name in the list.
pub open spec fn position(playlists: Seq<Playlist>, name: Seq<char>) -> int {
    choose|i: int| 0 <= i < playlists.len() && (#[trigger] playlists[i]).name@ == name
}

/// No two playlists of the list share a name.
pub open spec fn distinct_names(playlists: Seq<Playlist>) -> bool {
    forall|i: int, j: int|
        0 <= i < playlists.len() && 0 <= j < playlists.len() && (#[trigger] playlists[i]).name@ == (
        #[trigger] playlists[j]).name@ ==> i == j
}

/// The playlists of a list, each under its name.
pub open spec fn by_name(playlists: Seq<Playlist>) -> Map<Seq<char>, PlaylistView> {
    Map::new(|name: Seq<char>| has_name(playlists, name), |name: Seq<char>| playlists[position(playlists, name)]@)
}

/// In a list without repeated names, each playlist is the one found under its
/// name.
pub proof fn lemma_found_by_name(playlists: Seq<Playlist>, i: int)
    requires
        distinct_names(playlists),
        0 <= i < playlists.len(),
    ensures
        has_name(playlists, playlists[i].name@),
        position(playlists, playlists[i].name@) == i,
        by_name(playlists).dom().contains(playlists[i].name@),
        by_name(playlists)[playlists[i].name@] == playlists[i]@,
{
    let name = playlists[i].name@;
    assert(has_name(playlists, name));
    let j = position(playlists, name);
    assert(0 <= j < playlists.len() && playlists[j].name@ == name);
}

/// Appending a playlist with a fresh name adds one entry under that name.
pub proof fn lemma_push_fresh(playlists: Seq<Playlist>, playlist: Playlist)
    requires
        distinct_names(playlists),
        !has_name(playlists, playlist.name@),
    ensures
        distinct_names(playlists.push(playlist)),
        by_name(playlists.push(playlist)) == by_name(playlists).insert(playlist.name@, playlist@),
{
    let after = playlists.push(playlist);
    let last = playlists.len() as int;
    assert forall|i: int, j: int|
        0 <= i < after.len() && 0 <= j < after.len() && (#[trigger] after[i]).name@ == (
        #[trigger] after[j]).name@ implies i == j by {
        if i < last && j < last {
            assert(playlists[i].name@ == playlists[j].name@);
        } else if i < last {
            assert(playlists[i].name@ == playlist.name@);
        } else if j < last {
            assert(playlists[j].name@ == playlist.name@);
        }
    }
    assert forall|name: Seq<char>| has_name(after, name) <==> (has_name(playlists, name) || name
        == playlist.name@) by {
        if has_name(after, name) {
            let i = position(after, name);
            if i < last {
                assert(playlists[i].name@ == name);
            }
        }
        if has_name(playlists, name) {
            let i = position(playlists, name);
            assert(after[i].name@ == name);
        }
        if name == playlist.name@ {
            assert(after[last].name@ == name);
        }
    }
    assert forall|name: Seq<char>| has_name(after, name) implies #[trigger] by_name(after)[name]
        == by_name(playlists).insert(playlist.name@, playlist@)[name] by {
        let i = position(after, name);
        lemma_found_by_name(after, i);
        if i < last {
            assert(playlists[i].name@ == name);
            lemma_found_by_name(playlists, i);
        }
    }
    assert(by_name(after) =~= by_name(playlists).insert(playlist.name@, playlist@));
}

/// Replacing a playlist by one of the same name replaces the entry under that
/// name and no other.
pub proof fn lemma_replace(playlists: Seq<Playlist>, i: int, playlist: Playlist)
    requires
        distinct_names(playlists),
        0 <= i < playlists.len(),
        playlist.name@ == playlists[i].name@,
    ensures
        distinct_names(playlists.update(i, playlist)),
        by_name(playlists.update(i, playlist)) == by_name(playlists).insert(playlist.name@, playlist@),
{
    let after = playlists.update(i, playlist);
    assert forall|a: int, b: int|
        0 <= a < after.len() && 0 <= b < after.len() && (#[trigger] after[a]).name@ == (
        #[trigger] after[b]).name@ implies a == b by {
        assert(after[a].name@ == playlists[a].name@);
        assert(after[b].name@ == playlists[b].name@);
    }
    assert forall|name: Seq<char>| has_name(after, name) <==> has_name(playlists, name) by {
        if has_name(after, name) {
            let a = position(after, name);
            assert(playlists[a].name@ == name);
        }
        if has_name(playlists, name) {
            let a = position(playlists, name);
            assert(after[a].name@ == name);
        }
    }
    lemma_found_by_name(playlists, i);
    assert forall|name: Seq<char>| has_name(after, name) implies #[trigger] by_name(after)[name]
        == by_name(playlists).insert(playlist.name@, playlist@)[name] by {
        let a = position(after, name);
        lemma_found_by_name(after, a);
        assert(playlists[a].name@ == name);
        lemma_found_by_name(playlists, a);
    }
    assert(by_name(after) =~= by_name(playlists).insert(playlist.name@, playlist@));
}

/// Whether a lowercase extension is one that a scan takes in.
pub open spec fn is_scanned_extension(ext: Seq<char>) -> bool {
    ||| ext == "mp3"@
    ||| ext == "wav"@
    ||| ext == "flac"@
    ||| ext == "ogg"@
    ||| ext == "m4a"@
}

/// Whether a scan takes in the file at `path`: it has a stem, and its
/// extension, in any case, is one of the scanned formats.
pub open spec fn scan_accepts(path: Seq<char>) -> bool {
    match path_extension(path) {
        Some(ext) => is_scanned_extension(str_lowercase(ext)) && path_file_stem(path) is Some,
        None => false,
    }
}

/// The songs that a scan makes of the files it met, in the order met.
pub open spec fn scanned_songs(files: Seq<Seq<char>>) -> Seq<SongView>
    decreases files.len(),
{
    if files.len() == 0 {
        Seq::empty()
    } else {
        let before = scanned_songs(files.drop_last());
        let path = files.last();
        if scan_accepts(path) {
            before.push(untagged_song(path_file_stem(path)->0, path))
        } else {
            before
        }
    }
}

/// Tells whether an extension, already in lowercase, is one that a scan
/// takes in.
pub fn scanned_extension_matches(ext: &str) -> (known: bool)
    ensures
        known == is_scanned_extension(ext@),
{
    str_eq(ext, "mp3") || str_eq(ext, "wav") || str_eq(ext, "flac") || str_eq(ext, "ogg")
        || str_eq(ext, "m4a")
}

/// The named playlists, and which of them is current.
pub struct PlaylistManager {
    playlists: Vec<Playlist>,
    current_playlist: Option<String>,
}

/// What a manager holds: each playlist under its name, and the name of the
/// current one.
pub struct ManagerView {
    pub playlists: Map<Seq<char>, PlaylistView>,
    pub current: Option<Seq<char>>,
}

impl View for PlaylistManager {
    type V = ManagerView;

    closed spec fn view(&self) -> ManagerView {
        ManagerView {
            playlists: by_name(self.playlists@),
            current: opt_chars(self.current_playlist),
        }
    }
}

/// The error of a result, if it is one.
pub open spec fn error_of<T>(result: Result<T, PlaylistError>) -> Option<PlaylistErrorView> {
    match result {
        Ok(_) => None,
        Err(e) => Some(e@),
    }
}

/// The playlist `playlist` with `song` appended.
pub open spec fn with_song(playlist: PlaylistView, song: SongView) -> PlaylistView {
    PlaylistView { songs: playlist.songs.push(song), ..playlist }
}

/// The playlist `playlist` without the song at `index`.
pub open spec fn without_song(playlist: PlaylistView, index: int) -> PlaylistView {
    PlaylistView { songs: playlist.songs.remove(index), ..playlist }
}

/// What creating a playlist named `name` makes of `pre`: a refusal that
/// changes nothing where the name is taken, else a new, empty, current
/// playlist beside the others.
pub open spec fn creates(
    pre: ManagerView,
    name: Seq<char>,
    post: ManagerView,
    error: Option<PlaylistErrorView>,
) -> bool {
    if pre.playlists.dom().contains(name) {
        error == Some(PlaylistErrorView::AlreadyExists(name)) && post == pre
    } else {
        &&& error is None
        &&& post.current == Some(name)
        &&& post.playlists.dom().contains(name)
        &&& post.playlists[name].name == name
        &&& post.playlists[name].songs == Seq::<SongView>::empty()
        &&& post.playlists == pre.playlists.insert(name, post.playlists[name])
    }
}

/// What loading `playlist` makes of `pre`: the playlist stands under its own
/// name, in place of any that stood there.
pub open spec fn loaded(pre: ManagerView, playlist: PlaylistView) -> ManagerView {
    ManagerView { playlists: pre.playlists.insert(playlist.name, playlist), ..pre }
}

/// The playlist that is handed out for saving under `name`, if there is one.
pub open spec fn saved(manager: ManagerView, name: Seq<char>) -> Option<PlaylistView> {
    if manager.playlists.dom().contains(name) {
        Some(manager.playlists[name])
    } else {
        None
    }
}

impl PlaylistManager {
    /// No name occurs twice, and the current name, if set, is that of a
    /// playlist held here.
    pub closed spec fn wf(&self) -> bool {
        &&& distinct_names(self.playlists@)
        &&& self.current_playlist is Some ==> has_name(
            self.playlists@,
            self.current_playlist->0@,
        )
    }

    /// In a well-formed manager the current name is a key, and every playlist
    /// stands under its own name.
    pub proof fn lemma_keys(&self)
        requires
            self.wf(),
        ensures
            self@.current is Some ==> self@.playlists.dom().contains(self@.current->0),
            forall|name: Seq<char>|
                self@.playlists.dom().contains(name) ==> (#[trigger] self@.playlists[name]).name
                    == name,
    {
        assert forall|name: Seq<char>| self@.playlists.dom().contains(name) implies (
        #[trigger] self@.playlists[name]).name == name by {
            let i = position(self.playlists@, name);
            assert(self.playlists@[i].name@ == name);
        }
    }

    /// A manager without playlists.
    pub fn new() -> (manager: PlaylistManager)
        ensures
            manager.wf(),
            manager@.playlists == Map::<Seq<char>, PlaylistView>::empty(),
            manager@.current is None,
    {
        let manager = PlaylistManager { playlists: Vec::new(), current_playlist: None };
        assert(manager@.playlists =~= Map::<Seq<char>, PlaylistView>::empty());
        manager
    }

    fn find(&self, name: &str) -> (found: Option<usize>)
        ensures
            match found {
                Some(i) => i < self.playlists@.len() && self.playlists@[i as int].name@ == name@,
                None => !has_name(self.playlists@, name@),
            },
    {
        let mut i: usize = 0;
        while i < self.playlists.len()
            invariant
                i <= self.playlists@.len(),
                forall|j: int| 0 <= j < i ==> (#[trigger] self.playlists@[j]).name@ != name@,
            decreases self.playlists.len() - i,
        {
            if str_eq(self.playlists[i].name.as_str(), name) {
                return Some(i);
            }
            i += 1;
        }
        None
    }

    fn find_current(&self) -> (found: Option<usize>)
        requires
            self.wf(),
        ensures
            match found {
                Some(i) => i < self.playlists@.len() && self@.current == Some(
                    self.playlists@[i as int].name@,
                ) && self@.playlists[self@.current->0] == self.playlists@[i as int]@,
                None => self@.current is None,
            },
    {
        match &self.current_playlist {
            Some(name) => {
                let found = self.find(name.as_str());
                proof {
                    if let Some(i) = found {
                        lemma_found_by_name(self.playlists@, i as int);
                    }
                }
                found
            },
            None => None,
        }
    }

    /// Creates an empty playlist and makes it current, unless the name is
    /// taken.
    pub fn create_playlist(&mut self, name: String) -> (result: Result<(), PlaylistError>)
        requires
            old(self).wf(),
        ensures
            final(self).wf(),
            creates(old(self)@, name@, final(self)@, error_of(result)),
    {
        if let Some(_) = self.find(name.as_str()) {
            return Err(PlaylistError::AlreadyExists(name));
        }
        let playlist = Playlist::new(name.clone());
        proof {
            lemma_push_fresh(self.playlists@, playlist);
        }
        self.playlists.push(playlist);
        self.current_playlist = Some(name);
        proof {
            lemma_found_by_name(self.playlists@, self.playlists@.len() - 1);
        }
        Ok(())
    }

    /// Appends a song to the current playlist.
    pub fn add_song_to_current_playlist(&mut self, song: Song) -> (result: Result<
        (),
        PlaylistError,
    >)
        requires
            old(self).wf(),
        ensures
            final(self).wf(),
            match old(self)@.current {
                Some(name) => result is Ok && final(self)@ == (ManagerView {
                    playlists: old(self)@.playlists.insert(
                        name,
                        with_song(old(self)@.playlists[name], song@),
                    ),
                    ..old(self)@
                }),
                None => error_of(result) == Some(PlaylistErrorView::NoCurrentPlaylist)
                    && final(self)@ == old(self)@,
            },
    {
        match self.find_current() {
            Some(i) => {
                let ghost before = self.playlists@;
                self.playlists[i].add_song(song);
                proof {
                    assert(self.playlists@ =~= before.update(i as int, self.playlists@[i as int]));
                    lemma_replace(before, i as int, self.playlists@[i as int]);
                    lemma_found_by_name(self.playlists@, i as int);
                }
                Ok(())
            },
            None => Err(PlaylistError::NoCurrentPlaylist),
        }
    }

    /// Takes the song at `index` out of the current playlist.
    pub fn remove_song_from_current_playlist(&mut self, index: usize) -> (result: Result<
        Song,
        PlaylistError,
    >)
        requires
            old(self).wf(),
        ensures
            final(self).wf(),
            match old(self)@.current {
                Some(name) if index < old(self)@.playlists[name].songs.len() => {
                    &&& result is Ok
                    &&& result->Ok_0@ == old(self)@.playlists[name].songs[index as int]
                    &&& final(self)@ == (ManagerView {
                        playlists: old(self)@.playlists.insert(
                            name,
                            without_song(old(self)@.playlists[name], index as int),
                        ),
                        ..old(self)@
                    })
                },
                _ => error_of(result) == Some(PlaylistErrorView::RemoveFailed) && final(self)@
                    == old(self)@,
            },
    {
        match self.find_current() {
            Some(i) => {
                let ghost before = self.playlists@;
                match self.playlists[i].remove_song(index) {
                    Some(song) => {
                        proof {
                            assert(self.playlists@ =~= before.update(
                                i as int,
                                self.playlists@[i as int],
                            ));
                            lemma_replace(before, i as int, self.playlists@[i as int]);
                            lemma_found_by_name(self.playlists@, i as int);
                        }
                        Ok(song)
                    },
                    None => {
                        proof {
                            assert(self.playlists@ =~= before);
                        }
                        Err(PlaylistError::RemoveFailed)
                    },
                }
            },
            None => Err(PlaylistError::RemoveFailed),
        }
    }

    /// The current playlist, if one is set.
    pub fn get_current_playlist(&self) -> (playlist: Option<&Playlist>)
        requires
            self.wf(),
        ensures
            match self@.current {
                Some(name) => playlist is Some && playlist->0@ == self@.playlists[name],
                None => playlist is None,
            },
    {
        match self.find_current() {
            Some(i) => Some(&self.playlists[i]),
            None => None,
        }
    }

    /// The current playlist, for changing in place. The manager stays
    /// well-formed as long as the playlist keeps its name.
    pub fn get_current_playlist_mut(&mut self) -> (playlist: Option<&mut Playlist>)
        requires
            old(self).wf(),
        ensures
            match old(self)@.current {
                Some(name) => {
                    &&& playlist is Some
                    &&& (*playlist->0)@ == old(self)@.playlists[name]
                    &&& final(self)@.current == old(self)@.current
                    &&& (*final(playlist->0)).name@ == name ==> final(self).wf()
                        && final(self)@.playlists == old(self)@.playlists.insert(
                        name,
                        (*final(playlist->0))@,
                    )
                },
                None => playlist is None && *final(self) == *old(self),
            },
    {
        match self.find_current() {
            Some(i) => {
                let ghost before = self.playlists@;
                let playlist = &mut self.playlists[i];
                proof {
                    lemma_found_by_name(before, i as int);
                    assert forall|after: Playlist|
                        after.name@ == before[i as int].name@ implies distinct_names(
                        #[trigger] before.update(i as int, after),
                    ) && has_name(before.update(i as int, after), after.name@) && by_name(
                        before.update(i as int, after),
                    ) == by_name(before).insert(after.name@, after@) by {
                        lemma_replace(before, i as int, after);
                        lemma_found_by_name(before.update(i as int, after), i as int);
                    }
                }
                Some(playlist)
            },
            None => None,
        }
    }

    /// Makes the playlist named `name` current, if there is one.
    pub fn set_current_playlist(&mut self, name: &str) -> (result: Result<(), PlaylistError>)
        requires
            old(self).wf(),
        ensures
            final(self).wf(),
            final(self)@.playlists == old(self)@.playlists,
            old(self)@.playlists.dom().contains(name@) ==> result is Ok && final(self)@.current
                == Some(name@),
            !old(self)@.playlists.dom().contains(name@) ==> error_of(result) == Some(
                PlaylistErrorView::NotFound(name@),
            ) && final(self)@.current == old(self)@.current,
    {
        match self.find(name) {
            Some(_) => {
                self.current_playlist = Some(name.to_owned());
                Ok(())
            },
            None => Err(PlaylistError::NotFound(name.to_owned())),
        }
    }

    /// The names of all playlists, each once.
    pub fn get_playlist_names(&self) -> (names: Vec<String>)
        requires
            self.wf(),
        ensures
            strings_view(names@).no_duplicates(),
            strings_view(names@).to_set() == self@.playlists.dom(),
    {
        let mut names: Vec<String> = Vec::new();
        let mut i: usize = 0;
        while i < self.playlists.len()
            invariant
                i <= self.playlists@.len(),
                names@.len() == i,
                forall|j: int| 0 <= j < i ==> (#[trigger] names@[j])@ == self.playlists@[j].name@,
            decreases self.playlists.len() - i,
        {
            names.push(self.playlists[i].name.clone());
            i += 1;
        }
        proof {
            let listed = strings_view(names@);
            assert forall|a: int, b: int|
                0 <= a < listed.len() && 0 <= b < listed.len() && a != b implies listed[a]
                != listed[b] by {
                assert(names@[a]@ == self.playlists@[a].name@);
                assert(names@[b]@ == self.playlists@[b].name@);
            }
            assert forall|name: Seq<char>| listed.contains(name) <==> has_name(
                self.playlists@,
                name,
            ) by {
                if listed.contains(name) {
                    let a = choose|a: int| 0 <= a < listed.len() && listed[a] == name;
                    assert(names@[a]@ == self.playlists@[a].name@);
                }
                if has_name(self.playlists@, name) {
                    let a = position(self.playlists@, name);
                    assert(names@[a]@ == self.playlists@[a].name@);
                    assert(listed[a] == name);
                }
            }
            assert(listed.to_set() =~= self@.playlists.dom());
        }
        names
    }

    /// The playlist to write out under `name`, if there is one.
    pub fn save_playlist(&self, name: &str) -> (result: Result<&Playlist, PlaylistError>)
        requires
            self.wf(),
        ensures
            match saved(self@, name@) {
                Some(playlist) => result is Ok && result->Ok_0@ == playlist,
                None => error_of(result) == Some(PlaylistErrorView::NotFound(name@)),
            },
    {
        match self.find(name) {
            Some(i) => {
                proof {
                    lemma_found_by_name(self.playlists@, i as int);
                }
                Ok(&self.playlists[i])
            },
            None => Err(PlaylistError::NotFound(name.to_owned())),
        }
    }

    /// Takes in a playlist that was read back, under the name it carries; one
    /// that stood under that name is replaced.
    pub fn load_playlist(&mut self, playlist: Playlist)
        requires
            old(self).wf(),
        ensures
            final(self).wf(),
            final(self)@ == loaded(old(self)@, playlist@),
    {
        let ghost before = self.playlists@;
        match self.find(playlist.name.as_str()) {
            Some(i) => {
                proof {
                    lemma_replace(before, i as int, playlist);
                }
                self.playlists[i] = playlist;
                assert(self.playlists@ =~= before.update(i as int, playlist));
            },
            None => {
                proof {
                    lemma_push_fresh(before, playlist);
                }
                self.playlists.push(playlist);
            },
        }
        proof {
            if self.current_playlist is Some {
                assert(by_name(before).dom().contains(self.current_playlist->0@));
                assert(by_name(self.playlists@).dom().contains(self.current_playlist->0@));
            }
        }
    }

    /// Turns the files that a walk through a directory met into songs: one
    /// for each file of a scanned format, titled by its stem. The stored
    /// playlists stay as they are.
    pub fn scan_music_directory(&mut self, files: &Vec<String>) -> (result: Result<
        Vec<Song>,
        PlaylistError,
    >)
        ensures
            *final(self) == *old(self),
            result is Ok,
            songs_view(result->Ok_0@) == scanned_songs(strings_view(files@)),
    {
        let mut songs: Vec<Song> = Vec::new();
        let ghost paths = strings_view(files@);
        let mut i: usize = 0;
        while i < files.len()
            invariant
                i <= files@.len(),
                paths == strings_view(files@),
                songs_view(songs@) == scanned_songs(paths.take(i as int)),
            decreases files.len() - i,
        {
            let path = files[i].as_str();
            let wanted = match extension(path) {
                Some(ext) => scanned_extension_matches(lowercase(ext.as_str()).as_str()),
                None => false,
            };
            let ghost before = songs_view(songs@);
            proof {
                assert(paths.take(i + 1).drop_last() =~= paths.take(i as int));
                assert(paths.take(i + 1).last() == path@);
            }
            if wanted {
                if let Some(stem) = file_stem(path) {
                    let song = Song::untagged(stem, files[i].clone());
                    songs.push(song);
                    assert(songs_view(songs@) =~= before.push(song@));
                }
            }
            i += 1;
        }
        assert(paths.take(i as int) =~= paths);
        Ok(songs)
    }
}

/// Creating a playlist under one name twice fails the second time, and the
/// second call changes nothing: the playlist of that name keeps its songs.
pub proof fn lemma_create_twice(
    start: ManagerView,
    name: Seq<char>,
    first: ManagerView,
    first_error: Option<PlaylistErrorView>,
    second: ManagerView,
    second_error: Option<PlaylistErrorView>,
)
    requires
        creates(start, name, first, first_error),
        creates(first, name, second, second_error),
    ensures
        second_error == Some(PlaylistErrorView::AlreadyExists(name)),
        second == first,
        second.playlists[name].songs == first.playlists[name].songs,
{
}

/// A playlist handed out for saving and then loaded, into this manager or any
/// other, stands there with the same name and the same songs in the same
/// order, under the name it carries.
pub proof fn lemma_save_then_load(manager: PlaylistManager, name: Seq<char>, into: ManagerView)
    requires
        manager.wf(),
        manager@.playlists.dom().contains(name),
    ensures
        saved(manager@, name) is Some,
        ({
            let playlist = saved(manager@, name)->0;
            let after = loaded(into, playlist);
            &&& playlist.name == name
            &&& after.playlists.dom().contains(playlist.name)
            &&& after.playlists[playlist.name] == playlist
            &&& after.playlists[playlist.name].songs == manager@.playlists[name].songs
            &&& after.current == into.current
        }),
{
    manager.lemma_keys();
}

} // verus!
