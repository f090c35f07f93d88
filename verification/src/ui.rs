//! What the user interface shows: visibility of popups and modals, the
//! selected playlist, tab and theme names, and the playlist-name input.
use vstd::prelude::*;
use crate::text::{chars_of, string_from_chars};
use crate::track::{Playlist, same_playlist};

verus! {

/// Visibility of the popups and modals.
#[derive(Debug, Clone, Copy)]
pub struct UIVisibilityContext {
    create_playlist_modal: bool,
    settings_popup: bool,
    general_debug: bool,
    playback_debug: bool,
}

impl Default for UIVisibilityContext {
    fn default() -> (ctx: Self)
        ensures
            !ctx.modal_shown(),
            !ctx.settings_shown(),
            !ctx.debug_shown(),
            !ctx.playback_debug_shown(),
    {
        UIVisibilityContext::new()
    }
}

impl UIVisibilityContext {
    /// Whether the create-playlist modal is shown.
    pub closed spec fn modal_shown(&self) -> bool {
        self.create_playlist_modal
    }

    /// Whether the settings popup is shown.
    pub closed spec fn settings_shown(&self) -> bool {
        self.settings_popup
    }

    /// Whether the general debug popup is shown.
    pub closed spec fn debug_shown(&self) -> bool {
        self.general_debug
    }

    /// Whether the playback debug popup is shown.
    pub closed spec fn playback_debug_shown(&self) -> bool {
        self.playback_debug
    }

    /// Nothing is shown.
    pub fn new() -> (ctx: Self)
        ensures
            !ctx.modal_shown(),
            !ctx.settings_shown(),
            !ctx.debug_shown(),
            !ctx.playback_debug_shown(),
    {
        UIVisibilityContext {
            create_playlist_modal: false,
            settings_popup: false,
            general_debug: false,
            playback_debug: false,
        }
    }

    pub fn settings(&self) -> (shown: bool)
        ensures
            shown == self.settings_shown(),
    {
        self.settings_popup
    }

    /// A handle through which the window can close the settings popup.
    pub fn settings_mut(&mut self) -> (flag: &mut bool)
        ensures
            *flag == old(self).settings_shown(),
            final(self).settings_shown() == *final(flag),
            final(self).modal_shown() == old(self).modal_shown(),
            final(self).debug_shown() == old(self).debug_shown(),
            final(self).playback_debug_shown() == old(self).playback_debug_shown(),
    {
        &mut self.settings_popup
    }

    pub fn set_settings(&mut self, visibility: bool)
        ensures
            final(self).settings_shown() == visibility,
            final(self).modal_shown() == old(self).modal_shown(),
            final(self).debug_shown() == old(self).debug_shown(),
            final(self).playback_debug_shown() == old(self).playback_debug_shown(),
    {
        self.settings_popup = visibility;
    }

    /// Shows the settings popup if hidden, hides it if shown.
    pub fn toggle_settings(&mut self)
        ensures
            final(self).settings_shown() == !old(self).settings_shown(),
            final(self).modal_shown() == old(self).modal_shown(),
            final(self).debug_shown() == old(self).debug_shown(),
            final(self).playback_debug_shown() == old(self).playback_debug_shown(),
    {
        self.settings_popup = !self.settings_popup;
    }

    pub fn debug(&self) -> (shown: bool)
        ensures
            shown == self.debug_shown(),
    {
        self.general_debug
    }

    /// A handle through which the window can close the debug popup.
    pub fn debug_mut(&mut self) -> (flag: &mut bool)
        ensures
            *flag == old(self).debug_shown(),
            final(self).debug_shown() == *final(flag),
            final(self).modal_shown() == old(self).modal_shown(),
            final(self).settings_shown() == old(self).settings_shown(),
            final(self).playback_debug_shown() == old(self).playback_debug_shown(),
    {
        &mut self.general_debug
    }

    pub fn set_debug(&mut self, visibility: bool)
        ensures
            final(self).debug_shown() == visibility,
            final(self).modal_shown() == old(self).modal_shown(),
            final(self).settings_shown() == old(self).settings_shown(),
            final(self).playback_debug_shown() == old(self).playback_debug_shown(),
    {
        self.general_debug = visibility;
    }

    pub fn debug_playback(&self) -> (shown: bool)
        ensures
            shown == self.playback_debug_shown(),
    {
        self.playback_debug
    }

    /// A handle through which the window can close the playback debug popup.
    pub fn debug_playback_mut(&mut self) -> (flag: &mut bool)
        ensures
            *flag == old(self).playback_debug_shown(),
            final(self).playback_debug_shown() == *final(flag),
            final(self).modal_shown() == old(self).modal_shown(),
            final(self).settings_shown() == old(self).settings_shown(),
            final(self).debug_shown() == old(self).debug_shown(),
    {
        &mut self.playback_debug
    }

    pub fn set_debug_playback(&mut self, visibility: bool)
        ensures
            final(self).playback_debug_shown() == visibility,
            final(self).modal_shown() == old(self).modal_shown(),
            final(self).settings_shown() == old(self).settings_shown(),
            final(self).debug_shown() == old(self).debug_shown(),
    {
        self.playback_debug = visibility;
    }

    pub fn playlist_modal(&self) -> (shown: bool)
        ensures
            shown == self.modal_shown(),
    {
        self.create_playlist_modal
    }

    /// A handle through which the window can close the create-playlist modal.
    pub fn playlist_modal_mut(&mut self) -> (flag: &mut bool)
        ensures
            *flag == old(self).modal_shown(),
            final(self).modal_shown() == *final(flag),
            final(self).settings_shown() == old(self).settings_shown(),
            final(self).debug_shown() == old(self).debug_shown(),
            final(self).playback_debug_shown() == old(self).playback_debug_shown(),
    {
        &mut self.create_playlist_modal
    }

    pub fn set_playlist_modal(&mut self, visibility: bool)
        ensures
            final(self).modal_shown() == visibility,
            final(self).settings_shown() == old(self).settings_shown(),
            final(self).debug_shown() == old(self).debug_shown(),
            final(self).playback_debug_shown() == old(self).playback_debug_shown(),
    {
        self.create_playlist_modal = visibility;
    }
}

/// The playlist the user has selected, and the playlist autoplay runs through.
#[derive(Debug)]
pub struct UIPlaylistContext {
    selected: Option<Playlist>,
    autoplay: Option<Playlist>,
}

impl Default for UIPlaylistContext {
    fn default() -> (ctx: Self)
        ensures
            ctx.selected_playlist() is None,
            ctx.autoplay_playlist() is None,
    {
        UIPlaylistContext::new()
    }
}

impl Clone for UIPlaylistContext {
    fn clone(&self) -> (copy: Self)
        ensures
            copy.selected_playlist() == self.selected_playlist(),
            copy.autoplay_playlist() == self.autoplay_playlist(),
    {
        UIPlaylistContext { selected: self.selected(), autoplay: self.autoplay() }
    }
}

impl UIPlaylistContext {
    /// The playlist the user has selected, if any.
    pub closed spec fn selected_playlist(&self) -> Option<Playlist> {
        self.selected
    }

    /// The playlist autoplay runs through, if any.
    pub closed spec fn autoplay_playlist(&self) -> Option<Playlist> {
        self.autoplay
    }

    pub fn new() -> (ctx: Self)
        ensures
            ctx.selected_playlist() is None,
            ctx.autoplay_playlist() is None,
    {
        UIPlaylistContext { selected: None, autoplay: None }
    }

    pub fn selected(&self) -> (playlist: Option<Playlist>)
        ensures
            playlist == self.selected_playlist(),
    {
        match &self.selected {
            Some(p) => Some(p.clone()),
            None => None,
        }
    }

    pub fn set_selected(&mut self, playlist: Option<Playlist>)
        ensures
            final(self).selected_playlist() == playlist,
            final(self).autoplay_playlist() == old(self).autoplay_playlist(),
    {
        self.selected = playlist;
    }

    pub fn autoplay(&self) -> (playlist: Option<Playlist>)
        ensures
            playlist == self.autoplay_playlist(),
    {
        match &self.autoplay {
            Some(p) => Some(p.clone()),
            None => None,
        }
    }

    pub fn set_autoplay(&mut self, playlist: Option<Playlist>)
        ensures
            final(self).autoplay_playlist() == playlist,
            final(self).selected_playlist() == old(self).selected_playlist(),
    {
        self.autoplay = playlist;
    }

    /// Whether `playlist` is the selected one (compared by identifier).
    pub fn is_selected(&self, playlist: &Playlist) -> (res: bool)
        ensures
            res == (self.selected_playlist() matches Some(p) && p.id == playlist.id),
    {
        match &self.selected {
            Some(p) => p.id == playlist.id,
            None => false,
        }
    }

    /// A click on a playlist row: clicking the selected playlist deselects it
    /// (and all tracks are to be shown), clicking another selects it. Returns
    /// the playlist whose tracks are to be queried, `None` for all tracks.
    pub fn toggle_selection(&mut self, playlist: &Playlist) -> (query: Option<Playlist>)
        ensures
            old(self).selected_playlist() matches Some(p) && p.id == playlist.id ==> {
                &&& final(self).selected_playlist() is None
                &&& query is None
            },
            !(old(self).selected_playlist() matches Some(p) && p.id == playlist.id) ==> {
                &&& final(self).selected_playlist() == Some(*playlist)
                &&& query == Some(*playlist)
            },
            final(self).autoplay_playlist() == old(self).autoplay_playlist(),
    {
        if self.is_selected(playlist) {
            self.selected = None;
            None
        } else {
            self.selected = Some(playlist.clone());
            Some(playlist.clone())
        }
    }
}

/// What the user interface shows.
#[derive(Debug)]
pub struct UIContext {
    pub playlist: UIPlaylistContext,
    pub visibility: UIVisibilityContext,
}

impl Default for UIContext {
    fn default() -> (ctx: Self)
        ensures
            ctx.playlist.selected_playlist() is None,
            ctx.playlist.autoplay_playlist() is None,
            !ctx.visibility.modal_shown(),
            !ctx.visibility.settings_shown(),
            !ctx.visibility.debug_shown(),
            !ctx.visibility.playback_debug_shown(),
    {
        UIContext { playlist: UIPlaylistContext::new(), visibility: UIVisibilityContext::new() }
    }
}

/// The tabs of the main window.
#[derive(Debug, Clone, Copy, PartialEq, Eq, Structural)]
pub enum ComponentTab {
    Playlists,
    Tracks,
    Tags,
    Tasks,
}

/// The title of a tab.
pub open spec fn tab_title(tab: ComponentTab) -> Seq<char> {
    match tab {
        ComponentTab::Playlists => "Playlists"@,
        ComponentTab::Tracks => "Tracks"@,
        ComponentTab::Tags => "Tags"@,
        ComponentTab::Tasks => "Tasks"@,
    }
}

impl ComponentTab {
    /// The title shown on the tab.
    pub fn title(&self) -> (text: &'static str)
        ensures
            text@ == tab_title(*self),
    {
        match self {
            ComponentTab::Playlists => "Playlists",
            ComponentTab::Tracks => "Tracks",
            ComponentTab::Tags => "Tags",
            ComponentTab::Tasks => "Tasks",
        }
    }
}

/// The colour themes of the application.
#[derive(Debug, Clone, Copy, PartialEq, Eq, Structural)]
pub enum AppTheme {
    Dark,
    Latte,
    Frappe,
    Macchiato,
    Mocha,
}

impl Default for AppTheme {
    fn default() -> (theme: Self)
        ensures
            theme == AppTheme::Dark,
    {
        AppTheme::Dark
    }
}

/// The name of a theme.
pub open spec fn theme_label(theme: AppTheme) -> Seq<char> {
    match theme {
        AppTheme::Dark => "Dark"@,
        AppTheme::Latte => "Latte"@,
        AppTheme::Frappe => "Frappe"@,
        AppTheme::Macchiato => "Macchiato"@,
        AppTheme::Mocha => "Mocha"@,
    }
}

impl AppTheme {
    /// The name shown for the theme.
    pub fn label(&self) -> (text: &'static str)
        ensures
            text@ == theme_label(*self),
    {
        match self {
            AppTheme::Dark => "Dark",
            AppTheme::Latte => "Latte",
            AppTheme::Frappe => "Frappe",
            AppTheme::Macchiato => "Macchiato",
            AppTheme::Mocha => "Mocha",
        }
    }
}

/// A modal window whose visibility can be switched.
pub trait UIModal {
    fn set_visibility(&mut self, visibility: bool);
}

/// A table of tags (not populated yet).
#[derive(Debug, Clone, Copy)]
pub struct TagTable {}

impl Default for TagTable {
    fn default() -> (table: Self) {
        TagTable {}
    }
}

impl TagTable {
    /// The text the tag table shows.
    pub fn placeholder(&self) -> (text: &'static str)
        ensures
            text@ == "I am a tag table"@,
    {
        "I am a tag table"
    }
}

/// Whether a character has Unicode's White_Space property (as
/// `char::is_whitespace`): tab to carriage return, space, next line,
/// no-break space, ogham space mark, the spaces from en quad to hair space,
/// line and paragraph separators, narrow no-break space, medium mathematical
/// space and ideographic space.
pub open spec fn unicode_white_space(c: char) -> bool {
    ||| ('\u{9}' <= c && c <= '\u{D}')
    ||| c == ' '
    ||| c == '\u{85}'
    ||| c == '\u{A0}'
    ||| c == '\u{1680}'
    ||| ('\u{2000}' <= c && c <= '\u{200A}')
    ||| c == '\u{2028}'
    ||| c == '\u{2029}'
    ||| c == '\u{202F}'
    ||| c == '\u{205F}'
    ||| c == '\u{3000}'
}

/// Whether a character is white space, as `char::is_whitespace`.
fn is_white_space(c: char) -> (res: bool)
    ensures
        res == unicode_white_space(c),
{
    ('\u{9}' <= c && c <= '\u{D}') || c == ' ' || c == '\u{85}' || c == '\u{A0}' || c == '\u{1680}'
        || ('\u{2000}' <= c && c <= '\u{200A}') || c == '\u{2028}' || c == '\u{2029}'
        || c == '\u{202F}' || c == '\u{205F}' || c == '\u{3000}'
}

/// Removes leading and trailing white space, as `str::trim`.
pub open spec fn trimmed(s: Seq<char>) -> Seq<char>
    decreases s.len(),
{
    if s.len() > 0 && unicode_white_space(s[0]) {
        trimmed(s.drop_first())
    } else if s.len() > 0 && unicode_white_space(s.last()) {
        trimmed(s.drop_last())
    } else {
        s
    }
}

proof fn lemma_trim_front(s: Seq<char>, start: int)
    requires
        0 <= start <= s.len(),
        forall|k: int| 0 <= k < start ==> unicode_white_space(#[trigger] s[k]),
    ensures
        trimmed(s) == trimmed(s.subrange(start, s.len() as int)),
    decreases start,
{
    if start > 0 {
        assert(unicode_white_space(s[0]));
        let t = s.drop_first();
        assert forall|k: int| 0 <= k < start - 1 implies unicode_white_space(#[trigger] t[k]) by {
            assert(t[k] == s[k + 1]);
        }
        lemma_trim_front(t, start - 1);
        assert(t.subrange(start - 1, t.len() as int) =~= s.subrange(start, s.len() as int));
    } else {
        assert(s.subrange(0, s.len() as int) =~= s);
    }
}

proof fn lemma_trim_back(s: Seq<char>, end: int)
    requires
        0 <= end <= s.len(),
        s.len() > 0 ==> !unicode_white_space(s[0]),
        end > 0 ==> !unicode_white_space(s[0]),
        forall|k: int| end <= k < s.len() ==> unicode_white_space(#[trigger] s[k]),
    ensures
        end > 0 ==> trimmed(s) == trimmed(s.subrange(0, end)),
    decreases s.len() - end,
{
    if end > 0 && end < s.len() {
        let t = s.drop_last();
        assert(unicode_white_space(s.last()));
        assert(trimmed(s) == trimmed(t));
        assert forall|k: int| end <= k < t.len() implies unicode_white_space(#[trigger] t[k]) by {
            assert(t[k] == s[k]);
        }
        assert(t[0] == s[0]);
        lemma_trim_back(t, end);
        assert(t.subrange(0, end) =~= s.subrange(0, end));
    } else if end > 0 {
        assert(s.subrange(0, end) =~= s);
    }
}

/// The name a new playlist gets from the text the user typed: the text with
/// white space trimmed from both ends, or `None` if nothing remains.
pub fn playlist_name_to_create(input: &str) -> (name: Option<String>)
    ensures
        match name {
            Some(n) => n@ == trimmed(input@) && n@.len() > 0,
            None => trimmed(input@).len() == 0,
        },
{
    let chars = chars_of(input);
    let len = chars.len();
    let mut start: usize = 0;
    while start < len && is_white_space(chars[start])
        invariant
            len == chars@.len(),
            chars@ == input@,
            start <= len,
            forall|k: int| 0 <= k < start ==> unicode_white_space(#[trigger] chars@[k]),
        decreases len - start,
    {
        start = start + 1;
    }
    proof {
        lemma_trim_front(chars@, start as int);
    }
    if start == len {
        assert(chars@.subrange(start as int, len as int).len() == 0);
        return None;
    }
    let ghost rest = chars@.subrange(start as int, len as int);
    let mut end: usize = len;
    while end > start + 1 && is_white_space(chars[end - 1])
        invariant
            len == chars@.len(),
            start < len,
            start < end <= len,
            rest == chars@.subrange(start as int, len as int),
            forall|k: int| end <= k < len ==> unicode_white_space(#[trigger] chars@[k]),
        decreases end,
    {
        end = end - 1;
    }
    let mut kept: Vec<char> = Vec::new();
    let mut i: usize = start;
    while i < end
        invariant
            start <= i <= end <= len,
            len == chars@.len(),
            kept@ == chars@.subrange(start as int, i as int),
        decreases end - i,
    {
        kept.push(chars[i]);
        assert(chars@.subrange(start as int, i + 1) == chars@.subrange(start as int, i as int).push(
            chars@[i as int],
        ));
        i = i + 1;
    }
    proof {
        assert(!unicode_white_space(rest[0]));
        assert forall|k: int| end - start <= k < rest.len() implies unicode_white_space(
            #[trigger] rest[k],
        ) by {
            assert(rest[k] == chars@[k + start]);
        }
        lemma_trim_back(rest, end - start);
        assert(rest.subrange(0, end - start) =~= kept@);
        if end < len {
        } else {
            assert(rest =~= kept@);
        }
    }
    Some(string_from_chars(&kept))
}

} // verus!
