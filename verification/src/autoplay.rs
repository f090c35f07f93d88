//! How the next track is chosen once the current one ends, and the state that
//! carries a pending request for a new track.
use vstd::prelude::*;
use crate::text::str_eq;

verus! {

/// Direction of iterative autoplay through the track list.
#[derive(Debug, Clone, Copy, PartialEq, Eq, Structural)]
pub enum PlayDirection {
    Forward,
    Backward,
}

/// How a shuffling autoplay picks the next track.
#[derive(Debug, Clone, Copy, PartialEq, Eq, Structural)]
pub enum ShuffleType {
    /// Select a random track that hasn't been played yet in the current session or playlist.
    /// If all tracks have been played, select a random one to start with.
    PseudoRandom,
    /// Pick any track regardless if it's been played before.
    TrueRandom,
}

/// The rule by which the next track is selected.
#[derive(Debug, Clone, Copy, PartialEq, Eq, Structural)]
pub enum AutoplayType {
    /// Play the next (or previous) track in the track list.
    /// If the end has been reached, loop back around to the other side.
    Iterative(PlayDirection),
    Shuffle(ShuffleType),
}

impl Default for PlayDirection {
    fn default() -> (d: Self)
        ensures
            d == PlayDirection::Forward,
    {
        PlayDirection::Forward
    }
}

impl Default for ShuffleType {
    fn default() -> (s: Self)
        ensures
            s == ShuffleType::TrueRandom,
    {
        ShuffleType::TrueRandom
    }
}

impl Default for AutoplayType {
    fn default() -> (a: Self)
        ensures
            a == AutoplayType::Iterative(PlayDirection::Forward),
    {
        AutoplayType::Iterative(PlayDirection::Forward)
    }
}

/// The name under which an autoplay type is stored in the configuration file.
pub open spec fn config_name_of(autoplay: AutoplayType) -> Seq<char> {
    match autoplay {
        AutoplayType::Iterative(PlayDirection::Forward) => "iterative_forward"@,
        AutoplayType::Iterative(PlayDirection::Backward) => "iterative_backward"@,
        AutoplayType::Shuffle(ShuffleType::PseudoRandom) => "pseudo_shuffle"@,
        AutoplayType::Shuffle(ShuffleType::TrueRandom) => "true_shuffle"@,
    }
}

/// The autoplay type stored under a configuration name, if any.
pub open spec fn autoplay_from_config_name(name: Seq<char>) -> Option<AutoplayType> {
    if name == "iterative_forward"@ {
        Some(AutoplayType::Iterative(PlayDirection::Forward))
    } else if name == "iterative_backward"@ {
        Some(AutoplayType::Iterative(PlayDirection::Backward))
    } else if name == "pseudo_shuffle"@ {
        Some(AutoplayType::Shuffle(ShuffleType::PseudoRandom))
    } else if name == "true_shuffle"@ {
        Some(AutoplayType::Shuffle(ShuffleType::TrueRandom))
    } else {
        None
    }
}

/// The label shown to the user for an autoplay type.
pub open spec fn label_of(autoplay: AutoplayType) -> Seq<char> {
    match autoplay {
        AutoplayType::Iterative(PlayDirection::Forward) => "Forward"@,
        AutoplayType::Iterative(PlayDirection::Backward) => "Reverse"@,
        AutoplayType::Shuffle(ShuffleType::PseudoRandom) => "Shuffle (Pseudo Random)"@,
        AutoplayType::Shuffle(ShuffleType::TrueRandom) => "Shuffle (True Random)"@,
    }
}

impl AutoplayType {
    /// The name under which this autoplay type is written to the configuration file.
    pub fn config_name(&self) -> (name: &'static str)
        ensures
            name@ == config_name_of(*self),
    {
        match self {
            AutoplayType::Iterative(PlayDirection::Forward) => "iterative_forward",
            AutoplayType::Iterative(PlayDirection::Backward) => "iterative_backward",
            AutoplayType::Shuffle(ShuffleType::PseudoRandom) => "pseudo_shuffle",
            AutoplayType::Shuffle(ShuffleType::TrueRandom) => "true_shuffle",
        }
    }

    /// Reads an autoplay type from its configuration name; `None` for any other text.
    pub fn from_config_name(name: &str) -> (autoplay: Option<AutoplayType>)
        ensures
            autoplay == autoplay_from_config_name(name@),
    {
        if str_eq(name, "iterative_forward") {
            Some(AutoplayType::Iterative(PlayDirection::Forward))
        } else if str_eq(name, "iterative_backward") {
            Some(AutoplayType::Iterative(PlayDirection::Backward))
        } else if str_eq(name, "pseudo_shuffle") {
            Some(AutoplayType::Shuffle(ShuffleType::PseudoRandom))
        } else if str_eq(name, "true_shuffle") {
            Some(AutoplayType::Shuffle(ShuffleType::TrueRandom))
        } else {
            None
        }
    }

    /// The label shown to the user for this autoplay type.
    pub fn label(&self) -> (text: &'static str)
        ensures
            text@ == label_of(*self),
    {
        match self {
            AutoplayType::Iterative(PlayDirection::Forward) => "Forward",
            AutoplayType::Iterative(PlayDirection::Backward) => "Reverse",
            AutoplayType::Shuffle(ShuffleType::PseudoRandom) => "Shuffle (Pseudo Random)",
            AutoplayType::Shuffle(ShuffleType::TrueRandom) => "Shuffle (True Random)",
        }
    }

    /// Whether this autoplay type shuffles.
    pub fn is_shuffle(&self) -> (res: bool)
        ensures
            res == (*self is Shuffle),
    {
        match self {
            AutoplayType::Shuffle(_) => true,
            AutoplayType::Iterative(_) => false,
        }
    }
}

/// Reading back the configuration name of an autoplay type gives that type, and
/// only its own name gives it: the configuration format round-trips.
pub proof fn lemma_config_name_round_trip(autoplay: AutoplayType, name: Seq<char>)
    ensures
        autoplay_from_config_name(config_name_of(autoplay)) == Some(autoplay),
        autoplay_from_config_name(name) == Some(autoplay) ==> name == config_name_of(autoplay),
{
    reveal_strlit("iterative_forward");
    reveal_strlit("iterative_backward");
    reveal_strlit("pseudo_shuffle");
    reveal_strlit("true_shuffle");
    assert("iterative_forward"@ != "iterative_backward"@) by {
        assert("iterative_forward"@.len() != "iterative_backward"@.len());
    }
    assert("iterative_forward"@ != "pseudo_shuffle"@) by {
        assert("iterative_forward"@[0] != "pseudo_shuffle"@[0]);
    }
    assert("iterative_forward"@ != "true_shuffle"@) by {
        assert("iterative_forward"@[0] != "true_shuffle"@[0]);
    }
    assert("iterative_backward"@ != "pseudo_shuffle"@) by {
        assert("iterative_backward"@[0] != "pseudo_shuffle"@[0]);
    }
    assert("iterative_backward"@ != "true_shuffle"@) by {
        assert("iterative_backward"@[0] != "true_shuffle"@[0]);
    }
    assert("pseudo_shuffle"@ != "true_shuffle"@) by {
        assert("pseudo_shuffle"@[0] != "true_shuffle"@[0]);
    }
}

/// The autoplay settings of the player, and a pending request to select a new track.
#[derive(Debug, Clone, Copy)]
pub struct AutoplayContext {
    select_new_track: bool,
    autoplay: AutoplayType,
    controlled_autoplay: Option<AutoplayType>,
}

impl Default for AutoplayContext {
    fn default() -> (ctx: Self)
        ensures
            !ctx.pending_new_track(),
            ctx.autoplay_rule() == AutoplayType::Iterative(PlayDirection::Forward),
            ctx.controlled() is None,
    {
        AutoplayContext {
            select_new_track: false,
            autoplay: AutoplayType::Iterative(PlayDirection::Forward),
            controlled_autoplay: None,
        }
    }
}

impl AutoplayContext {
    /// Whether a new track should be selected.
    pub closed spec fn pending_new_track(&self) -> bool {
        self.select_new_track
    }

    /// The configured autoplay rule.
    pub closed spec fn autoplay_rule(&self) -> AutoplayType {
        self.autoplay
    }

    /// A one-off rule from a playback control (skip forward/backward), which takes
    /// precedence over the configured rule for the next selection.
    pub closed spec fn controlled(&self) -> Option<AutoplayType> {
        self.controlled_autoplay
    }

    /// The configured autoplay rule.
    pub fn autoplay(&self) -> (autoplay: &AutoplayType)
        ensures
            *autoplay == self.autoplay_rule(),
    {
        &self.autoplay
    }

    /// Replaces the configured autoplay rule.
    pub fn set_autoplay(&mut self, autoplay: AutoplayType)
        ensures
            final(self).autoplay_rule() == autoplay,
            final(self).pending_new_track() == old(self).pending_new_track(),
            final(self).controlled() == old(self).controlled(),
    {
        self.autoplay = autoplay;
    }

    /// Whether the configured rule shuffles.
    pub fn is_shuffle(&self) -> (res: bool)
        ensures
            res == (self.autoplay_rule() is Shuffle),
    {
        self.autoplay.is_shuffle()
    }

    /// Whether a new track should be selected.
    pub fn select_new_track(&self) -> (res: bool)
        ensures
            res == self.pending_new_track(),
    {
        self.select_new_track
    }

    /// Sets or clears the request for a new track.
    pub fn set_select_new_track(&mut self, select_new_track: bool)
        ensures
            final(self).pending_new_track() == select_new_track,
            final(self).autoplay_rule() == old(self).autoplay_rule(),
            final(self).controlled() == old(self).controlled(),
    {
        self.select_new_track = select_new_track;
    }

    /// Requests (or cancels) a new track, with a one-off rule for choosing it.
    pub fn set_incoming_track(&mut self, select_new_track: bool, autoplay: Option<AutoplayType>)
        ensures
            final(self).pending_new_track() == select_new_track,
            final(self).controlled() == autoplay,
            final(self).autoplay_rule() == old(self).autoplay_rule(),
    {
        self.select_new_track = select_new_track;
        self.controlled_autoplay = autoplay;
    }

    /// Takes the pending request: clears it and returns the one-off rule, if any.
    pub fn consume_incoming_track(&mut self) -> (controlled: Option<AutoplayType>)
        ensures
            controlled == old(self).controlled(),
            !final(self).pending_new_track(),
            final(self).controlled() is None,
            final(self).autoplay_rule() == old(self).autoplay_rule(),
    {
        self.select_new_track = false;
        self.controlled_autoplay.take()
    }

    /// Takes the one-off rule, if any, leaving the request itself in place.
    pub fn consume_controlled(&mut self) -> (controlled: Option<AutoplayType>)
        ensures
            controlled == old(self).controlled(),
            final(self).controlled() is None,
            final(self).pending_new_track() == old(self).pending_new_track(),
            final(self).autoplay_rule() == old(self).autoplay_rule(),
    {
        self.controlled_autoplay.take()
    }
}

} // verus!
