//! The media player's state as the library sees it, and what is shown of it.

use vstd::prelude::*;
use std::time::Duration;

verus! {

/// Whether the player is playing, paused or stopped.
#[derive(Debug, Clone, Copy, PartialEq, Eq, Structural)]
pub enum PlaybackStatus {
    Playing,
    Paused,
    Stopped,
}

/// A snapshot of what the active media player is playing.
#[derive(Debug)]
pub struct PlayerProgress {
    pub title: Option<String>,
    pub length: Option<Duration>,
    pub artists: Option<Vec<String>>,
    pub album_name: Option<String>,
    pub status: PlaybackStatus,
    pub position: Duration,
}

/// The content of a `PlayerProgress`, its texts taken as character sequences.
pub struct ProgressView {
    pub title: Option<Seq<char>>,
    pub length: Option<Duration>,
    pub artists: Option<Seq<Seq<char>>>,
    pub album_name: Option<Seq<char>>,
    pub status: PlaybackStatus,
    pub position: Duration,
}

/// The view of an optional text.
pub open spec fn opt_text(text: Option<String>) -> Option<Seq<char>> {
    match text {
        Some(s) => Some(s@),
        None => None,
    }
}

impl View for PlayerProgress {
    type V = ProgressView;

    open spec fn view(&self) -> ProgressView {
        ProgressView {
            title: opt_text(self.title),
            length: self.length,
            artists: match self.artists {
                Some(v) => Some(views(v@)),
                None => None,
            },
            album_name: opt_text(self.album_name),
            status: self.status,
            position: self.position,
        }
    }
}

/// The icon shown beside the track for a playback status.
#[derive(Debug, Clone, Copy, PartialEq, Eq, Structural)]
pub enum StatusIcon {
    Pause,
    Play,
    CircleX,
}

/// The icon for a playback status.
pub open spec fn icon_of(status: PlaybackStatus) -> StatusIcon {
    match status {
        PlaybackStatus::Paused => StatusIcon::Pause,
        PlaybackStatus::Playing => StatusIcon::Play,
        PlaybackStatus::Stopped => StatusIcon::CircleX,
    }
}

/// The optional text, or the fallback when it is absent.
pub open spec fn text_or(text: Option<Seq<char>>, fallback: Seq<char>) -> Seq<char> {
    match text {
        Some(s) => s,
        None => fallback,
    }
}

/// The parts joined with the separator between each two of them.
pub open spec fn joined(parts: Seq<Seq<char>>, sep: Seq<char>) -> Seq<char>
    decreases parts.len(),
{
    if parts.len() == 0 {
        Seq::empty()
    } else if parts.len() == 1 {
        parts[0]
    } else {
        joined(parts.drop_last(), sep) + sep + parts.last()
    }
}

/// The views of a list of strings.
pub open spec fn views(items: Seq<String>) -> Seq<Seq<char>> {
    items.map_values(|s: String| s@)
}

pub open spec fn not_found_text() -> Seq<char> {
    seq!['n', 'o', 't', ' ', 'f', 'o', 'u', 'n', 'd']
}

pub open spec fn no_artists_text() -> Seq<char> {
    seq!['n', 'o', ' ', 'a', 'r', 't', 'i', 's', 't', 's', ' ', 'f', 'o', 'u', 'n', 'd', '?']
}

pub open spec fn comma_space() -> Seq<char> {
    seq![',', ' ']
}

/// The label of the artists: their names joined by ", ", or a notice that
/// there are none.
pub open spec fn artists_label_text(artists: Option<Seq<Seq<char>>>) -> Seq<char> {
    match artists {
        Some(v) => joined(v, comma_space()),
        None => no_artists_text(),
    }
}

/// Where part `i` starts in the parts joined with a separator of length
/// `sep_len`: the lengths of the parts before it, plus one separator after
/// each of them.
pub open spec fn part_offset(parts: Seq<Seq<char>>, sep_len: int, i: int) -> int
    decreases i,
{
    if i <= 0 {
        0
    } else {
        part_offset(parts, sep_len, i - 1) + parts[i - 1].len() + sep_len
    }
}

proof fn part_offset_prefix(parts: Seq<Seq<char>>, sep_len: int, i: int)
    requires
        0 <= i < parts.len(),
    ensures
        part_offset(parts.drop_last(), sep_len, i) == part_offset(parts, sep_len, i),
    decreases i,
{
    if i > 0 {
        part_offset_prefix(parts, sep_len, i - 1);
    }
}

proof fn part_offset_mono(parts: Seq<Seq<char>>, sep_len: int, i: int, j: int)
    requires
        0 <= i <= j <= parts.len(),
        sep_len >= 0,
    ensures
        part_offset(parts, sep_len, i) + (if i < j { parts[i].len() + sep_len } else { 0 }) <= part_offset(parts, sep_len, j),
    decreases j - i,
{
    if i < j {
        part_offset_mono(parts, sep_len, i, j - 1);
    }
}

/// The layout of joined parts: every part appears whole, in order, at its
/// offset, with exactly one separator between each two, and nothing else;
/// so the length is that of the parts plus one separator fewer than parts.
pub proof fn joined_layout(parts: Seq<Seq<char>>, sep: Seq<char>)
    requires
        parts.len() > 0,
    ensures
        joined(parts, sep).len() == part_offset(parts, sep.len() as int, parts.len() - 1) + parts.last().len(),
        forall|i: int|
            0 <= i < parts.len() ==> #[trigger] joined(parts, sep).subrange(
                part_offset(parts, sep.len() as int, i),
                part_offset(parts, sep.len() as int, i) + parts[i].len(),
            ) == parts[i],
        forall|i: int|
            0 <= i < parts.len() - 1 ==> #[trigger] joined(parts, sep).subrange(
                part_offset(parts, sep.len() as int, i) + parts[i].len(),
                part_offset(parts, sep.len() as int, i + 1),
            ) == sep,
    decreases parts.len(),
{
    let sl = sep.len() as int;
    let n = parts.len() as int;
    let j = joined(parts, sep);
    if n == 1 {
        assert(j == parts[0]);
        assert forall|i: int| 0 <= i < n implies #[trigger] j.subrange(
            part_offset(parts, sl, i),
            part_offset(parts, sl, i) + parts[i].len(),
        ) == parts[i] by {
            assert(i == 0);
            assert(j.subrange(0, parts[0].len() as int) =~= parts[0]);
        }
    } else {
        let front = parts.drop_last();
        let jf = joined(front, sep);
        joined_layout(front, sep);
        part_offset_prefix(parts, sl, n - 2);
        assert(j == jf + sep + parts.last());
        let start_last = part_offset(parts, sl, n - 1);
        assert(jf.len() + sl == start_last);
        assert forall|i: int| 0 <= i < n implies #[trigger] j.subrange(
            part_offset(parts, sl, i),
            part_offset(parts, sl, i) + parts[i].len(),
        ) == parts[i] by {
            if i < n - 1 {
                part_offset_prefix(parts, sl, i);
                part_offset_mono(front, sl, i, n - 2);
                part_offset_mono(front, sl, 0, i);
                assert(front[i] == parts[i]);
                assert(jf.subrange(part_offset(front, sl, i), part_offset(front, sl, i) + front[i].len()) == front[i]);
                assert(j.subrange(part_offset(parts, sl, i), part_offset(parts, sl, i) + parts[i].len())
                    =~= jf.subrange(part_offset(front, sl, i), part_offset(front, sl, i) + front[i].len()));
            } else {
                assert(j.subrange(start_last, start_last + parts[i].len()) =~= parts.last());
            }
        }
        assert forall|i: int| 0 <= i < n - 1 implies #[trigger] j.subrange(
            part_offset(parts, sl, i) + parts[i].len(),
            part_offset(parts, sl, i + 1),
        ) == sep by {
            part_offset_prefix(parts, sl, i);
            assert(front[i] == parts[i]);
            if i < n - 2 {
                part_offset_prefix(parts, sl, i + 1);
                part_offset_mono(front, sl, i + 1, n - 2);
                part_offset_mono(front, sl, 0, i);
                assert(jf.subrange(part_offset(front, sl, i) + front[i].len(), part_offset(front, sl, i + 1)) == sep);
                assert(j.subrange(part_offset(parts, sl, i) + parts[i].len(), part_offset(parts, sl, i + 1))
                    =~= jf.subrange(part_offset(front, sl, i) + front[i].len(), part_offset(front, sl, i + 1)));
            } else {
                assert(j.subrange(part_offset(parts, sl, i) + parts[i].len(), part_offset(parts, sl, i + 1)) =~= sep);
            }
        }
    }
}

/// The artists label: with no artist list, "no artists found?"; with an
/// empty list, nothing; else every artist whole and in order at its
/// offset, each two separated by exactly ", ", and nothing more.
pub proof fn artists_label_layout(v: Seq<Seq<char>>)
    ensures
        artists_label_text(None) == seq!['n', 'o', ' ', 'a', 'r', 't', 'i', 's', 't', 's', ' ', 'f', 'o', 'u', 'n', 'd', '?'],
        v.len() == 0 ==> artists_label_text(Some(v)).len() == 0,
        v.len() > 0 ==> artists_label_text(Some(v)).len() == part_offset(v, 2, v.len() - 1) + v.last().len(),
        forall|i: int|
            0 <= i < v.len() ==> #[trigger] artists_label_text(Some(v)).subrange(
                part_offset(v, 2, i),
                part_offset(v, 2, i) + v[i].len(),
            ) == v[i],
        forall|i: int|
            0 <= i < v.len() - 1 ==> #[trigger] artists_label_text(Some(v)).subrange(
                part_offset(v, 2, i) + v[i].len(),
                part_offset(v, 2, i + 1),
            ) == seq![',', ' '],
{
    assert(comma_space() == seq![',', ' ']);
    if v.len() > 0 {
        joined_layout(v, seq![',', ' ']);
    }
}

/// Appends `parts[i]` for each `i` in order, with `sep` between each two.
pub(crate) fn append_joined(out: &mut String, parts: &Vec<String>, sep: &str)
    ensures
        final(out)@ == old(out)@ + joined(views(parts@), sep@),
{
    let ghost start = out@;
    let n = parts.len();
    let mut i: usize = 0;
    while i < n
        invariant
            n == parts@.len(),
            i <= n,
            out@ == start + joined(views(parts@.take(i as int)), sep@),
        decreases n - i,
    {
        proof {
            let next = parts@.take(i + 1);
            assert(next.drop_last() =~= parts@.take(i as int));
            assert(views(next).drop_last() =~= views(parts@.take(i as int)));
            assert(views(next).last() == parts@[i as int]@);
        }
        if i > 0 {
            out.append(sep);
        }
        out.append(parts[i].as_str());
        i = i + 1;
    }
    assert(parts@.take(n as int) =~= parts@);
}

impl Clone for PlayerProgress {
    fn clone(&self) -> (copy: Self)
        ensures
            copy@ == self@,
    {
        let artists = match &self.artists {
            Some(v) => {
                let c = v.clone();
                assert forall|i: int| 0 <= i < v@.len() implies c@[i] == v@[i] by {
                    assert(cloned::<String>(v[i], c[i]));
                };
                assert(c@ =~= v@);
                Some(c)
            },
            None => None,
        };
        let title = match &self.title {
            Some(t) => Some(t.clone()),
            None => None,
        };
        let album_name = match &self.album_name {
            Some(t) => Some(t.clone()),
            None => None,
        };
        PlayerProgress {
            title,
            length: self.length,
            artists,
            album_name,
            status: self.status,
            position: self.position,
        }
    }
}

impl PlayerProgress {
    /// The icon for the current playback status.
    pub fn status_icon(&self) -> (icon: StatusIcon)
        ensures
            icon == icon_of(self@.status),
    {
        match self.status {
            PlaybackStatus::Paused => StatusIcon::Pause,
            PlaybackStatus::Playing => StatusIcon::Play,
            PlaybackStatus::Stopped => StatusIcon::CircleX,
        }
    }

    /// The title, or "not found" when the player gives none.
    pub fn title_label(&self) -> (label: String)
        ensures
            label@ == text_or(self@.title, not_found_text()),
    {
        match &self.title {
            Some(t) => t.clone(),
            None => {
                let s = String::from_str("not found");
                proof {
                    reveal_strlit("not found");
                }
                s
            },
        }
    }

    /// The artists joined by ", ", or "no artists found?" when the player
    /// gives none.
    pub fn artists_label(&self) -> (label: String)
        ensures
            label@ == artists_label_text(self@.artists),
    {
        match &self.artists {
            Some(v) => {
                let mut out = String::new();
                proof {
                    reveal_strlit(", ");
                    assert(", "@ =~= comma_space());
                }
                append_joined(&mut out, v, ", ");
                assert(out@ =~= joined(views(v@), comma_space()));
                out
            },
            None => {
                let s = String::from_str("no artists found?");
                proof {
                    reveal_strlit("no artists found?");
                }
                s
            },
        }
    }
}

/// The media panel: the last snapshot received from the player, if any.
pub struct MediaPlayer {
    pub last_state: Option<PlayerProgress>,
}

pub open spec fn idle_text() -> Seq<char> {
    seq!['n', 'o', ' ', 'p', 'l', 'a', 'y', 'i', 'n', 'g', ' ', ':', '<']
}

impl MediaPlayer {
    /// A panel that has not heard from any player yet.
    pub fn new() -> (mp: Self)
        ensures
            mp.last_state is None,
    {
        MediaPlayer { last_state: None }
    }

    /// Records a snapshot that the player reported; it replaces the last one.
    pub fn record(&mut self, data: PlayerProgress)
        ensures
            final(self).last_state == Some(data),
    {
        self.last_state = Some(data);
    }

    /// The text shown in place of the track while no snapshot has arrived:
    /// "no playing :<"; `None` once there is a snapshot to show.
    pub fn idle_notice(&self) -> (notice: Option<String>)
        ensures
            self.last_state is None <==> notice is Some,
            notice matches Some(t) ==> t@ == idle_text(),
    {
        match &self.last_state {
            Some(_) => None,
            None => {
                let t = String::from_str("no playing :<");
                proof {
                    reveal_strlit("no playing :<");
                }
                Some(t)
            },
        }
    }
}

/// What the polling thread does next.
#[derive(Debug, Clone, Copy, PartialEq, Eq, Structural)]
pub enum PollStep {
    /// Follow the progress of the player that is known and running.
    Track,
    /// Look for an active player.
    Search,
}

/// The polling thread's choice: track the known player while it runs,
/// otherwise search for an active one. `known_running` is `None` when no
/// player is known, else whether the known one is running.
pub fn poll_step(known_running: Option<bool>) -> (step: PollStep)
    ensures
        step == (if known_running == Some(true) { PollStep::Track } else { PollStep::Search }),
{
    match known_running {
        Some(true) => PollStep::Track,
        _ => PollStep::Search,
    }
}

} // verus!
