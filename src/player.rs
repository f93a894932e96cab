use vstd::prelude::*;
use std::collections::VecDeque;
use crate::selection::{StatefulList, cursor_valid, step_forward, step_back};

verus! {

/// The quietest volume, in percent.
pub const VOLUME_MIN: u32 = 10;

/// The loudest volume, in percent.
pub const VOLUME_MAX: u32 = 200;

/// How far one press moves the volume, in percent.
pub const VOLUME_STEP: u32 = 10;

/// The volume a fresh sink plays at, in percent.
pub const VOLUME_START: u32 = 100;

/// A volume the player can hold: a multiple of the step within the bounds.
pub open spec fn volume_valid(v: int) -> bool {
    VOLUME_MIN <= v <= VOLUME_MAX && v % (VOLUME_STEP as int) == 0
}

/// The volume one step up, clamped at the top.
pub open spec fn raised(v: u32) -> u32 {
    if v + VOLUME_STEP > VOLUME_MAX { VOLUME_MAX } else { (v + VOLUME_STEP) as u32 }
}

/// The volume one step down, clamped at the bottom.
pub open spec fn lowered(v: u32) -> u32 {
    if v < VOLUME_MIN + VOLUME_STEP { VOLUME_MIN } else { (v - VOLUME_STEP) as u32 }
}

/// The volume after a run of presses, `true` for up and `false` for down.
pub open spec fn volume_after(v: u32, presses: Seq<bool>) -> u32
    decreases presses.len(),
{
    if presses.len() == 0 {
        v
    } else {
        volume_after(
            if presses[0] { raised(v) } else { lowered(v) },
            presses.subrange(1, presses.len() as int),
        )
    }
}

/// The volume after `k` presses up.
pub open spec fn raised_times(v: u32, k: nat) -> u32
    decreases k,
{
    if k == 0 { v } else { raised(raised_times(v, (k - 1) as nat)) }
}

/// The volume after `k` presses down.
pub open spec fn lowered_times(v: u32, k: nat) -> u32
    decreases k,
{
    if k == 0 { v } else { lowered(lowered_times(v, (k - 1) as nat)) }
}

/// An instruction for the audio sink.
#[derive(Clone, Copy, Debug, PartialEq, Eq, Structural)]
pub enum SinkOp {
    /// Open the catalog entry at this index and add it to the sink.
    Append(usize),
    /// Resume playback.
    Play,
    /// Pause playback.
    Pause,
    /// Drop everything the sink holds.
    Stop,
    /// Set the volume, in percent.
    SetVolume(u32),
}

/// A user command.
#[derive(Clone, Copy, Debug, PartialEq, Eq, Structural)]
pub enum Command {
    SelectNext,
    SelectPrevious,
    PlaySelected,
    QueueSelected,
    TogglePause,
    ToggleLoop,
    ToggleShuffle,
    Skip,
    VolumeUp,
    VolumeDown,
    Quit,
}

/// What the status line shows, with catalog indices for tracks.
#[derive(Clone, Copy, Debug, PartialEq, Eq, Structural)]
pub enum Status {
    Paused,
    Looping(Option<usize>),
    Shuffling,
    Playing(Option<usize>),
}

/// The player's state, as plain values.
pub struct PlayerState {
    pub songs: Seq<String>,
    pub cursor: Option<int>,
    pub queue: Seq<usize>,
    pub looping: bool,
    pub shuffle: bool,
    pub playing: Option<usize>,
    pub paused: bool,
    pub volume: u32,
}

impl PlayerState {
    /// The highlight, the queue and the current track all name catalog
    /// entries, and the volume is in range.
    pub open spec fn valid(&self) -> bool {
        &&& self.songs.len() <= usize::MAX
        &&& cursor_valid(self.cursor, self.songs.len() as int)
        &&& forall|k: int| 0 <= k < self.queue.len() ==> #[trigger] self.queue[k] < self.songs.len()
        &&& (self.playing matches Some(p) ==> p < self.songs.len())
        &&& volume_valid(self.volume as int)
    }
}

/// The catalog index a shuffle draw lands on among `n >= 2` tracks: any track
/// but the current one, by position.
pub open spec fn shuffle_choice(n: nat, current: Option<usize>, draw: nat) -> usize {
    match current {
        None => (draw % n) as usize,
        Some(c) => {
            let r = draw % ((n - 1) as nat);
            if r >= c { (r + 1) as usize } else { r as usize }
        },
    }
}

/// How many positions a shuffle draw chooses among: every track but the
/// current one.
pub open spec fn shuffle_span(n: nat, current: Option<usize>) -> nat {
    if current is Some { (n - 1) as nat } else { n }
}

/// Whether a tick at this sink occupancy draws a random number.
pub open spec fn tick_draws(s: PlayerState, occupancy: nat) -> bool {
    occupancy == 0 && s.shuffle && s.songs.len() >= 2
}

/// The track a tick hands to the sink, given the sink's occupancy and a draw.
pub open spec fn scheduled(s: PlayerState, occupancy: nat, draw: nat) -> Option<usize> {
    if occupancy > 0 {
        None
    } else if s.shuffle {
        if s.songs.len() == 0 {
            None
        } else if s.songs.len() == 1 {
            Some(0)
        } else {
            Some(shuffle_choice(s.songs.len(), s.playing, draw))
        }
    } else if s.looping && s.playing is Some {
        s.playing
    } else if s.queue.len() > 0 {
        Some(s.queue[0])
    } else {
        None
    }
}

/// The state after a tick, given the sink's occupancy and a draw.
pub open spec fn after_tick(s: PlayerState, occupancy: nat, draw: nat) -> PlayerState {
    if occupancy > 0 {
        s
    } else if s.shuffle {
        if s.songs.len() == 0 {
            s
        } else if s.songs.len() == 1 {
            PlayerState { playing: Some(0), ..s }
        } else {
            PlayerState { playing: Some(shuffle_choice(s.songs.len(), s.playing, draw)), ..s }
        }
    } else if s.looping && s.playing is Some {
        s
    } else if s.queue.len() > 0 {
        PlayerState {
            playing: Some(s.queue[0]),
            queue: s.queue.subrange(1, s.queue.len() as int),
            ..s
        }
    } else {
        PlayerState { playing: None, ..s }
    }
}

/// The state after a command.
pub open spec fn after_command(s: PlayerState, cmd: Command) -> PlayerState {
    match cmd {
        Command::SelectNext => PlayerState {
            cursor: step_forward(s.cursor, s.songs.len() as int),
            ..s
        },
        Command::SelectPrevious => PlayerState {
            cursor: step_back(s.cursor, s.songs.len() as int),
            ..s
        },
        Command::PlaySelected => match s.cursor {
            Some(i) => PlayerState { playing: Some(i as usize), paused: false, ..s },
            None => s,
        },
        Command::QueueSelected => match s.cursor {
            Some(i) => PlayerState { queue: s.queue.push(i as usize), ..s },
            None => s,
        },
        Command::TogglePause => PlayerState { paused: !s.paused, ..s },
        Command::ToggleLoop => PlayerState { looping: !s.looping, ..s },
        Command::ToggleShuffle => PlayerState { shuffle: !s.shuffle, ..s },
        Command::Skip => PlayerState { paused: false, ..s },
        Command::VolumeUp => PlayerState { volume: raised(s.volume), ..s },
        Command::VolumeDown => PlayerState { volume: lowered(s.volume), ..s },
        Command::Quit => s,
    }
}

/// What a command tells the sink, in order.
pub open spec fn command_ops(s: PlayerState, cmd: Command) -> Seq<SinkOp> {
    match cmd {
        Command::PlaySelected => match s.cursor {
            Some(i) => seq![SinkOp::Stop, SinkOp::Append(i as usize), SinkOp::Play],
            None => seq![],
        },
        Command::TogglePause => if s.paused { seq![SinkOp::Play] } else { seq![SinkOp::Pause] },
        Command::Skip => seq![SinkOp::Stop, SinkOp::Play],
        Command::VolumeUp => seq![SinkOp::SetVolume(raised(s.volume))],
        Command::VolumeDown => seq![SinkOp::SetVolume(lowered(s.volume))],
        _ => seq![],
    }
}

/// The queue trimmed to the sink's occupancy: the entries at the front beyond
/// that count are dropped.
pub open spec fn trimmed(queue: Seq<usize>, occupancy: nat) -> Seq<usize> {
    if queue.len() > occupancy {
        queue.subrange(queue.len() - occupancy, queue.len() as int)
    } else {
        queue
    }
}

/// Relies on rand's `thread_rng` and `Rng::gen_range`: a number drawn from
/// `0..n`; the call panics only on an empty range.
#[verifier::external_body]
fn draw_below(n: usize) -> (r: usize)
    requires
        n > 0,
    ensures
        r < n,
{
    rand::Rng::gen_range(&mut rand::thread_rng(), 0..n)
}

/// The catalog index that `draw` selects among `n >= 2` tracks, skipping the
/// current one.
pub fn shuffle_pick(n: usize, current: Option<usize>, draw: usize) -> (r: usize)
    requires
        n >= 2,
        current matches Some(c) ==> c < n,
    ensures
        r == shuffle_choice(n as nat, current, draw as nat),
{
    match current {
        None => draw % n,
        Some(c) => {
            let r = draw % (n - 1);
            if r >= c { r + 1 } else { r }
        },
    }
}

/// The playback controller: the catalog with its highlight, the play queue,
/// the policy flags, the current track and the sink's pause and volume.
pub struct App {
    songs: StatefulList<String>,
    queue: VecDeque<usize>,
    looping: bool,
    shuffle: bool,
    playing: Option<usize>,
    paused: bool,
    volume: u32,
}

impl View for App {
    type V = PlayerState;

    closed spec fn view(&self) -> PlayerState {
        PlayerState {
            songs: self.songs.entries(),
            cursor: self.songs.cursor(),
            queue: self.queue@,
            looping: self.looping,
            shuffle: self.shuffle,
            playing: self.playing,
            paused: self.paused,
            volume: self.volume,
        }
    }
}

impl App {
    pub open spec fn wf(&self) -> bool {
        self@.valid()
    }

    /// A controller over a catalog, with the first track highlighted, an
    /// empty queue, both policies off, nothing playing and the sink's
    /// starting volume.
    pub fn new(songs: Vec<String>) -> (r: App)
        ensures
            r.wf(),
            r@ == (PlayerState {
                songs: songs@,
                cursor: if songs@.len() == 0 { None } else { Some(0) },
                queue: Seq::empty(),
                looping: false,
                shuffle: false,
                playing: None,
                paused: false,
                volume: VOLUME_START,
            }),
    {
        App {
            songs: StatefulList::with_items(songs),
            queue: VecDeque::new(),
            looping: false,
            shuffle: false,
            playing: None,
            paused: false,
            volume: VOLUME_START,
        }
    }

    /// The highlighted catalog entry.
    pub fn get_selected(&self) -> (r: Option<String>)
        requires
            self.wf(),
        ensures
            match self@.cursor {
                None => r is None,
                Some(i) => r == Some(self@.songs[i]),
            },
    {
        self.songs.selected()
    }

    /// The name of the catalog entry at index `i`.
    pub fn song_name(&self, i: usize) -> (r: String)
        requires
            i < self@.songs.len(),
        ensures
            r == self@.songs[i as int],
    {
        self.songs.item(i).clone()
    }

    /// The catalog.
    pub fn songs(&self) -> (r: &Vec<String>)
        ensures
            r@ == self@.songs,
    {
        self.songs.items()
    }

    /// The index of the highlighted catalog entry.
    pub fn selected_index(&self) -> (r: Option<usize>)
        ensures
            match r {
                None => self@.cursor is None,
                Some(i) => self@.cursor == Some(i as int),
            },
    {
        self.songs.selected_index()
    }

    /// The catalog indices waiting in the queue, front first.
    pub fn queued(&self) -> (r: Vec<usize>)
        ensures
            r@ == self@.queue,
    {
        let mut r: Vec<usize> = Vec::new();
        let mut k: usize = 0;
        while k < self.queue.len()
            invariant
                k <= self.queue@.len(),
                r@ == self.queue@.subrange(0, k as int),
            decreases self.queue@.len() - k,
        {
            r.push(self.queue[k]);
            k = k + 1;
            assert(r@ =~= self.queue@.subrange(0, k as int));
        }
        assert(r@ =~= self.queue@);
        r
    }

    /// The catalog index of the track last handed to the sink.
    pub fn now_playing(&self) -> (r: Option<usize>)
        ensures
            r == self@.playing,
    {
        self.playing
    }

    pub fn is_looping(&self) -> (r: bool)
        ensures
            r == self@.looping,
    {
        self.looping
    }

    pub fn is_shuffle(&self) -> (r: bool)
        ensures
            r == self@.shuffle,
    {
        self.shuffle
    }

    pub fn is_paused(&self) -> (r: bool)
        ensures
            r == self@.paused,
    {
        self.paused
    }

    /// The volume, in percent.
    pub fn volume(&self) -> (r: u32)
        ensures
            r == self@.volume,
    {
        self.volume
    }

    /// The status line: a pause first, then loop, then shuffle, else plain
    /// playback; loop and plain playback name the current track.
    pub fn status(&self) -> (r: Status)
        ensures
            r == (if self@.paused {
                Status::Paused
            } else if self@.looping {
                Status::Looping(self@.playing)
            } else if self@.shuffle {
                Status::Shuffling
            } else {
                Status::Playing(self@.playing)
            }),
    {
        if self.paused {
            Status::Paused
        } else if self.looping {
            Status::Looping(self.playing)
        } else if self.shuffle {
            Status::Shuffling
        } else {
            Status::Playing(self.playing)
        }
    }

    /// One scheduling tick with the random draw given: when the sink is
    /// empty, picks the next track by shuffle, then loop, then the queue.
    /// Returns the catalog index of the track to hand to the sink.
    pub fn schedule(&mut self, occupancy: usize, draw: usize) -> (r: Option<usize>)
        requires
            old(self).wf(),
        ensures
            final(self).wf(),
            r == scheduled(old(self)@, occupancy as nat, draw as nat),
            final(self)@ == after_tick(old(self)@, occupancy as nat, draw as nat),
    {
        if occupancy > 0 {
            return None;
        }
        if self.shuffle {
            let n = self.songs.len();
            if n == 0 {
                return None;
            }
            if n == 1 {
                self.playing = Some(0);
                return Some(0);
            }
            let i = shuffle_pick(n, self.playing, draw);
            self.playing = Some(i);
            Some(i)
        } else if self.looping && self.playing.is_some() {
            self.playing
        } else {
            let next = self.queue.pop_front();
            self.playing = next;
            next
        }
    }

    /// One scheduling tick: when the sink is empty, picks the next track by
    /// shuffle (drawing at random), then loop, then the queue. Returns the
    /// catalog index of the track to hand to the sink.
    pub fn tick(&mut self, occupancy: usize) -> (r: Option<usize>)
        requires
            old(self).wf(),
        ensures
            final(self).wf(),
            exists|d: nat|
                (tick_draws(old(self)@, occupancy as nat) ==> d < shuffle_span(
                    old(self)@.songs.len(),
                    old(self)@.playing,
                )) && r == #[trigger] scheduled(old(self)@, occupancy as nat, d) && final(self)@
                    == after_tick(old(self)@, occupancy as nat, d),
            !tick_draws(old(self)@, occupancy as nat) ==> r == scheduled(
                old(self)@,
                occupancy as nat,
                0,
            ) && final(self)@ == after_tick(old(self)@, occupancy as nat, 0),
    {
        let draw = if occupancy == 0 && self.shuffle && self.songs.len() >= 2 {
            let span = if self.playing.is_some() { self.songs.len() - 1 } else { self.songs.len() };
            draw_below(span)
        } else {
            0
        };
        let r = self.schedule(occupancy, draw);
        assert(r == scheduled(old(self)@, occupancy as nat, draw as nat));
        r
    }

    /// Highlights the next catalog entry, wrapping to the first.
    pub fn select_next(&mut self)
        requires
            old(self).wf(),
        ensures
            final(self).wf(),
            final(self)@ == after_command(old(self)@, Command::SelectNext),
    {
        self.songs.next();
    }

    /// Highlights the previous catalog entry, wrapping to the last.
    pub fn select_previous(&mut self)
        requires
            old(self).wf(),
        ensures
            final(self).wf(),
            final(self)@ == after_command(old(self)@, Command::SelectPrevious),
    {
        self.songs.previous();
    }

    /// Plays the highlighted track at once, past the queue, in place of
    /// whatever the sink holds.
    pub fn play_selected(&mut self) -> (r: Vec<SinkOp>)
        requires
            old(self).wf(),
        ensures
            final(self).wf(),
            final(self)@ == after_command(old(self)@, Command::PlaySelected),
            r@ == command_ops(old(self)@, Command::PlaySelected),
    {
        match self.songs.selected_index() {
            Some(i) => {
                self.playing = Some(i);
                self.paused = false;
                vec![SinkOp::Stop, SinkOp::Append(i), SinkOp::Play]
            },
            None => Vec::new(),
        }
    }

    /// Adds the highlighted track to the back of the queue.
    pub fn queue_selected(&mut self)
        requires
            old(self).wf(),
        ensures
            final(self).wf(),
            final(self)@ == after_command(old(self)@, Command::QueueSelected),
    {
        if let Some(i) = self.songs.selected_index() {
            self.queue.push_back(i);
        }
    }

    /// Resumes a paused sink, pauses a playing one.
    pub fn toggle_pause(&mut self) -> (r: SinkOp)
        requires
            old(self).wf(),
        ensures
            final(self).wf(),
            final(self)@ == after_command(old(self)@, Command::TogglePause),
            r == (if old(self)@.paused { SinkOp::Play } else { SinkOp::Pause }),
    {
        self.paused = !self.paused;
        if self.paused { SinkOp::Pause } else { SinkOp::Play }
    }

    /// Turns looping of the current track on or off.
    pub fn toggle_loop(&mut self)
        requires
            old(self).wf(),
        ensures
            final(self).wf(),
            final(self)@ == after_command(old(self)@, Command::ToggleLoop),
    {
        self.looping = !self.looping;
    }

    /// Turns shuffle on or off.
    pub fn toggle_shuffle(&mut self)
        requires
            old(self).wf(),
        ensures
            final(self).wf(),
            final(self)@ == after_command(old(self)@, Command::ToggleShuffle),
    {
        self.shuffle = !self.shuffle;
    }

    /// Drops what the sink holds and resumes it, so that the next tick
    /// picks a new track.
    pub fn skip(&mut self) -> (r: Vec<SinkOp>)
        requires
            old(self).wf(),
        ensures
            final(self).wf(),
            final(self)@ == after_command(old(self)@, Command::Skip),
            r@ == command_ops(old(self)@, Command::Skip),
    {
        self.paused = false;
        vec![SinkOp::Stop, SinkOp::Play]
    }

    /// Raises the volume one step, up to the loudest.
    pub fn volume_up(&mut self) -> (r: SinkOp)
        requires
            old(self).wf(),
        ensures
            final(self).wf(),
            final(self)@ == after_command(old(self)@, Command::VolumeUp),
            r == SinkOp::SetVolume(raised(old(self)@.volume)),
    {
        self.volume = if self.volume + VOLUME_STEP > VOLUME_MAX {
            VOLUME_MAX
        } else {
            self.volume + VOLUME_STEP
        };
        SinkOp::SetVolume(self.volume)
    }

    /// Lowers the volume one step, down to the quietest.
    pub fn volume_down(&mut self) -> (r: SinkOp)
        requires
            old(self).wf(),
        ensures
            final(self).wf(),
            final(self)@ == after_command(old(self)@, Command::VolumeDown),
            r == SinkOp::SetVolume(lowered(old(self)@.volume)),
    {
        self.volume = if self.volume < VOLUME_MIN + VOLUME_STEP {
            VOLUME_MIN
        } else {
            self.volume - VOLUME_STEP
        };
        SinkOp::SetVolume(self.volume)
    }

    /// Applies a command and returns what the sink is to do, in order.
    pub fn handle(&mut self, cmd: Command) -> (r: Vec<SinkOp>)
        requires
            old(self).wf(),
        ensures
            final(self).wf(),
            final(self)@ == after_command(old(self)@, cmd),
            r@ == command_ops(old(self)@, cmd),
    {
        match cmd {
            Command::SelectNext => {
                self.select_next();
                Vec::new()
            },
            Command::SelectPrevious => {
                self.select_previous();
                Vec::new()
            },
            Command::PlaySelected => self.play_selected(),
            Command::QueueSelected => {
                self.queue_selected();
                Vec::new()
            },
            Command::TogglePause => vec![self.toggle_pause()],
            Command::ToggleLoop => {
                self.toggle_loop();
                Vec::new()
            },
            Command::ToggleShuffle => {
                self.toggle_shuffle();
                Vec::new()
            },
            Command::Skip => self.skip(),
            Command::VolumeUp => vec![self.volume_up()],
            Command::VolumeDown => vec![self.volume_down()],
            Command::Quit => Vec::new(),
        }
    }

    /// Records that the sink could not open the track at index `i`: if it is
    /// the one counted as playing, nothing counts as playing any more, so the
    /// next tick on the empty sink moves on by the current policy.
    pub fn open_failed(&mut self, i: usize)
        requires
            old(self).wf(),
        ensures
            final(self).wf(),
            final(self)@ == (PlayerState {
                playing: if old(self)@.playing == Some(i) { None } else { old(self)@.playing },
                ..old(self)@
            }),
    {
        if self.playing == Some(i) {
            self.playing = None;
        }
    }

    /// Drops entries from the front of the queue until it is no longer than
    /// what the sink still holds.
    pub fn trim_queue(&mut self, occupancy: usize)
        requires
            old(self).wf(),
        ensures
            final(self).wf(),
            final(self)@ == (PlayerState {
                queue: trimmed(old(self)@.queue, occupancy as nat),
                ..old(self)@
            }),
    {
        let ghost s0 = self@;
        let ghost mut k: int = 0;
        assert(s0.queue.subrange(0, s0.queue.len() as int) =~= s0.queue);
        while self.queue.len() > occupancy
            invariant
                0 <= k <= s0.queue.len(),
                k > 0 ==> s0.queue.len() - k >= occupancy,
                self@.queue == s0.queue.subrange(k, s0.queue.len() as int),
                self@ == (PlayerState { queue: self@.queue, ..s0 }),
                s0.valid(),
            decreases self.queue@.len(),
        {
            self.queue.pop_front();
            proof {
                k = k + 1;
                assert(self@.queue =~= s0.queue.subrange(k, s0.queue.len() as int));
            }
        }
        assert(self@.queue =~= trimmed(s0.queue, occupancy as nat));
    }
}

/// Whatever run of presses up and down, the volume stays a multiple of the
/// step within the bounds.
pub proof fn lemma_volume_stays_in_range(v: u32, presses: Seq<bool>)
    requires
        volume_valid(v as int),
    ensures
        volume_valid(volume_after(v, presses) as int),
    decreases presses.len(),
{
    if presses.len() > 0 {
        let w = if presses[0] { raised(v) } else { lowered(v) };
        lemma_volume_stays_in_range(w, presses.subrange(1, presses.len() as int));
    }
}

/// Presses up add one step each until the loudest volume caps them.
pub proof fn lemma_volume_ups_add(v: u32, k: nat)
    requires
        volume_valid(v as int),
    ensures
        raised_times(v, k) == (if v + VOLUME_STEP * k > VOLUME_MAX {
            VOLUME_MAX as int
        } else {
            v + VOLUME_STEP * k
        }),
    decreases k,
{
    if k > 0 {
        lemma_volume_ups_add(v, (k - 1) as nat);
    }
}

/// Presses down take one step each until the quietest volume stops them.
pub proof fn lemma_volume_downs_subtract(v: u32, k: nat)
    requires
        volume_valid(v as int),
    ensures
        lowered_times(v, k) == (if v - VOLUME_STEP * k < VOLUME_MIN {
            VOLUME_MIN as int
        } else {
            v - VOLUME_STEP * k
        }),
    decreases k,
{
    if k > 0 {
        lemma_volume_downs_subtract(v, (k - 1) as nat);
    }
}

/// With shuffle on and at least two tracks, a tick on an empty sink starts a
/// track other than the current one, by position, and leaves a valid state
/// with shuffle still on over the same catalog: tick after tick, no track
/// follows itself.
pub proof fn lemma_shuffle_never_repeats(s: PlayerState, draw: nat)
    requires
        s.valid(),
        s.shuffle,
        s.songs.len() >= 2,
    ensures
        scheduled(s, 0, draw) is Some,
        scheduled(s, 0, draw)->Some_0 < s.songs.len(),
        s.playing != scheduled(s, 0, draw),
        after_tick(s, 0, draw).playing == scheduled(s, 0, draw),
        after_tick(s, 0, draw).valid(),
        after_tick(s, 0, draw).shuffle,
        after_tick(s, 0, draw).songs == s.songs,
{
    let n = s.songs.len();
    if let Some(c) = s.playing {
        let r = draw % ((n - 1) as nat);
        assert(r < n - 1);
    } else {
        assert(draw % n < n);
    }
}

/// With shuffle on and a single track, a tick on an empty sink plays that
/// track, without drawing, whatever the draw would have been.
pub proof fn lemma_shuffle_single_track(s: PlayerState, draw: nat)
    requires
        s.valid(),
        s.shuffle,
        s.songs.len() == 1,
    ensures
        scheduled(s, 0, draw) == Some(0usize),
        after_tick(s, 0, draw) == (PlayerState { playing: Some(0usize), ..s }),
        !tick_draws(s, 0),
{
}

/// With shuffle on and an empty catalog, a tick schedules nothing and leaves
/// the state as it was.
pub proof fn lemma_shuffle_empty_catalog(s: PlayerState, draw: nat)
    requires
        s.valid(),
        s.shuffle,
        s.songs.len() == 0,
    ensures
        scheduled(s, 0, draw) is None,
        after_tick(s, 0, draw) == s,
{
}

/// With shuffle off and loop on, once a track is playing, every tick on an
/// empty sink replays it and leaves the state, queue included, as it was.
pub proof fn lemma_loop_replays(s: PlayerState, draw: nat)
    requires
        s.valid(),
        !s.shuffle,
        s.looping,
        s.playing is Some,
    ensures
        scheduled(s, 0, draw) == s.playing,
        after_tick(s, 0, draw) == s,
{
}

/// A skip while paused drops the sink's content and resumes it, and changes
/// nothing else: the next tick on the emptied sink picks a track by the
/// current policy, exactly as it would have without the pause.
pub proof fn lemma_skip_while_paused(s: PlayerState, draw: nat)
    requires
        s.valid(),
        s.paused,
    ensures
        command_ops(s, Command::Skip) == seq![SinkOp::Stop, SinkOp::Play],
        after_command(s, Command::Skip) == (PlayerState { paused: false, ..s }),
        scheduled(after_command(s, Command::Skip), 0, draw) == scheduled(s, 0, draw),
        after_tick(after_command(s, Command::Skip), 0, draw) == (PlayerState {
            paused: false,
            ..after_tick(s, 0, draw)
        }),
{
}

} // verus!
