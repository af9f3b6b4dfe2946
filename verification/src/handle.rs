//! The client-facing handle, the commands it sends, and the arbitration
//! order on playback requests.
use vstd::prelude::*;

use crate::OrbSoundSystemError;
use crate::channel::clone_sender;
use crate::channel::send_on;
use crate::channel::sender_down;
use crate::channel::sent_log;

verus! {

/// Sound priority. Used to determine what sound should be played next.
/// `Urgent` plays first, then `High`, then `Default`; this order is a stable
/// contract of the system.
#[derive(PartialEq, Eq, Structural, Clone, Copy, Debug)]
pub enum SoundPriority {
    Urgent,
    High,
    Default,
}

/// Where a priority stands in the arbitration order: smaller plays first.
pub open spec fn rank(p: SoundPriority) -> int {
    match p {
        SoundPriority::Urgent => 0,
        SoundPriority::High => 1,
        SoundPriority::Default => 2,
    }
}

impl SoundPriority {
    /// Executable counterpart of [`rank`].
    pub fn rank_exec(&self) -> (r: u8)
        ensures
            r as int == rank(*self),
    {
        match self {
            SoundPriority::Urgent => 0,
            SoundPriority::High => 1,
            SoundPriority::Default => 2,
        }
    }
}

/// A request to play the file at `path`, as it travels from a handle to the
/// engine.  The deadline, when present, is an absolute instant on the
/// submitting side's monotonic clock, in ticks; the engine compares it
/// against the clock value it is handed.
#[derive(Debug, Clone)]
pub struct PlaySoundCommand {
    /// Path to the file in the filesystem.
    pub path: String,
    /// Sound priority.
    pub priority: SoundPriority,
    /// Deadline after which the sound will not be played.
    pub play_deadline: Option<u64>,
}

/// The mathematical shadow of a [`PlaySoundCommand`]: what the contracts
/// speak about.
pub ghost struct ReqModel {
    pub path: Seq<char>,
    pub priority: SoundPriority,
    pub deadline: Option<u64>,
}

impl View for PlaySoundCommand {
    type V = ReqModel;

    open spec fn view(&self) -> ReqModel {
        ReqModel { path: self.path@, priority: self.priority, deadline: self.play_deadline }
    }
}

/// The total arbitration preorder on requests: `a` plays no later than `b`.
///
/// First by priority; on equal priority a request with a deadline precedes
/// one without; when both have deadlines the sooner one plays first; when
/// neither has one the two are tied (insertion order may break the tie).
/// The path plays no part in the order.
pub open spec fn req_le(a: ReqModel, b: ReqModel) -> bool {
    if rank(a.priority) != rank(b.priority) {
        rank(a.priority) < rank(b.priority)
    } else {
        match (a.deadline, b.deadline) {
            (Option::Some(da), Option::Some(db)) => da <= db,
            (Option::Some(_), Option::None) => true,
            (Option::None, Option::Some(_)) => false,
            (Option::None, Option::None) => true,
        }
    }
}

/// A request whose deadline has already passed at instant `now`.  A request
/// without a deadline never expires.
pub open spec fn expired(r: ReqModel, now: u64) -> bool {
    match r.deadline {
        Option::Some(d) => d < now,
        Option::None => false,
    }
}

/// The arbitration order relates every pair of requests.
pub proof fn lemma_req_le_total(a: ReqModel, b: ReqModel)
    ensures
        req_le(a, b) || req_le(b, a),
{
}

/// The arbitration order is transitive.
pub proof fn lemma_req_le_transitive(a: ReqModel, b: ReqModel, c: ReqModel)
    requires
        req_le(a, b),
        req_le(b, c),
    ensures
        req_le(a, c),
{
}

/// Priority dominates the order: a request of strictly greater priority
/// plays first, whatever the deadlines on either side say.
pub proof fn lemma_priority_dominates(a: ReqModel, b: ReqModel)
    requires
        rank(a.priority) < rank(b.priority),
    ensures
        req_le(a, b),
        !req_le(b, a),
{
}

impl PlaySoundCommand {
    /// Executable counterpart of [`req_le`]: does `self` play no later than
    /// `other`?
    pub fn plays_no_later_than(&self, other: &PlaySoundCommand) -> (r: bool)
        ensures
            r == req_le(self@, other@),
    {
        let my_rank = self.priority.rank_exec();
        let other_rank = other.priority.rank_exec();
        if my_rank != other_rank {
            my_rank < other_rank
        } else {
            match (&self.play_deadline, &other.play_deadline) {
                (Option::Some(da), Option::Some(db)) => *da <= *db,
                (Option::Some(_), Option::None) => true,
                (Option::None, Option::Some(_)) => false,
                (Option::None, Option::None) => true,
            }
        }
    }

    /// Executable counterpart of [`expired`].
    pub fn is_expired(&self, now: u64) -> (r: bool)
        ensures
            r == expired(self@, now),
    {
        match &self.play_deadline {
            Option::Some(d) => *d < now,
            Option::None => false,
        }
    }
}

/// `PlaySoundCommand`s compare by priority and deadline alone; the path does
/// not enter the comparison.
impl PartialEq for PlaySoundCommand {
    fn eq(&self, other: &Self) -> (r: bool) {
        self.priority == other.priority && self.play_deadline == other.play_deadline
    }
}

impl vstd::std_specs::cmp::PartialEqSpecImpl for PlaySoundCommand {
    open spec fn obeys_eq_spec() -> bool {
        true
    }

    open spec fn eq_spec(&self, other: &Self) -> bool {
        self.priority == other.priority && self.play_deadline == other.play_deadline
    }
}

/// A transport or playback command on its way to the engine.
///
/// Volumes are carried in thousandths of unity gain, so `1000` is unchanged
/// loudness and `2000` doubles it.  `AdjustVolume` is additive and nothing
/// clamps the result; negative volumes are passed through and their effect
/// is device-defined.
pub enum SoundCommand {
    PlaySound(PlaySoundCommand),
    SetVolume(i64),
    AdjustVolume(i64),
    Pause,
    Resume,
    Shutdown,
}

/// Handle to the sound system. All communication with the sound system is
/// done through methods of this type.  A handle is a sender into the
/// engine's command channel; every method is a fire-and-forget enqueue that
/// never waits on the engine's progress.  The only failure is
/// [`OrbSoundSystemError::SystemIsDown`]: the engine thread has exited and
/// nobody will ever receive the command.
pub struct OrbSoundSystemHandle {
    pub(crate) command_sender: std::sync::mpsc::Sender<SoundCommand>,
}

impl OrbSoundSystemHandle {
    /// Whether this handle's channel has lost its receiver, so that every
    /// further call returns [`OrbSoundSystemError::SystemIsDown`].
    pub closed spec fn down(self) -> bool {
        sender_down(self.command_sender)
    }

    /// Every command this handle has successfully enqueued, oldest first.
    /// The engine receives them in exactly this order, interleaved
    /// arbitrarily with other handles' commands.
    pub closed spec fn sent(self) -> Seq<SoundCommand> {
        sent_log(self.command_sender)
    }

    /// Wrap a sender into a handle.  The shell that spawns the engine pairs
    /// the sender with the receiver the engine owns.
    pub fn new(command_sender: std::sync::mpsc::Sender<SoundCommand>) -> (h: OrbSoundSystemHandle)
        ensures
            h.down() == sender_down(command_sender),
            h.sent() == sent_log(command_sender),
    {
        OrbSoundSystemHandle { command_sender }
    }

    /// Request playback of the file located by `path`.  Usually it plays
    /// immediately, but when several requests are pending the order of
    /// played files is determined by `priority` and then by deadline, as
    /// [`req_le`] states.  Files are never played simultaneously.
    ///
    /// `play_deadline` is an absolute instant on the caller's monotonic
    /// clock ([`deadline_from`] builds it from a grace window); the file
    /// will not start playing after that instant.
    pub fn play_sound(
        &mut self,
        path: &str,
        priority: SoundPriority,
        play_deadline: Option<u64>,
    ) -> (r: Result<(), OrbSoundSystemError>)
        ensures
            old(self).down() ==> r is Err,
            r is Ok ==> final(self).sent().len() == old(self).sent().len() + 1
                && final(self).sent().drop_last() == old(self).sent()
                && (final(self).sent().last() matches SoundCommand::PlaySound(req)
                    && req@ == (ReqModel { path: path@, priority, deadline: play_deadline })),
            r matches Err(e) ==> e is SystemIsDown && final(self).down() && final(self).sent()
                == old(self).sent(),
    {
        let command = SoundCommand::PlaySound(
            PlaySoundCommand { path: path.to_owned(), priority, play_deadline },
        );
        let ghost gcmd = command;
        let r = self.send_command(command);
        proof {
            if r is Ok {
                assert(self.sent() == old(self).sent().push(gcmd));
                assert(self.sent().drop_last() =~= old(self).sent());
            }
        }
        r
    }

    /// Set a particular volume, in thousandths of unity gain.  If never
    /// changed, the volume of a sound is `1000`; setting `2000` makes it
    /// twice as loud.
    pub fn set_volume(&mut self, value: i64) -> (r: Result<(), OrbSoundSystemError>)
        ensures
            old(self).down() ==> r is Err,
            r is Ok ==> final(self).sent() == old(self).sent().push(SoundCommand::SetVolume(value)),
            r matches Err(e) ==> e is SystemIsDown && final(self).down() && final(self).sent()
                == old(self).sent(),
    {
        self.send_command(SoundCommand::SetVolume(value))
    }

    /// Adjust the volume by the given amount of thousandths: positive to
    /// make it louder, negative to make it quieter.
    pub fn adjust_volume(&mut self, delta: i64) -> (r: Result<(), OrbSoundSystemError>)
        ensures
            old(self).down() ==> r is Err,
            r is Ok ==> final(self).sent() == old(self).sent().push(SoundCommand::AdjustVolume(delta)),
            r matches Err(e) ==> e is SystemIsDown && final(self).down() && final(self).sent()
                == old(self).sent(),
    {
        self.send_command(SoundCommand::AdjustVolume(delta))
    }

    /// Pause playback. Does nothing if already paused.
    pub fn pause(&mut self) -> (r: Result<(), OrbSoundSystemError>)
        ensures
            old(self).down() ==> r is Err,
            r is Ok ==> final(self).sent() == old(self).sent().push(SoundCommand::Pause),
            r matches Err(e) ==> e is SystemIsDown && final(self).down() && final(self).sent()
                == old(self).sent(),
    {
        self.send_command(SoundCommand::Pause)
    }

    /// Resume playback. Does nothing if not paused.
    pub fn resume(&mut self) -> (r: Result<(), OrbSoundSystemError>)
        ensures
            old(self).down() ==> r is Err,
            r is Ok ==> final(self).sent() == old(self).sent().push(SoundCommand::Resume),
            r matches Err(e) ==> e is SystemIsDown && final(self).down() && final(self).sent()
                == old(self).sent(),
    {
        self.send_command(SoundCommand::Resume)
    }

    /// Shut the system down by stopping its event loop.  Asynchronous: the
    /// engine exits after consuming this command, and every handle call made
    /// after that returns [`OrbSoundSystemError::SystemIsDown`].
    pub fn shutdown(&mut self) -> (r: Result<(), OrbSoundSystemError>)
        ensures
            old(self).down() ==> r is Err,
            r is Ok ==> final(self).sent() == old(self).sent().push(SoundCommand::Shutdown),
            r matches Err(e) ==> e is SystemIsDown && final(self).down() && final(self).sent()
                == old(self).sent(),
    {
        self.send_command(SoundCommand::Shutdown)
    }

    /// A second handle into the same engine: commands from either land on
    /// the same channel, so handles can be spread across threads.
    pub fn duplicate(&self) -> (h: OrbSoundSystemHandle)
        ensures
            h.down() == self.down(),
            h.sent() == Seq::<SoundCommand>::empty(),
    {
        OrbSoundSystemHandle { command_sender: clone_sender(&self.command_sender) }
    }

    fn send_command(&mut self, command: SoundCommand) -> (r: Result<(), OrbSoundSystemError>)
        ensures
            old(self).down() ==> r is Err,
            r is Ok ==> final(self).sent() == old(self).sent().push(command),
            r matches Err(e) ==> e is SystemIsDown && final(self).down() && final(self).sent()
                == old(self).sent(),
    {
        send_on(&mut self.command_sender, command)
    }
}

/// Cloning a handle is [`OrbSoundSystemHandle::duplicate`]: the clone
/// reaches the same engine.
impl Clone for OrbSoundSystemHandle {
    fn clone(&self) -> (h: Self)
        ensures
            h.down() == self.down(),
            h.sent() == Seq::<SoundCommand>::empty(),
    {
        self.duplicate()
    }
}

/// The deadline a request submitted at `now` with the given grace window
/// carries: `now + max_delay`, saturating at the top of the clock's range.
pub fn deadline_from(now: u64, max_delay: Option<u64>) -> (r: Option<u64>)
    ensures
        match max_delay {
            Option::Some(delay) => r == Option::Some(
                if now + delay <= u64::MAX { (now + delay) as u64 } else { u64::MAX },
            ),
            Option::None => r is None,
        },
{
    match max_delay {
        Option::Some(delay) => {
            if now <= u64::MAX - delay {
                Option::Some(now + delay)
            } else {
                Option::Some(u64::MAX)
            }
        },
        Option::None => Option::None,
    }
}

} // verus!
