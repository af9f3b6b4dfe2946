//! The playback engine: the state it owns, how it consumes commands, and
//! how it arbitrates between pending play requests.
//!
//! The engine owns the receiving half of the command channel, the pending
//! request queue and the transport state of the output sink (volume and
//! paused flag).  The shell that owns the real audio device runs the event
//! loop: it calls [`OrbSoundSystem::process_incoming_commands`], mirrors the
//! sink state onto the device, keeps the current sound's buffer full, and
//! asks [`OrbSoundSystem::next_sound`] for the next file when idle.
use vstd::prelude::*;
use vstd::multiset::Multiset;
use vstd::relations::sorted_by;
use vstd::seq_lib::group_to_multiset_ensures;

use crate::channel::RecvOutcome;
use crate::channel::receiver_disconnected;
use crate::channel::try_recv_on;
use crate::handle::PlaySoundCommand;
use crate::handle::ReqModel;
use crate::handle::SoundCommand;
use crate::handle::SoundPriority;
use crate::handle::expired;
use crate::handle::req_le;

pub mod sound;

verus! {

/// The transport state of the output sink, as the engine tracks it: the
/// volume in thousandths of unity gain, and whether playback is paused.
/// The shell mirrors this state onto the real device sink after every drain
/// of the command channel.
#[derive(PartialEq, Eq, Structural, Clone, Copy, Debug)]
pub struct SinkState {
    /// Volume in thousandths of unity gain; `1000` is unchanged loudness.
    pub volume_millis: i64,
    /// Whether playback is paused.
    pub paused: bool,
}

/// Volume after starting playback: unity gain, not paused.
pub open spec fn initial_sink() -> SinkState {
    SinkState { volume_millis: 1000, paused: false }
}

/// `a + b` confined to `i64`: volume adjustments saturate at the ends of
/// the representable range instead of wrapping.
pub open spec fn sat_plus(a: i64, b: i64) -> i64 {
    if a + b > i64::MAX {
        i64::MAX
    } else if a + b < i64::MIN {
        i64::MIN
    } else {
        (a + b) as i64
    }
}

/// Executable counterpart of [`sat_plus`].
pub fn saturating_plus(a: i64, b: i64) -> (r: i64)
    ensures
        r == sat_plus(a, b),
{
    if b >= 0 {
        if a <= i64::MAX - b {
            a + b
        } else {
            i64::MAX
        }
    } else {
        if a >= i64::MIN - b {
            a + b
        } else {
            i64::MIN
        }
    }
}

/// What the engine looks like to the contracts: the views of the pending
/// requests, and the sink transport state.
pub ghost struct EngineModel {
    pub queue: Seq<ReqModel>,
    pub sink: SinkState,
}

/// How one command changes the engine: a play request joins the pending
/// queue, transport commands rewrite the sink state, and `Shutdown` changes
/// nothing here (it only stops the loop that feeds this function).
pub open spec fn engine_step(m: EngineModel, c: SoundCommand) -> EngineModel {
    match c {
        SoundCommand::PlaySound(req) => EngineModel { queue: m.queue.push(req@), sink: m.sink },
        SoundCommand::SetVolume(v) => EngineModel {
            sink: SinkState { volume_millis: v, paused: m.sink.paused },
            queue: m.queue,
        },
        SoundCommand::AdjustVolume(d) => EngineModel {
            sink: SinkState {
                volume_millis: sat_plus(m.sink.volume_millis, d),
                paused: m.sink.paused,
            },
            queue: m.queue,
        },
        SoundCommand::Pause => EngineModel {
            sink: SinkState { volume_millis: m.sink.volume_millis, paused: true },
            queue: m.queue,
        },
        SoundCommand::Resume => EngineModel {
            sink: SinkState { volume_millis: m.sink.volume_millis, paused: false },
            queue: m.queue,
        },
        SoundCommand::Shutdown => m,
    }
}

/// [`engine_step`] folded over a sequence of commands, oldest first.
pub open spec fn engine_run(m: EngineModel, cmds: Seq<SoundCommand>) -> EngineModel
    decreases cmds.len(),
{
    if cmds.len() == 0 {
        m
    } else {
        engine_run(engine_step(m, cmds[0]), cmds.drop_first())
    }
}

/// Running one more command equals stepping after the run so far.
pub proof fn lemma_engine_run_snoc(m: EngineModel, cmds: Seq<SoundCommand>, c: SoundCommand)
    ensures
        engine_run(m, cmds.push(c)) == engine_step(engine_run(m, cmds), c),
    decreases cmds.len(),
{
    reveal_with_fuel(engine_run, 2);
    if cmds.len() == 0 {
        assert(cmds.push(c).drop_first() =~= Seq::<SoundCommand>::empty());
        assert(cmds.push(c)[0] == c);
        assert(engine_run(m, cmds.push(c)) == engine_run(
            engine_step(m, c),
            cmds.push(c).drop_first(),
        ));
    } else {
        assert(cmds.push(c).drop_first() =~= cmds.drop_first().push(c));
        assert(cmds.push(c)[0] == cmds[0]);
        lemma_engine_run_snoc(engine_step(m, cmds[0]), cmds.drop_first(), c);
        assert(engine_run(m, cmds.push(c)) == engine_run(
            engine_step(m, cmds[0]),
            cmds.drop_first().push(c),
        ));
    }
}

/// Commands from one sender land in order, so setting the volume twice
/// leaves the sink at the later value, whatever it held before.
pub proof fn lemma_set_volume_last_wins(m: EngineModel, a: i64, b: i64)
    ensures
        engine_run(
            m,
            seq![SoundCommand::SetVolume(a), SoundCommand::SetVolume(b)],
        ).sink.volume_millis == b,
{
    reveal_with_fuel(engine_run, 3);
}

/// Pausing is idempotent: two `Pause`s followed by a `Resume` leave the
/// engine exactly where one `Pause` followed by one `Resume` leaves it.
pub proof fn lemma_pause_idempotent(m: EngineModel)
    ensures
        engine_run(m, seq![SoundCommand::Pause, SoundCommand::Pause, SoundCommand::Resume])
            == engine_run(m, seq![SoundCommand::Pause, SoundCommand::Resume]),
{
    reveal_with_fuel(engine_run, 4);
    assert(engine_run(
        m,
        seq![SoundCommand::Pause, SoundCommand::Pause, SoundCommand::Resume],
    ).queue =~= engine_run(m, seq![SoundCommand::Pause, SoundCommand::Resume]).queue);
}

/// The views of a row of pending requests.
pub open spec fn views_of(s: Seq<PlaySoundCommand>) -> Seq<ReqModel> {
    s.map_values(|r: PlaySoundCommand| r@)
}

/// The arbitration order as a relation value, for [`sorted_by`].
pub open spec fn req_le_fn() -> spec_fn(ReqModel, ReqModel) -> bool {
    |a: ReqModel, b: ReqModel| req_le(a, b)
}

/// Mapping a row of requests to its views commutes with removing an entry.
proof fn lemma_views_remove(s: Seq<PlaySoundCommand>, i: int)
    requires
        0 <= i < s.len(),
    ensures
        views_of(s.remove(i)) =~= views_of(s).remove(i),
{
}

/// Mapping a row of requests to its views commutes with inserting an entry.
proof fn lemma_views_insert(s: Seq<PlaySoundCommand>, i: int, x: PlaySoundCommand)
    requires
        0 <= i <= s.len(),
    ensures
        views_of(s.insert(i, x)) =~= views_of(s).insert(i, x@),
{
}

/// An element that fits between a sorted sequence's two halves keeps the
/// sequence sorted when inserted there.
proof fn lemma_sorted_insert(s: Seq<ReqModel>, j: int, x: ReqModel)
    requires
        sorted_by(s, req_le_fn()),
        0 <= j <= s.len(),
        forall|k: int| 0 <= k < j ==> req_le(#[trigger] s[k], x),
        forall|k: int| j <= k < s.len() ==> req_le(x, #[trigger] s[k]),
    ensures
        sorted_by(s.insert(j, x), req_le_fn()),
{
    let t = s.insert(j, x);
    assert forall|a: int, b: int| 0 <= a < b < t.len() implies #[trigger] req_le_fn()(
        t[a],
        t[b],
    ) by {
        s.insert_ensures(j, x);
        if a < j && b < j {
            assert(req_le_fn()(s[a], s[b]));
        } else if a > j && b > j {
            assert(req_le_fn()(s[a - 1], s[b - 1]));
        } else if a < j && b > j {
            assert(req_le_fn()(s[a], s[b - 1]));
        }
    }
}

/// Sort pending requests into the arbitration order: afterwards the row is
/// ordered by [`req_le`] and holds exactly the requests that went in.
/// Requests that the order ties (equal priority, equal or absent deadlines)
/// may come out in any order.
pub fn sort_requests(queue: &mut Vec<PlaySoundCommand>)
    ensures
        sorted_by(views_of(final(queue)@), req_le_fn()),
        views_of(final(queue)@).to_multiset() == views_of(old(queue)@).to_multiset(),
{
    broadcast use group_to_multiset_ensures;

    let mut sorted_vec: Vec<PlaySoundCommand> = Vec::new();
    proof {
        assert(views_of(sorted_vec@) =~= Seq::<ReqModel>::empty());
        assert(views_of(sorted_vec@).to_multiset().add(views_of(queue@).to_multiset()) =~= views_of(
            queue@,
        ).to_multiset());
    }
    while queue.len() > 0
        invariant
            sorted_by(views_of(sorted_vec@), req_le_fn()),
            views_of(sorted_vec@).to_multiset().add(views_of(queue@).to_multiset()) == views_of(
                old(queue)@,
            ).to_multiset(),
        decreases queue.len(),
    {
        let ghost q_pre: Seq<PlaySoundCommand> = queue@;
        let x = queue.remove(0);
        let ghost g = x;
        proof {
            lemma_views_remove(q_pre, 0);
            assert(views_of(q_pre)[0] == g@);
        }
        let ghost sv0 = views_of(sorted_vec@);
        let mut j: usize = 0;
        while j < sorted_vec.len() && sorted_vec[j].plays_no_later_than(&x)
            invariant
                j <= sorted_vec.len(),
                g == x,
                sv0 == views_of(sorted_vec@),
                forall|k: int| 0 <= k < j ==> req_le(#[trigger] sv0[k], g@),
            decreases sorted_vec.len() - j,
        {
            proof {
                assert(sv0[j as int] == sorted_vec@[j as int]@);
            }
            j = j + 1;
        }
        proof {
            assert forall|k: int| j <= k < sv0.len() implies req_le(g@, #[trigger] sv0[k]) by {
                crate::handle::lemma_req_le_total(sv0[j as int], g@);
                if k > j {
                    assert(req_le_fn()(sv0[j as int], sv0[k]));
                    crate::handle::lemma_req_le_transitive(g@, sv0[j as int], sv0[k]);
                }
            }
            lemma_sorted_insert(sv0, j as int, g@);
        }
        let ghost sv_pre: Seq<PlaySoundCommand> = sorted_vec@;
        sorted_vec.insert(j, x);
        proof {
            lemma_views_insert(sv_pre, j as int, g);
            assert(views_of(sorted_vec@) =~= sv0.insert(j as int, g@));
            vstd::seq_lib::to_multiset_insert(sv0, j as int, g@);
            assert(views_of(sorted_vec@).to_multiset() == sv0.to_multiset().insert(g@));
            vstd::seq_lib::to_multiset_remove(views_of(q_pre), 0);
            assert(views_of(queue@).to_multiset() == views_of(q_pre).to_multiset().remove(g@));
            views_of(q_pre).to_multiset_ensures();
            assert(views_of(q_pre).contains(g@)) by {
                assert(views_of(q_pre)[0] == g@);
            }
            assert(views_of(q_pre).to_multiset().count(g@) > 0);
            assert(views_of(sorted_vec@).to_multiset().add(views_of(queue@).to_multiset())
                =~= views_of(old(queue)@).to_multiset());
        }
    }
    proof {
        assert(views_of(queue@).to_multiset() =~= Multiset::<ReqModel>::empty());
        assert(views_of(sorted_vec@).to_multiset() =~= views_of(old(queue)@).to_multiset());
    }
    *queue = sorted_vec;
}

/// One selection's effect on the pending pool: `chosen` and the `dropped`
/// requests left `before`, every dropped request was expired at `now`, and
/// `after` is what remains pending.
pub open spec fn removed_expired(
    before: Multiset<ReqModel>,
    after: Multiset<ReqModel>,
    chosen: ReqModel,
    dropped: Seq<ReqModel>,
    now: u64,
) -> bool {
    &&& before == dropped.to_multiset().insert(chosen).add(after)
    &&& (forall|i: int| 0 <= i < dropped.len() ==> expired(#[trigger] dropped[i], now))
}

/// Ordering law: repeated selection yields the arbitration order.  If
/// `first` came out of `pool` playing no later than every other non-expired
/// pending request — which is what [`OrbSoundSystem::next_sound`] ensures —
/// and `second` is any non-expired request still pending after that call,
/// then `first` plays no later than `second`.  Applied along a run of
/// selections with nothing expired, the results come out sorted by
/// [`req_le`]: exactly the arbitration order.
pub proof fn lemma_selection_in_order(
    pool: Multiset<ReqModel>,
    first: ReqModel,
    rest: Multiset<ReqModel>,
    second: ReqModel,
    now: u64,
)
    requires
        pool == rest.insert(first),
        rest.contains(second),
        !expired(second, now),
        forall|q: ReqModel| #![auto] pool.contains(q) && !expired(q, now) ==> req_le(first, q),
    ensures
        req_le(first, second),
{
    assert(pool.contains(second));
}

/// With no expired request in the pool, a selection removes exactly the
/// chosen request: nothing else is discarded.
pub proof fn lemma_no_expiry_selection_exact(
    before: Multiset<ReqModel>,
    after: Multiset<ReqModel>,
    chosen: ReqModel,
    dropped: Seq<ReqModel>,
    now: u64,
)
    requires
        removed_expired(before, after, chosen, dropped, now),
        forall|q: ReqModel| #![auto] before.contains(q) ==> !expired(q, now),
    ensures
        dropped.len() == 0,
        before == after.insert(chosen),
{
    dropped.to_multiset_ensures();
    if dropped.len() > 0 {
        assert(dropped.contains(dropped[0]));
        assert(dropped.to_multiset().count(dropped[0]) > 0);
        assert(before.contains(dropped[0]));
        assert(expired(dropped[0], now));
        assert(false);
    }
    assert(dropped.to_multiset() =~= Multiset::<ReqModel>::empty());
    assert(before =~= after.insert(chosen));
}

/// Priority dominance at selection time: whatever request the arbiter picks
/// from a pool that still holds a non-expired `Urgent` request is itself
/// `Urgent`.  In particular a `High` request with an earlier deadline is
/// never chosen ahead of a pending `Urgent` one.
pub proof fn lemma_urgent_selected_first(
    pool: Multiset<ReqModel>,
    chosen: ReqModel,
    urgent: ReqModel,
    now: u64,
)
    requires
        pool.contains(urgent),
        !expired(urgent, now),
        urgent.priority == SoundPriority::Urgent,
        forall|q: ReqModel| #![auto] pool.contains(q) && !expired(q, now) ==> req_le(chosen, q),
    ensures
        chosen.priority == SoundPriority::Urgent,
{
    assert(req_le(chosen, urgent));
}

/// Type representing the sound system's engine.  It receives playback
/// commands, tracks the sink's transport state and decides what file should
/// be played next.
pub struct OrbSoundSystem {
    command_receiver: std::sync::mpsc::Receiver<SoundCommand>,
    queue: Vec<PlaySoundCommand>,
    sink: SinkState,
}

impl OrbSoundSystem {
    /// The views of the pending requests, in their current storage order.
    pub closed spec fn queue_model(self) -> Seq<ReqModel> {
        views_of(self.queue@)
    }

    /// The sink transport state the engine currently wants.
    pub closed spec fn sink_model(self) -> SinkState {
        self.sink
    }

    /// The whole engine as the contracts see it.
    pub open spec fn model(self) -> EngineModel {
        EngineModel { queue: self.queue_model(), sink: self.sink_model() }
    }

    /// Whether every handle for this engine is already gone.
    pub closed spec fn disconnected(self) -> bool {
        receiver_disconnected(self.command_receiver)
    }

    /// An engine around the receiving half of a command channel, with no
    /// pending requests and the sink at unity gain, not paused.
    pub fn new(command_receiver: std::sync::mpsc::Receiver<SoundCommand>) -> (s: OrbSoundSystem)
        ensures
            s.model() == (EngineModel { queue: Seq::<ReqModel>::empty(), sink: initial_sink() }),
            s.disconnected() == receiver_disconnected(command_receiver),
    {
        let s = OrbSoundSystem {
            command_receiver,
            queue: Vec::new(),
            sink: SinkState { volume_millis: 1000, paused: false },
        };
        proof {
            assert(s.queue_model() =~= Seq::<ReqModel>::empty());
        }
        s
    }

    /// The volume the engine currently wants, in thousandths of unity gain.
    pub fn volume_millis(&self) -> (v: i64)
        ensures
            v == self.sink_model().volume_millis,
    {
        self.sink.volume_millis
    }

    /// Whether the engine currently wants playback paused.
    pub fn is_paused(&self) -> (p: bool)
        ensures
            p == self.sink_model().paused,
    {
        self.sink.paused
    }

    /// How many requests are pending.
    pub fn pending_len(&self) -> (n: usize)
        ensures
            n == self.queue_model().len(),
    {
        self.queue.len()
    }

    /// What one drain of the command channel may do to the engine: the new
    /// state is the old one run forward over the commands consumed, none of
    /// them a `Shutdown`, at most `bound` many.
    pub open spec fn drained_as(
        pre: EngineModel,
        post: EngineModel,
        cmds: Seq<SoundCommand>,
        bound: int,
    ) -> bool {
        &&& cmds.len() <= bound
        &&& (forall|i: int| 0 <= i < cmds.len() ==> !(#[trigger] cmds[i] is Shutdown))
        &&& post == engine_run(pre, cmds)
    }

    /// Apply one command to the engine: a play request joins the pending
    /// queue, a transport command rewrites the sink state, and `Shutdown`
    /// changes nothing but asks the caller to stop the loop.  The state
    /// change is exactly [`engine_step`].
    pub fn apply_command(&mut self, command: SoundCommand) -> (shutdown: bool)
        ensures
            final(self).model() == engine_step(old(self).model(), command),
            final(self).disconnected() == old(self).disconnected(),
            shutdown == (command is Shutdown),
    {
        match command {
            SoundCommand::PlaySound(req) => {
                let ghost q0 = self.queue@;
                let ghost g = req;
                self.queue.push(req);
                proof {
                    assert(self.queue@ == q0.push(g));
                    assert(views_of(q0.push(g)) =~= views_of(q0).push(g@));
                }
                false
            },
            SoundCommand::SetVolume(v) => {
                self.sink.volume_millis = v;
                false
            },
            SoundCommand::AdjustVolume(d) => {
                self.sink.volume_millis = saturating_plus(self.sink.volume_millis, d);
                false
            },
            SoundCommand::Pause => {
                self.sink.paused = true;
                false
            },
            SoundCommand::Resume => {
                self.sink.paused = false;
                false
            },
            SoundCommand::Shutdown => true,
        }
    }

    /// Process commands coming from the channel, up to `max_commands` of
    /// them, without ever blocking.  Returns `true` if the system should
    /// shut down: either a `Shutdown` command was seen — commands behind it
    /// are left in the channel — or every handle has been dropped.  In
    /// particular, a channel already disconnected when the call starts is
    /// an implicit shutdown.  Returns `false` once the channel is empty or
    /// the budget is spent.
    ///
    /// Whatever arrives, the state change is explained by [`engine_run`]
    /// over the commands consumed before any `Shutdown`, in arrival order;
    /// [`OrbSoundSystem::apply_command`] pins what each one does.
    pub fn process_incoming_commands(&mut self, max_commands: usize) -> (shutdown: bool)
        ensures
            old(self).disconnected() && max_commands > 0 ==> shutdown,
            exists|cmds: Seq<SoundCommand>|
                #[trigger] Self::drained_as(
                    old(self).model(),
                    final(self).model(),
                    cmds,
                    max_commands as int,
                ),
    {
        let ghost m0 = self.model();
        let ghost mut acc: Seq<SoundCommand> = Seq::empty();
        let mut remaining: usize = max_commands;
        while remaining > 0
            invariant
                m0 == old(self).model(),
                acc.len() + remaining <= max_commands,
                forall|i: int| 0 <= i < acc.len() ==> !(#[trigger] acc[i] is Shutdown),
                self.model() == engine_run(m0, acc),
                old(self).disconnected() ==> self.disconnected() && remaining == max_commands,
            decreases remaining,
        {
            match try_recv_on(&mut self.command_receiver) {
                RecvOutcome::Cmd(c) => {
                    let ghost gc = c;
                    if self.apply_command(c) {
                        proof {
                            assert(Self::drained_as(m0, self.model(), acc, max_commands as int));
                        }
                        return true;
                    }
                    proof {
                        lemma_engine_run_snoc(m0, acc, gc);
                        acc = acc.push(gc);
                    }
                    remaining = remaining - 1;
                },
                RecvOutcome::Empty => {
                    proof {
                        assert(Self::drained_as(m0, self.model(), acc, max_commands as int));
                    }
                    return false;
                },
                RecvOutcome::Disconnected => {
                    proof {
                        assert(Self::drained_as(m0, self.model(), acc, max_commands as int));
                    }
                    return true;
                },
            }
        }
        proof {
            assert(Self::drained_as(m0, self.model(), acc, max_commands as int));
        }
        false
    }

    /// Select and remove the next request to play, or return `None`.
    ///
    /// The queue is sorted by the arbitration order; the front is taken
    /// repeatedly, and a request whose deadline lies before `now` is
    /// discarded silently.  What comes back is therefore never expired, was
    /// pending, and plays no later than any other pending request that is
    /// not expired; everything else removed by the call was expired.  `None`
    /// comes back exactly when every pending request was expired, and the
    /// queue is then empty.  The sink state is untouched.
    pub fn next_sound(&mut self, now: u64) -> (r: Option<PlaySoundCommand>)
        ensures
            final(self).sink_model() == old(self).sink_model(),
            final(self).disconnected() == old(self).disconnected(),
            match r {
                Option::Some(req) => {
                    &&& !expired(req@, now)
                    &&& old(self).queue_model().to_multiset().contains(req@)
                    &&& (forall|q: ReqModel| #![auto]
                        old(self).queue_model().to_multiset().contains(q) && !expired(q, now)
                            ==> req_le(req@, q))
                    &&& exists|dropped: Seq<ReqModel>|
                        #[trigger] removed_expired(
                            old(self).queue_model().to_multiset(),
                            final(self).queue_model().to_multiset(),
                            req@,
                            dropped,
                            now,
                        )
                },
                Option::None => {
                    &&& final(self).queue_model().len() == 0
                    &&& (forall|q: ReqModel| #![auto]
                        old(self).queue_model().to_multiset().contains(q) ==> expired(q, now))
                },
            },
    {
        sort_requests(&mut self.queue);
        let ghost pre_ms = old(self).queue_model().to_multiset();
        let ghost mut dropped: Seq<ReqModel> = Seq::empty();
        proof {
            dropped.to_multiset_ensures();
            assert(dropped.to_multiset().add(views_of(self.queue@).to_multiset()) =~= pre_ms);
        }
        while self.queue.len() > 0
            invariant
                pre_ms == old(self).queue_model().to_multiset(),
                self.sink == old(self).sink,
                self.command_receiver == old(self).command_receiver,
                sorted_by(views_of(self.queue@), req_le_fn()),
                forall|i: int| 0 <= i < dropped.len() ==> expired(#[trigger] dropped[i], now),
                dropped.to_multiset().add(views_of(self.queue@).to_multiset()) == pre_ms,
            decreases self.queue.len(),
        {
            let ghost q_pre: Seq<PlaySoundCommand> = self.queue@;
            let req = self.queue.remove(0);
            let ghost g = req;
            proof {
                lemma_views_remove(q_pre, 0);
                vstd::seq_lib::to_multiset_remove(views_of(q_pre), 0);
                views_of(q_pre).to_multiset_ensures();
                assert(views_of(q_pre)[0] == g@);
                assert(views_of(q_pre).contains(g@));
                assert(views_of(self.queue@).to_multiset() == views_of(
                    q_pre,
                ).to_multiset().remove(g@));
            }
            if req.is_expired(now) {
                proof {
                    dropped.to_multiset_ensures();
                    dropped = dropped.push(g@);
                    assert(dropped.to_multiset().add(views_of(self.queue@).to_multiset())
                        =~= pre_ms);
                }
            } else {
                proof {
                    assert(pre_ms.contains(g@));
                    assert forall|q: ReqModel|
                        pre_ms.contains(q) && !expired(q, now) implies req_le(g@, q) by {
                        if dropped.to_multiset().contains(q) {
                            dropped.to_multiset_ensures();
                            assert(dropped.contains(q));
                            let i = choose|i: int| 0 <= i < dropped.len() && dropped[i] == q;
                            assert(expired(dropped[i], now));
                        } else {
                            assert(views_of(q_pre).to_multiset().contains(q));
                            assert(views_of(q_pre).contains(q));
                            let k = choose|k: int|
                                0 <= k < views_of(q_pre).len() && views_of(q_pre)[k] == q;
                            if k == 0 {
                                crate::handle::lemma_req_le_total(g@, g@);
                            } else {
                                assert(req_le_fn()(views_of(q_pre)[0], views_of(q_pre)[k]));
                            }
                        }
                    }
                    assert(pre_ms =~= dropped.to_multiset().insert(g@).add(
                        views_of(self.queue@).to_multiset(),
                    ));
                    assert(pre_ms == old(self).queue_model().to_multiset());
                    assert(old(self).queue_model().to_multiset().contains(g@));
                    assert(forall|q: ReqModel| #![auto]
                        old(self).queue_model().to_multiset().contains(q) && !expired(q, now)
                            ==> req_le(g@, q));
                    assert(removed_expired(
                        old(self).queue_model().to_multiset(),
                        self.queue_model().to_multiset(),
                        g@,
                        dropped,
                        now,
                    ));
                }
                return Option::Some(req);
            }
        }
        proof {
            assert(views_of(self.queue@) =~= Seq::<ReqModel>::empty());
            views_of(self.queue@).to_multiset_ensures();
            assert(views_of(self.queue@).to_multiset() =~= Multiset::<ReqModel>::empty());
            assert forall|q: ReqModel| pre_ms.contains(q) implies expired(q, now) by {
                assert(dropped.to_multiset().contains(q));
                dropped.to_multiset_ensures();
                assert(dropped.contains(q));
                let i = choose|i: int| 0 <= i < dropped.len() && dropped[i] == q;
                assert(expired(dropped[i], now));
            }
        }
        Option::None
    }
}

} // verus!
