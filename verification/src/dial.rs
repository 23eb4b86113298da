//! Getting a link to a host, whichever way one turns up first.
//!
//! Two things can happen and nothing predicts which: the Mac notices us and
//! opens the channels, or nobody comes and we have to knock. After a Pi reboot
//! the Mac generally does *not* reconnect on its own -- a real keyboard is
//! expected to announce itself -- so waiting passively would leave a keyboard
//! that only works if you go and click Connect.
use vstd::prelude::*;

verus! {

/// Seconds to wait after the first round of knocking.
pub const FIRST_DELAY: u64 = 2;

/// Seconds to wait between rounds at most: a Mac that is asleep or out of range
/// will refuse for a long time, and hammering it drains the Pi and clogs the
/// radio that WiFi needs too.
pub const MAX_DELAY: u64 = 30;

/// How to wait for a host.
#[derive(Debug, Clone, Copy, PartialEq, Eq, Structural)]
pub enum WaitPlan {
    /// Only wait for a host to open the channels.
    Accept,
    /// Wait for a host to open the channels and knock on the pinned ones, and
    /// take whichever comes first.
    AcceptOrDial,
}

impl WaitPlan {
    /// The plan for so many pinned hosts: with none we never knock.
    pub fn for_hosts(hosts: usize) -> (r: WaitPlan)
        ensures
            hosts == 0 ==> r == WaitPlan::Accept,
            hosts > 0 ==> r == WaitPlan::AcceptOrDial,
    {
        if hosts == 0 {
            return WaitPlan::Accept;
        }
        WaitPlan::AcceptOrDial
    }
}

/// One move of the knocking.
#[derive(Debug, Clone, Copy, PartialEq, Eq, Structural)]
pub enum DialAction {
    /// Knock on the pinned host with this index.
    Dial(usize),
    /// Sleep for so many seconds.
    Sleep(u64),
}

/// Where the knocking is: how many hosts are pinned, which one is next (their
/// number when the round is over), and how long to sleep after this round.
pub struct Knocking {
    pub hosts: usize,
    pub position: usize,
    pub delay: u64,
}

impl Knocking {
    /// Before the first knock.
    pub open spec fn start(hosts: usize) -> Knocking {
        Knocking { hosts, position: 0, delay: FIRST_DELAY }
    }

    /// The move that is due.
    pub open spec fn due(self) -> DialAction {
        if self.position < self.hosts {
            DialAction::Dial(self.position)
        } else {
            DialAction::Sleep(self.delay)
        }
    }

    /// After the move that is due: the next host, or a new round with twice the
    /// delay, up to the maximum.
    pub open spec fn moved(self) -> Knocking {
        if self.position < self.hosts {
            Knocking { position: (self.position + 1) as usize, ..self }
        } else {
            let delay = if 2 * self.delay < MAX_DELAY {
                (2 * self.delay) as u64
            } else {
                MAX_DELAY
            };
            Knocking { position: 0, delay, ..self }
        }
    }

    /// After `moves` moves.
    pub open spec fn moved_times(self, moves: nat) -> Knocking
        decreases moves,
    {
        if moves == 0 {
            self
        } else {
            self.moved_times((moves - 1) as nat).moved()
        }
    }
}

/// Knocks on every pinned host until one lets us in, round after round.
#[derive(Debug)]
pub struct Dialler {
    hosts: usize,
    position: usize,
    delay: u64,
}

impl View for Dialler {
    type V = Knocking;

    closed spec fn view(&self) -> Knocking {
        Knocking { hosts: self.hosts, position: self.position, delay: self.delay }
    }
}

impl Dialler {
    #[verifier::type_invariant]
    closed spec fn delay_is_bounded(&self) -> bool {
        self.delay <= MAX_DELAY
    }

    /// Knocking on so many hosts.
    pub fn new(hosts: usize) -> (r: Dialler)
        ensures
            r@ == Knocking::start(hosts),
    {
        Dialler { hosts, position: 0, delay: FIRST_DELAY }
    }

    /// The next move. Ask for the first one to begin with, and for another one
    /// whenever a host refused or a sleep is over.
    pub fn next(&mut self) -> (action: DialAction)
        ensures
            action == old(self)@.due(),
            final(self)@ == old(self)@.moved(),
    {
        proof {
            use_type_invariant(&*self);
        }
        if self.position < self.hosts {
            let host: usize = self.position;
            self.position = host + 1;
            return DialAction::Dial(host);
        }
        let delay: u64 = self.delay;
        self.position = 0;
        self.delay = if 2 * delay < MAX_DELAY {
            2 * delay
        } else {
            MAX_DELAY
        };
        DialAction::Sleep(delay)
    }
}

/// Seconds to sleep after a round, counting rounds from 0: twice as long each
/// time, and no longer than the maximum.
pub open spec fn backoff(round: nat) -> u64 {
    if round == 0 {
        2
    } else if round == 1 {
        4
    } else if round == 2 {
        8
    } else if round == 3 {
        16
    } else {
        30
    }
}

/// The knocking goes round by round: in each round every pinned host is dialled
/// once, in order, and then comes one sleep, of 2 seconds after the first round
/// and doubling up to 30.
pub proof fn lemma_rounds_of_knocking(hosts: usize, round: nat, i: nat)
    requires
        i <= hosts,
    ensures
        ({
            let now = Knocking::start(hosts).moved_times(round * (hosts as nat + 1) + i);
            &&& now == Knocking { hosts, position: i as usize, delay: backoff(round) }
            &&& i < hosts ==> now.due() == DialAction::Dial(i as usize)
            &&& i == hosts ==> now.due() == DialAction::Sleep(backoff(round))
        }),
    decreases round, i,
{
    let width = hosts as nat + 1;
    let moves = round * width + i;
    if i > 0 {
        lemma_rounds_of_knocking(hosts, round, (i - 1) as nat);
        assert((moves - 1) as nat == round * width + (i - 1) as nat);
    } else if round > 0 {
        lemma_rounds_of_knocking(hosts, (round - 1) as nat, hosts as nat);
        assert(round * width == (round - 1) * width + width) by (nonlinear_arith)
            requires
                round > 0,
        ;
        assert((moves - 1) as nat == (round - 1) as nat * width + hosts as nat);
    } else {
        assert(round * width == 0) by (nonlinear_arith)
            requires
                round == 0,
        ;
    }
}

/// However long the knocking goes on, only pinned hosts are dialled, and every
/// sleep is between 2 and 30 seconds.
pub proof fn lemma_only_pinned_hosts_are_dialled(hosts: usize, moves: nat)
    ensures
        Knocking::start(hosts).moved_times(moves).due() matches DialAction::Dial(i) ==> i < hosts,
        Knocking::start(hosts).moved_times(moves).due() matches DialAction::Sleep(delay)
            ==> FIRST_DELAY <= delay <= MAX_DELAY,
        Knocking::start(hosts).moved_times(moves).hosts == hosts,
        FIRST_DELAY <= Knocking::start(hosts).moved_times(moves).delay <= MAX_DELAY,
    decreases moves,
{
    if moves > 0 {
        lemma_only_pinned_hosts_are_dialled(hosts, (moves - 1) as nat);
    }
}

/// The delays: 2 seconds first, and each one twice the one before, or 30 if that
/// is less.
pub proof fn lemma_delays_double_up_to_thirty(round: nat)
    ensures
        backoff(0) == 2,
        2 * backoff(round) <= 30 ==> backoff(round + 1) == 2 * backoff(round),
        2 * backoff(round) > 30 ==> backoff(round + 1) == 30,
{
}

/// One move after another: a host is followed by the next one, or by a sleep if
/// it was the last, and a sleep by the first host, or by another sleep if there
/// is none; the next sleep is twice as long, or 30 seconds if that is less.
pub proof fn lemma_moves_follow_each_other(hosts: usize, moves: nat)
    ensures
        ({
            let now = Knocking::start(hosts).moved_times(moves);
            let next = Knocking::start(hosts).moved_times(moves + 1);
            &&& now.due() matches DialAction::Dial(i) ==> {
                &&& next.delay == now.delay
                &&& i + 1 < hosts ==> next.due() == DialAction::Dial((i + 1) as usize)
                &&& i + 1 == hosts ==> next.due() == DialAction::Sleep(now.delay)
            }
            &&& now.due() matches DialAction::Sleep(delay) ==> {
                &&& delay == now.delay
                &&& next.delay == if 2 * delay <= 30 {
                    2 * delay
                } else {
                    30
                }
                &&& hosts > 0 ==> next.due() == DialAction::Dial(0)
                &&& hosts == 0 ==> next.due() == DialAction::Sleep(next.delay)
            }
        }),
        Knocking::start(hosts).due() == if hosts > 0 {
            DialAction::Dial(0)
        } else {
            DialAction::Sleep(2)
        },
        Knocking::start(hosts).delay == 2,
{
    lemma_only_pinned_hosts_are_dialled(hosts, moves);
    reveal_with_fuel(Knocking::moved_times, 2);
}

/// One move, from anywhere in the knocking: a host that is still to be dialled
/// is dialled, and counts as dialled then; where none is left, the delay is slept
/// and the round begins anew. The number of hosts never changes.
pub proof fn lemma_one_move(knocking: Knocking)
    requires
        knocking.delay <= 30,
    ensures
        knocking.position < knocking.hosts ==> {
            &&& knocking.due() == DialAction::Dial(knocking.position)
            &&& knocking.moved().position == knocking.position + 1
            &&& knocking.moved().delay == knocking.delay
        },
        knocking.position >= knocking.hosts ==> {
            &&& knocking.due() == DialAction::Sleep(knocking.delay)
            &&& knocking.moved().position == 0
            &&& knocking.moved().delay == vstd::math::min(2 * knocking.delay, 30)
        },
        knocking.moved().hosts == knocking.hosts,
{
}

} // verus!
