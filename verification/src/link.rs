//! Timeout-bounded wait for address acquisition.
//!
//! After a successful association the network stack acquires an address
//! on its own.  [`TimeoutBudget`] keeps the timing bookkeeping of the
//! wait: a total timeout, a poll interval, and a log interval for
//! periodic progress notices.  [`TimeoutBudget::poll_step`] decides,
//! from one observed [`LinkState`], whether the wait is over, timed
//! out, or continues (and whether a progress notice is due now).
//! [`wait_for_address`] runs the whole wait over a sequence of observed
//! link states, as an embedding runs it over live observations.

use vstd::prelude::*;
use vstd::arithmetic::div_mod::lemma_fundamental_div_mod;
use vstd::arithmetic::div_mod::lemma_remainder;
use crate::errors::LinkError;

verus! {

/// An IPv4 address, as four octets.
#[derive(Clone, Copy, PartialEq, Eq, Structural, Debug)]
pub struct Address {
    pub a: u8,
    pub b: u8,
    pub c: u8,
    pub d: u8,
}

impl Address {
    pub fn new(a: u8, b: u8, c: u8, d: u8) -> (r: Address)
        ensures
            r == (Address { a, b, c, d }),
    {
        Address { a, b, c, d }
    }
}

/// What the network stack reports about address assignment.
/// Owned by the stack; the wait only ever queries it.
#[derive(Clone, Copy, PartialEq, Eq, Structural, Debug)]
pub enum LinkState {
    /// No link yet.
    Down,
    /// Link present, no address assigned yet.
    Acquiring,
    /// An address is assigned.
    Up(Address),
}

/// The timing bookkeeping of one address-acquisition wait.
///
/// `elapsed` only grows, in steps of `poll_interval`, and stays below
/// `total_timeout + poll_interval`; `last_log_time` trails `elapsed`.
pub struct TimeoutBudget {
    /// The wait gives up once `elapsed` reaches this many milliseconds.
    pub total_timeout: u64,
    /// Milliseconds between two observations of the link state.
    pub poll_interval: u64,
    /// Minimum milliseconds between two progress notices.
    pub log_interval: u64,
    /// Milliseconds waited so far.
    pub elapsed: u64,
    /// The `elapsed` value at which the last progress notice was due.
    pub last_log_time: u64,
}

/// What one observation of the link state leads to.
#[derive(Clone, Copy, PartialEq, Eq, Structural, Debug)]
pub enum PollStep {
    /// An address is assigned: the wait returns it at once.
    AddressUp { address: Address },
    /// The total timeout has passed without an address.
    TimedOut,
    /// Keep waiting: suspend for one poll interval, and emit a progress
    /// notice first when `notice_due` says so.
    Continue { notice_due: bool },
}

impl TimeoutBudget {
    /// The bookkeeping invariant of a live wait.
    pub open spec fn wf(self) -> bool {
        &&& 1 <= self.poll_interval
        &&& self.total_timeout + self.poll_interval <= u64::MAX
        &&& self.last_log_time <= self.elapsed
        &&& self.elapsed < self.total_timeout + self.poll_interval
    }

    /// Builds a fresh budget.  A zero poll interval would keep the wait
    /// from ever reaching the timeout, so it is rejected here, at
    /// configuration time; so is a total that the elapsed counter could
    /// not step past.
    pub fn new(total_timeout: u64, poll_interval: u64, log_interval: u64) -> (r: Option<TimeoutBudget>)
        ensures
            r is Some <==> (1 <= poll_interval && total_timeout + poll_interval <= u64::MAX),
            r matches Some(b) ==> b == (TimeoutBudget {
                total_timeout,
                poll_interval,
                log_interval,
                elapsed: 0,
                last_log_time: 0,
            }),
            r matches Some(b) ==> b.wf(),
    {
        if poll_interval >= 1 && total_timeout <= u64::MAX - poll_interval {
            Some(TimeoutBudget {
                total_timeout,
                poll_interval,
                log_interval,
                elapsed: 0,
                last_log_time: 0,
            })
        } else {
            None
        }
    }

    /// One iteration of the wait, given the link state observed now.
    ///
    /// The observed state is checked first, so an assigned address wins
    /// even when the budget is already spent.  Otherwise the wait times
    /// out once `elapsed` has reached the total, emits a progress
    /// notice when a full log interval has passed since the last one,
    /// and books one poll interval of waiting.
    pub fn poll_step(&mut self, state: LinkState) -> (r: PollStep)
        requires
            old(self).wf(),
        ensures
            final(self).wf(),
            final(self).total_timeout == old(self).total_timeout,
            final(self).poll_interval == old(self).poll_interval,
            final(self).log_interval == old(self).log_interval,
            old(self).elapsed <= final(self).elapsed,
            state matches LinkState::Up(address) ==> r == (PollStep::AddressUp { address }) && *final(self) == *old(self),
            !(state is Up) && old(self).elapsed >= old(self).total_timeout ==> r == PollStep::TimedOut && *final(self) == *old(self),
            !(state is Up) && old(self).elapsed < old(self).total_timeout ==> ({
                let due = old(self).elapsed - old(self).last_log_time >= old(self).log_interval;
                &&& r == (PollStep::Continue { notice_due: due })
                &&& final(self).elapsed == old(self).elapsed + old(self).poll_interval
                &&& final(self).last_log_time == (if due { old(self).elapsed } else { old(self).last_log_time })
            }),
    {
        match state {
            LinkState::Up(address) => PollStep::AddressUp { address },
            _ => {
                if self.elapsed >= self.total_timeout {
                    PollStep::TimedOut
                } else {
                    let notice_due = self.elapsed - self.last_log_time >= self.log_interval;
                    if notice_due {
                        self.last_log_time = self.elapsed;
                    }
                    self.elapsed = self.elapsed + self.poll_interval;
                    PollStep::Continue { notice_due }
                }
            }
        }
    }
}

/// The number of polls after which the wait gives up: the least `n`
/// with `n * poll_interval >= total_timeout`.
pub open spec fn max_polls(total_timeout: u64, poll_interval: u64) -> int
    recommends
        1 <= poll_interval,
{
    if total_timeout as int % poll_interval as int == 0 {
        total_timeout as int / poll_interval as int
    } else {
        total_timeout as int / poll_interval as int + 1
    }
}

/// Facts about the poll count at which the wait gives up.
pub proof fn lemma_max_polls(total_timeout: u64, poll_interval: u64)
    requires
        1 <= poll_interval,
    ensures
        0 <= max_polls(total_timeout, poll_interval),
        total_timeout <= max_polls(total_timeout, poll_interval) * poll_interval,
        total_timeout > 0 ==> (max_polls(total_timeout, poll_interval) - 1) * poll_interval < total_timeout,
{
    let t = total_timeout as int;
    let p = poll_interval as int;
    let q = t / p;
    let rem = t % p;
    lemma_fundamental_div_mod(t, p);
    lemma_remainder(t, p);
    assert(rem == t - q * p) by (nonlinear_arith)
        requires t == p * q + rem;
    if rem == 0 {
        assert(q * p == t);
        assert(q >= 0) by (nonlinear_arith)
            requires q * p == t, t >= 0, p >= 1;
        if total_timeout > 0 {
            assert((q - 1) * p < t) by (nonlinear_arith)
                requires q * p == t, p >= 1;
        }
    } else {
        assert(q >= 0) by (nonlinear_arith)
            requires t == p * q + rem, t >= 0, 0 <= rem < p, p >= 1;
        assert((q + 1) * p >= t && q * p < t) by (nonlinear_arith)
            requires t == p * q + rem, 0 < rem < p;
    }
}

/// The wait gives up after `max_polls` observations exactly: an
/// observation index that steps past the total for the first time is
/// that count.
pub proof fn lemma_polls_exact(total_timeout: u64, poll_interval: u64, i: int)
    requires
        1 <= poll_interval,
        0 <= i,
        total_timeout <= i * poll_interval,
        i == 0 || (i - 1) * poll_interval < total_timeout,
    ensures
        i == max_polls(total_timeout, poll_interval),
{
    let m = max_polls(total_timeout, poll_interval);
    lemma_max_polls(total_timeout, poll_interval);
    if total_timeout == 0 {
        let t = total_timeout as int;
        let p = poll_interval as int;
        let q = t / p;
        let rem = t % p;
        lemma_fundamental_div_mod(t, p);
        lemma_remainder(t, p);
        assert(rem == t - q * p) by (nonlinear_arith)
            requires t == p * q + rem;
        assert(q == 0 && rem == 0) by (nonlinear_arith)
            requires t == p * q + rem, 0 <= rem < p, t == 0, p >= 1;
        assert(m == 0);
        assert(i == 0);
    } else {
        assert(i >= 1);
        assert(i <= m) by (nonlinear_arith)
            requires
                (i - 1) * poll_interval < total_timeout,
                total_timeout <= m * poll_interval,
                1 <= poll_interval,
                0 <= m;
        assert(m <= i) by (nonlinear_arith)
            requires
                (m - 1) * poll_interval < total_timeout,
                total_timeout <= i * poll_interval,
                1 <= poll_interval,
                0 <= i;
    }
}

/// An observation made strictly inside the total leaves at least one
/// more observation before the wait gives up.
proof fn lemma_poll_continues(total_timeout: u64, poll_interval: u64, i: int)
    requires
        1 <= poll_interval,
        0 <= i,
        i * poll_interval < total_timeout,
    ensures
        i + 1 <= max_polls(total_timeout, poll_interval),
        (i + 1) * poll_interval == i * poll_interval + poll_interval,
{
    let m = max_polls(total_timeout, poll_interval);
    lemma_max_polls(total_timeout, poll_interval);
    assert(i < m) by (nonlinear_arith)
        requires
            i * poll_interval < total_timeout,
            total_timeout <= m * poll_interval,
            1 <= poll_interval,
            0 <= i;
    assert((i + 1) * poll_interval == i * poll_interval + poll_interval) by (nonlinear_arith);
}

/// No observation among the first `k` reported an assigned address.
pub open spec fn no_up_before(states: Seq<LinkState>, k: int) -> bool {
    forall|i: int| 0 <= i < k ==> !((#[trigger] states[i]) is Up)
}

/// The `elapsed` values at which a wait of `polls` continue-steps was
/// due to emit a progress notice: a notice fires at an observation when
/// a full log interval has passed since the previous notice (or since
/// the start of the wait).
pub open spec fn notice_schedule(polls: int, poll_interval: u64, log_interval: u64) -> Seq<u64>
    decreases polls,
{
    if polls <= 0 {
        seq![]
    } else {
        let earlier = notice_schedule(polls - 1, poll_interval, log_interval);
        let at = ((polls - 1) * poll_interval) as u64;
        let since = if earlier.len() == 0 { 0u64 } else { earlier.last() };
        if at >= since + log_interval {
            earlier.push(at)
        } else {
            earlier
        }
    }
}

/// Law: progress notices are spaced at least one log interval apart,
/// the first comes no earlier than one log interval into the wait,
/// every notice falls inside the polled span, and `n` notices reach at
/// least `n` log intervals of elapsed time.
pub proof fn lemma_notice_schedule_spacing(polls: int, poll_interval: u64, log_interval: u64)
    requires
        0 <= polls,
        1 <= poll_interval,
        (polls - 1) * poll_interval <= u64::MAX,
    ensures
        ({
            let s = notice_schedule(polls, poll_interval, log_interval);
            &&& forall|j: int| 0 <= j < s.len() ==> log_interval <= #[trigger] s[j]
            &&& forall|j: int| 1 <= j < s.len() ==> s[j - 1] + log_interval <= #[trigger] s[j]
            &&& forall|j: int| 0 <= j < s.len() ==> #[trigger] s[j] <= (polls - 1) * poll_interval
            &&& s.len() * log_interval <= (if s.len() == 0 { 0int } else { s.last() as int })
        }),
    decreases polls,
{
    if polls > 0 {
        assert((polls - 2) * poll_interval <= (polls - 1) * poll_interval) by (nonlinear_arith)
            requires 1 <= poll_interval;
        lemma_notice_schedule_spacing(polls - 1, poll_interval, log_interval);
        let earlier = notice_schedule(polls - 1, poll_interval, log_interval);
        let s = notice_schedule(polls, poll_interval, log_interval);
        let at = ((polls - 1) * poll_interval) as u64;
        assert(at == (polls - 1) * poll_interval);
        let since = if earlier.len() == 0 { 0u64 } else { earlier.last() };
        if at >= since + log_interval {
            assert(s == earlier.push(at));
            assert(s.len() * log_interval <= s.last() as int) by {
                if earlier.len() == 0 {
                    assert(s.len() * log_interval == log_interval) by (nonlinear_arith)
                        requires s.len() == 1;
                } else {
                    assert(earlier.len() * log_interval + log_interval == s.len() * log_interval) by (nonlinear_arith)
                        requires s.len() == earlier.len() + 1;
                }
            }
        }
    }
}

/// What one whole address-acquisition wait produced.
pub struct WaitOutcome {
    /// The assigned address, or the timeout.
    pub result: Result<Address, LinkError>,
    /// Milliseconds waited in all.
    pub elapsed: u64,
    /// The `elapsed` values at which progress notices were emitted.
    pub notice_times: Vec<u64>,
}

/// Runs one whole wait over the link states observed at each poll.
///
/// Observation `k` is made after `k` poll intervals of waiting; the
/// wait returns the address of the first observation that reports one
/// — even on the last observation, when the budget is already spent —
/// and otherwise times out once `elapsed` reaches the total.  An
/// embedding that performs live observations drives
/// [`TimeoutBudget::poll_step`] through exactly the same steps.
pub fn wait_for_address(
    states: &Vec<LinkState>,
    total_timeout: u64,
    poll_interval: u64,
    log_interval: u64,
) -> (r: WaitOutcome)
    requires
        1 <= poll_interval,
        total_timeout + poll_interval <= u64::MAX,
        max_polls(total_timeout, poll_interval) < states@.len(),
    ensures
        forall|k: int|
            0 <= k <= max_polls(total_timeout, poll_interval)
                && (#[trigger] states@[k]) is Up
                && no_up_before(states@, k)
            ==> r.result == Ok::<Address, LinkError>(states@[k]->0)
                && r.elapsed == k * poll_interval
                && r.notice_times@ == notice_schedule(k, poll_interval, log_interval),
        no_up_before(states@, max_polls(total_timeout, poll_interval) + 1)
            ==> r.result == Err::<Address, LinkError>(LinkError::Timeout)
                && r.elapsed == max_polls(total_timeout, poll_interval) * poll_interval
                && total_timeout <= r.elapsed
                && r.notice_times@ == notice_schedule(
                    max_polls(total_timeout, poll_interval),
                    poll_interval,
                    log_interval,
                ),
{
    let ghost m = max_polls(total_timeout, poll_interval);
    proof {
        lemma_max_polls(total_timeout, poll_interval);
    }
    let mut budget = TimeoutBudget {
        total_timeout,
        poll_interval,
        log_interval,
        elapsed: 0,
        last_log_time: 0,
    };
    let mut notice_times: Vec<u64> = Vec::new();
    let mut i: usize = 0;
    let n = states.len();
    loop
        invariant
            1 <= poll_interval,
            total_timeout + poll_interval <= u64::MAX,
            m == max_polls(total_timeout, poll_interval),
            m < states@.len(),
            n == states@.len(),
            budget.total_timeout == total_timeout,
            budget.poll_interval == poll_interval,
            budget.log_interval == log_interval,
            budget.wf(),
            0 <= i as int <= m,
            budget.elapsed == i as int * poll_interval,
            i as int >= 1 ==> (i as int - 1) * poll_interval < total_timeout,
            no_up_before(states@, i as int),
            notice_times@ == notice_schedule(i as int, poll_interval, log_interval),
            budget.last_log_time == (if notice_times@.len() == 0 { 0u64 } else { notice_times@.last() }),
        decreases m - i as int,
    {
        let state = states[i];
        let at: u64 = budget.elapsed;
        let step = budget.poll_step(state);
        match step {
            PollStep::AddressUp { address } => {
                proof {
                    assert(states@[i as int] is Up);
                }
                return WaitOutcome { result: Ok(address), elapsed: budget.elapsed, notice_times };
            }
            PollStep::TimedOut => {
                proof {
                    lemma_polls_exact(total_timeout, poll_interval, i as int);
                    assert(!(states@[i as int] is Up));
                    assert(no_up_before(states@, i as int + 1));
                }
                return WaitOutcome {
                    result: Err(LinkError::Timeout),
                    elapsed: budget.elapsed,
                    notice_times,
                };
            }
            PollStep::Continue { notice_due } => {
                if notice_due {
                    notice_times.push(at);
                }
                proof {
                    lemma_poll_continues(total_timeout, poll_interval, i as int);
                    assert(!(states@[i as int] is Up));
                    assert(no_up_before(states@, i as int + 1));
                    assert(notice_times@ == notice_schedule(i as int + 1, poll_interval, log_interval));
                }
                i = i + 1;
            }
        }
    }
}

} // verus!
