//! The decisions of `discover`: when to send the WS-Discovery probe, when to
//! listen for replies, and which replying addresses are new.

use vstd::prelude::*;
use vstd::string::StrSliceExecFns;

verus! {

/// How many times the probe is sent.
pub const PROBE_ROUNDS: u32 = 2;

/// How many replies are waited for after each probe.
pub const RECEIVES_PER_PROBE: u32 = 5;

/// Milliseconds to wait for one reply.
pub const RECEIVE_TIMEOUT_MILLIS: u64 = 2000;

/// The multicast address and port that WS-Discovery probes go to.
pub const DISCOVERY_ADDRESS: &'static str = "239.255.255.250:3702";

/// The local address that replies are received on (any interface, any port).
pub const LISTEN_ADDRESS: &'static str = "0.0.0.0:0";

/// The next thing `discover` does.
#[derive(Debug, Clone, Copy, PartialEq, Eq)]
pub enum DiscoveryAction {
    /// Send the probe to the multicast address.
    SendProbe,
    /// Wait up to `RECEIVE_TIMEOUT_MILLIS` for one reply.
    Receive,
    /// Stop listening and report the devices found.
    Finish,
}

/// How far `discover` has come: probes sent, and replies waited for since the
/// last probe.
#[derive(Debug, Clone, Copy)]
pub struct DiscoveryProgress {
    probes_sent: u32,
    receives_done: u32,
}

impl DiscoveryProgress {
    /// Probes sent so far.
    pub closed spec fn probes(self) -> int {
        self.probes_sent as int
    }

    /// Replies waited for since the last probe.
    pub closed spec fn receives_in_round(self) -> int {
        self.receives_done as int
    }

    /// The counters are those of a reachable point of the schedule.
    pub open spec fn wf(self) -> bool {
        &&& 0 <= self.probes() <= PROBE_ROUNDS
        &&& 0 <= self.receives_in_round() <= RECEIVES_PER_PROBE
        &&& self.probes() == 0 ==> self.receives_in_round() == 0
    }

    /// Replies waited for since the start.
    pub open spec fn receives_total(self) -> int {
        if self.probes() == 0 {
            0
        } else {
            (self.probes() - 1) * RECEIVES_PER_PROBE + self.receives_in_round()
        }
    }

    /// Actions left before `Finish`.
    pub open spec fn steps_left(self) -> int {
        (PROBE_ROUNDS - self.probes()) * (RECEIVES_PER_PROBE + 1) + (if self.probes() == 0 {
            0
        } else {
            RECEIVES_PER_PROBE - self.receives_in_round()
        })
    }

    /// The action at this point: listen while the current round has replies
    /// left to wait for, otherwise probe again while rounds remain, otherwise
    /// finish.
    pub open spec fn action(self) -> DiscoveryAction {
        if self.probes() > 0 && self.receives_in_round() < RECEIVES_PER_PROBE {
            DiscoveryAction::Receive
        } else if self.probes() < PROBE_ROUNDS {
            DiscoveryAction::SendProbe
        } else {
            DiscoveryAction::Finish
        }
    }

    /// The start: nothing sent, nothing received.
    pub fn new() -> (p: Self)
        ensures
            p.wf(),
            p.probes() == 0,
            p.receives_total() == 0,
            p.steps_left() == PROBE_ROUNDS * (RECEIVES_PER_PROBE + 1),
    {
        DiscoveryProgress { probes_sent: 0, receives_done: 0 }
    }

    /// The next action.
    pub fn next_action(&self) -> (a: DiscoveryAction)
        requires
            self.wf(),
        ensures
            a == self.action(),
    {
        if self.probes_sent > 0 && self.receives_done < RECEIVES_PER_PROBE {
            DiscoveryAction::Receive
        } else if self.probes_sent < PROBE_ROUNDS {
            DiscoveryAction::SendProbe
        } else {
            DiscoveryAction::Finish
        }
    }

    /// Records that the probe was sent; a new round of replies begins.
    pub fn record_probe(&mut self)
        requires
            old(self).wf(),
            old(self).action() == DiscoveryAction::SendProbe,
        ensures
            final(self).wf(),
            final(self).probes() == old(self).probes() + 1,
            final(self).receives_in_round() == 0,
            final(self).steps_left() == old(self).steps_left() - 1,
    {
        self.probes_sent = self.probes_sent + 1;
        self.receives_done = 0;
    }

    /// Records that one reply was waited for, whether or not one came.
    pub fn record_receive(&mut self)
        requires
            old(self).wf(),
            old(self).action() == DiscoveryAction::Receive,
        ensures
            final(self).wf(),
            final(self).probes() == old(self).probes(),
            final(self).receives_in_round() == old(self).receives_in_round() + 1,
            final(self).receives_total() == old(self).receives_total() + 1,
            final(self).steps_left() == old(self).steps_left() - 1,
    {
        self.receives_done = self.receives_done + 1;
    }
}

/// The schedule of `discover`: at every reachable point the counters stay in
/// bounds and there are steps left exactly until it finishes; when it finishes
/// the probe has been sent `PROBE_ROUNDS` times and `RECEIVES_PER_PROBE`
/// replies have been waited for after each.
pub proof fn lemma_discovery_schedule(p: DiscoveryProgress)
    requires
        p.wf(),
    ensures
        p.steps_left() >= 0,
        p.action() == DiscoveryAction::Finish <==> p.steps_left() == 0,
        p.action() == DiscoveryAction::Finish ==> p.probes() == PROBE_ROUNDS && p.receives_total()
            == PROBE_ROUNDS * RECEIVES_PER_PROBE,
        p.receives_total() <= PROBE_ROUNDS * RECEIVES_PER_PROBE,
{
}

/// The characters of `s`.
pub(crate) fn chars_of(s: &str) -> (chars: Vec<char>)
    ensures
        chars@ == s@,
{
    let n = s.unicode_len();
    let mut chars: Vec<char> = Vec::new();
    let mut i: usize = 0;
    while i < n
        invariant
            n == s@.len(),
            i <= n,
            chars@ == s@.subrange(0, i as int),
        decreases n - i,
    {
        chars.push(s.get_char(i));
        i = i + 1;
        assert(chars@ =~= s@.subrange(0, i as int));
    }
    assert(chars@ =~= s@);
    chars
}

/// Whether `needle` matches `haystack` at position `at`.
pub(crate) fn matches_at(needle: &Vec<char>, haystack: &Vec<char>, at: usize) -> (m: bool)
    requires
        at + needle@.len() <= haystack@.len(),
    ensures
        m == (haystack@.subrange(at as int, at + needle@.len()) == needle@),
{
    let hay_len = haystack.len();
    let mut j: usize = 0;
    while j < needle.len()
        invariant
            hay_len == haystack@.len(),
            at + needle@.len() <= haystack@.len(),
            j <= needle@.len(),
            forall|k: int| 0 <= k < j ==> haystack@[at + k] == needle@[k],
        decreases needle@.len() - j,
    {
        if haystack[at + j] != needle[j] {
            assert(haystack@.subrange(at as int, at + needle@.len())[j as int] != needle@[j as int]);
            return false;
        }
        j = j + 1;
    }
    assert(haystack@.subrange(at as int, at + needle@.len()) =~= needle@);
    true
}

/// The addresses that have replied so far, each kept whole.
pub struct SeenAddresses {
    addrs: Vec<String>,
}

impl View for SeenAddresses {
    type V = Seq<Seq<char>>;

    /// The texts of the addresses seen, in the order they were remembered.
    closed spec fn view(&self) -> Seq<Seq<char>> {
        texts(self.addrs@)
    }
}

impl SeenAddresses {
    /// No address seen yet.
    pub fn new() -> (seen: Self)
        ensures
            seen@ == Seq::<Seq<char>>::empty(),
    {
        let seen = SeenAddresses { addrs: Vec::new() };
        assert(seen@ =~= Seq::<Seq<char>>::empty());
        seen
    }

    /// Whether `addr` is one of the addresses seen, compared whole.
    pub fn contains(&self, addr: &str) -> (seen: bool)
        ensures
            seen == self@.contains(addr@),
    {
        let wanted = addr.to_string();
        let mut i: usize = 0;
        while i < self.addrs.len()
            invariant
                wanted@ == addr@,
                i <= self.addrs@.len(),
                forall|k: int| 0 <= k < i ==> (#[trigger] self.addrs@[k])@ != addr@,
            decreases self.addrs@.len() - i,
        {
            if self.addrs[i] == wanted {
                assert(self@[i as int] == addr@);
                return true;
            }
            i = i + 1;
        }
        proof {
            if self@.contains(addr@) {
                let k = choose|k: int| 0 <= k < self@.len() && self@[k] == addr@;
                assert(self.addrs@[k]@ == addr@);
            }
        }
        false
    }

    /// Adds `addr` to the addresses seen.
    pub fn remember(&mut self, addr: &str)
        ensures
            final(self)@ == old(self)@.push(addr@),
    {
        self.addrs.push(addr.to_string());
        assert(self@ =~= old(self)@.push(addr@));
    }
}

/// An address once remembered is seen from then on, whatever is remembered
/// after it.
pub proof fn lemma_remembered_is_seen(
    seen: Seq<Seq<char>>,
    addr: Seq<char>,
    later: Seq<Seq<char>>,
)
    ensures
        (seen.push(addr) + later).contains(addr),
{
    assert((seen.push(addr) + later)[seen.len() as int] == addr);
}

/// Remembering more never makes a seen address unseen, and an address that
/// was never remembered is never seen.
pub proof fn lemma_seen_is_remembered(seen: Seq<Seq<char>>, addr: Seq<char>, more: Seq<Seq<char>>)
    ensures
        seen.contains(addr) ==> (seen + more).contains(addr),
        (seen + more).contains(addr) <==> seen.contains(addr) || more.contains(addr),
{
    if seen.contains(addr) {
        let k = choose|k: int| 0 <= k < seen.len() && seen[k] == addr;
        assert((seen + more)[k] == addr);
    }
    if more.contains(addr) {
        let k = choose|k: int| 0 <= k < more.len() && more[k] == addr;
        assert((seen + more)[seen.len() + k] == addr);
    }
    if (seen + more).contains(addr) {
        let k = choose|k: int| 0 <= k < (seen + more).len() && (seen + more)[k] == addr;
        if k < seen.len() {
            assert(seen[k] == addr);
        } else {
            assert(more[k - seen.len()] == addr);
        }
    }
}

/// The pieces joined back together, a space between each two.
pub open spec fn joined_by_space(pieces: Seq<Seq<char>>) -> Seq<char>
    decreases pieces.len(),
{
    if pieces.len() == 0 {
        seq![]
    } else if pieces.len() == 1 {
        pieces[0]
    } else {
        joined_by_space(pieces.drop_last()) + seq![' '] + pieces.last()
    }
}

/// The texts of a vector of strings.
pub open spec fn texts(v: Seq<String>) -> Seq<Seq<char>> {
    v.map_values(|p: String| p@)
}

/// The scope list of a discovery reply, split at every space as
/// `str::split(' ')` does: the pieces hold no space, there is at least one,
/// empty ones included, and joined with single spaces they give back `scopes`.
pub fn split_scopes(scopes: &str) -> (pieces: Vec<String>)
    ensures
        pieces@.len() >= 1,
        joined_by_space(texts(pieces@)) == scopes@,
        forall|k: int| 0 <= k < pieces@.len() ==> !(#[trigger] pieces@[k])@.contains(' '),
{
    let n = scopes.unicode_len();
    let mut pieces: Vec<String> = Vec::new();
    let mut start: usize = 0;
    let mut i: usize = 0;
    while i < n
        invariant
            n == scopes@.len(),
            start <= i <= n,
            joined_by_space(texts(pieces@).push(scopes@.subrange(start as int, i as int)))
                == scopes@.subrange(0, i as int),
            forall|k: int| 0 <= k < pieces@.len() ==> !(#[trigger] pieces@[k])@.contains(' '),
            !scopes@.subrange(start as int, i as int).contains(' '),
        decreases n - i,
    {
        let c = scopes.get_char(i);
        if c == ' ' {
            let piece = scopes.substring_char(start, i).to_string();
            let ghost before = texts(pieces@);
            pieces.push(piece);
            proof {
                assert(texts(pieces@) =~= before.push(scopes@.subrange(start as int, i as int)));
                let next = texts(pieces@).push(scopes@.subrange(i + 1, i + 1));
                assert(next.drop_last() =~= texts(pieces@));
                assert(scopes@.subrange(i + 1, i + 1) =~= seq![]);
                assert(scopes@.subrange(0, i + 1) =~= scopes@.subrange(0, i as int) + seq![' ']);
                assert(joined_by_space(next) =~= scopes@.subrange(0, i + 1));
                assert(!scopes@.subrange(i + 1, i + 1).contains(' '));
            }
            start = i + 1;
        } else {
            proof {
                let old_last = scopes@.subrange(start as int, i as int);
                let new_last = scopes@.subrange(start as int, i + 1);
                assert(new_last =~= old_last.push(c));
                assert(scopes@.subrange(0, i + 1) =~= scopes@.subrange(0, i as int).push(c));
                let p = texts(pieces@);
                if p.len() > 0 {
                    assert(p.push(new_last).drop_last() =~= p);
                    assert(p.push(old_last).drop_last() =~= p);
                }
                assert(joined_by_space(p.push(new_last)) =~= joined_by_space(p.push(old_last)).push(c));
                assert forall|j: int| 0 <= j < new_last.len() implies new_last[j] != ' ' by {
                    if j < old_last.len() {
                        assert(new_last[j] == old_last[j]);
                    }
                }
            }
        }
        i = i + 1;
    }
    let piece = scopes.substring_char(start, n).to_string();
    let ghost before = texts(pieces@);
    pieces.push(piece);
    proof {
        assert(texts(pieces@) =~= before.push(scopes@.subrange(start as int, n as int)));
        assert(scopes@.subrange(0, n as int) =~= scopes@);
    }
    pieces
}

} // verus!
