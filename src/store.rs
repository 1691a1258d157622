//! The counter store that the limiter reads and writes: per-key attempt logs
//! for the IP and username axes, and block records keyed by IP. Time is passed
//! in by the caller as seconds since the Unix epoch.
use vstd::prelude::*;
use vstd::string::*;
use crate::limiter::{
    sat_add, auto_block_message, auto_block_reason, block_expiry, block_expiry_for, cutoff, decide_rate_limit, decision,
    should_auto_block, window_start, AuthRateLimitInfo, DecisionView, LimiterConfig,
};
use crate::text::owned;

verus! {

/// One recorded failure on an axis.
#[derive(Debug)]
pub struct Attempt {
    pub key: String,
    pub at: u64,
}

impl Attempt {
    pub fn duplicate(&self) -> (r: Attempt)
        ensures
            r == *self,
    {
        Attempt { key: self.key.clone(), at: self.at }
    }
}

/// A decision that an IP may not attempt authentication.
#[derive(Debug)]
pub struct BlockedIpInfo {
    pub ip: String,
    pub blocked_at: u64,
    pub reason: String,
    pub attempt_count: u64,
    /// `None` for a permanent block.
    pub expires_at: Option<u64>,
}

impl BlockedIpInfo {
    pub fn duplicate(&self) -> (r: BlockedIpInfo)
        ensures
            r == *self,
    {
        BlockedIpInfo {
            ip: self.ip.clone(),
            blocked_at: self.blocked_at,
            reason: self.reason.clone(),
            attempt_count: self.attempt_count,
            expires_at: self.expires_at,
        }
    }
}

/// The store is unreachable.
#[derive(Clone, Copy, Debug, PartialEq, Eq, Structural)]
pub enum StoreError {
    Unavailable,
}

/// When the entries of one key expire as a whole.
#[derive(Debug)]
pub struct KeyExpiry {
    pub key: String,
    pub at: u64,
}

impl KeyExpiry {
    pub fn duplicate(&self) -> (r: KeyExpiry)
        ensures
            r == *self,
    {
        KeyExpiry { key: self.key.clone(), at: self.at }
    }
}

pub struct CounterStore {
    /// Whether the store answers; every operation fails while it does not.
    pub available: bool,
    pub ip_attempts: Vec<Attempt>,
    pub user_attempts: Vec<Attempt>,
    /// Expiry of each IP-axis key, refreshed on every recorded failure.
    pub ip_expiry: Vec<KeyExpiry>,
    /// Expiry of each username-axis key, refreshed on every recorded failure.
    pub user_expiry: Vec<KeyExpiry>,
    pub blocks: Vec<BlockedIpInfo>,
}

/// No two block records name the same IP.
pub open spec fn unique_ips(blocks: Seq<BlockedIpInfo>) -> bool {
    forall|i: int, j: int| 0 <= i < j < blocks.len() ==> blocks[i].ip@ != blocks[j].ip@
}

impl CounterStore {
    /// An IP has at most one block record.
    pub open spec fn wf(&self) -> bool {
        unique_ips(self.blocks@)
    }
}

/// The expiry set for `key`, the latest one where several were.
pub open spec fn expiry_of(s: Seq<KeyExpiry>, key: Seq<char>) -> Option<u64>
    decreases s.len(),
{
    if s.len() == 0 {
        None
    } else if s.last().key@ == key {
        Some(s.last().at)
    } else {
        expiry_of(s.drop_last(), key)
    }
}

/// `s` without the expiry of `key`.
pub open spec fn without_expiry(s: Seq<KeyExpiry>, key: Seq<char>) -> Seq<KeyExpiry>
    decreases s.len(),
{
    if s.len() == 0 {
        s
    } else if s.last().key@ == key {
        without_expiry(s.drop_last(), key)
    } else {
        without_expiry(s.drop_last(), key).push(s.last())
    }
}

proof fn lemma_without_expiry(s: Seq<KeyExpiry>, key: Seq<char>, k: Seq<char>)
    ensures
        k == key ==> expiry_of(without_expiry(s, key), k) is None,
        k != key ==> expiry_of(without_expiry(s, key), k) == expiry_of(s, k),
    decreases s.len(),
{
    if s.len() > 0 {
        lemma_without_expiry(s.drop_last(), key, k);
        let rest = without_expiry(s.drop_last(), key);
        if s.last().key@ != key {
            assert(rest.push(s.last()).drop_last() =~= rest);
        }
    }
}

proof fn lemma_unblocked_unique(b: Seq<BlockedIpInfo>, ip: Seq<char>)
    ensures
        forall|k: int| 0 <= k < unblocked(b, ip).len() ==> (#[trigger] unblocked(b, ip)[k]).ip@ != ip
            && exists|j: int| 0 <= j < b.len() && unblocked(b, ip)[k] == b[j],
        unique_ips(b) ==> unique_ips(unblocked(b, ip)),
    decreases b.len(),
{
    if b.len() > 0 {
        let d = b.drop_last();
        lemma_unblocked_unique(d, ip);
        let u = unblocked(d, ip);
        assert forall|k: int| 0 <= k < u.len() implies exists|j: int| 0 <= j < b.len() && (#[trigger] u[k]) == b[j] by {
            let j = choose|j: int| 0 <= j < d.len() && u[k] == d[j];
            assert(b[j] == d[j]);
        }
        if b.last().ip@ != ip {
            let v = u.push(b.last());
            assert(v.drop_last() =~= u);
            assert(unblocked(b, ip) == v);
            assert forall|k: int| 0 <= k < v.len() implies (#[trigger] v[k]).ip@ != ip && exists|j: int|
                0 <= j < b.len() && v[k] == b[j] by {
                if k == v.len() - 1 {
                    assert(v[k] == b[b.len() - 1]);
                } else {
                    assert(v[k] == u[k]);
                }
            }
            if unique_ips(b) {
                assert(unique_ips(d));
                assert forall|i: int, j: int| 0 <= i < j < v.len() implies v[i].ip@ != v[j].ip@ by {
                    if j == v.len() - 1 {
                        assert(v[i] == u[i]);
                        let m = choose|m: int| 0 <= m < d.len() && u[i] == d[m];
                        assert(d[m] == b[m]);
                        assert(v[j] == b[b.len() - 1]);
                    } else {
                        assert(v[i] == u[i] && v[j] == u[j]);
                    }
                }
            }
        }
    }
}

proof fn lemma_active_unique(b: Seq<BlockedIpInfo>, now: u64)
    ensures
        forall|k: int| 0 <= k < active_blocks(b, now).len() ==> exists|j: int|
            0 <= j < b.len() && (#[trigger] active_blocks(b, now)[k]) == b[j],
        unique_ips(b) ==> unique_ips(active_blocks(b, now)),
    decreases b.len(),
{
    if b.len() > 0 {
        let d = b.drop_last();
        lemma_active_unique(d, now);
        let u = active_blocks(d, now);
        assert forall|k: int| 0 <= k < u.len() implies exists|j: int| 0 <= j < b.len() && (#[trigger] u[k]) == b[j] by {
            let j = choose|j: int| 0 <= j < d.len() && u[k] == d[j];
            assert(b[j] == d[j]);
        }
        if block_active(b.last(), now) {
            let v = u.push(b.last());
            assert(v.drop_last() =~= u);
            assert(active_blocks(b, now) == v);
            assert forall|k: int| 0 <= k < v.len() implies exists|j: int| 0 <= j < b.len() && (#[trigger] v[k])
                == b[j] by {
                if k == v.len() - 1 {
                    assert(v[k] == b[b.len() - 1]);
                } else {
                    assert(v[k] == u[k]);
                }
            }
            if unique_ips(b) {
                assert(unique_ips(d));
                assert forall|i: int, j: int| 0 <= i < j < v.len() implies v[i].ip@ != v[j].ip@ by {
                    if j == v.len() - 1 {
                        assert(v[i] == u[i]);
                        let m = choose|m: int| 0 <= m < d.len() && u[i] == d[m];
                        assert(d[m] == b[m]);
                        assert(v[j] == b[b.len() - 1]);
                    } else {
                        assert(v[i] == u[i] && v[j] == u[j]);
                    }
                }
            }
        }
    }
}

/// Entries of `log` for `key` stamped at or after `from`.
pub open spec fn live_count(log: Seq<Attempt>, key: Seq<char>, from: u64) -> nat
    decreases log.len(),
{
    if log.len() == 0 {
        0
    } else {
        live_count(log.drop_last(), key, from) + if log.last().key@ == key && log.last().at >= from {
            1nat
        } else {
            0nat
        }
    }
}

/// `log` without the entries for `key` stamped before `from`.
pub open spec fn pruned(log: Seq<Attempt>, key: Seq<char>, from: u64) -> Seq<Attempt>
    decreases log.len(),
{
    if log.len() == 0 {
        log
    } else if log.last().key@ == key && log.last().at < from {
        pruned(log.drop_last(), key, from)
    } else {
        pruned(log.drop_last(), key, from).push(log.last())
    }
}

/// `log` without any entry for `key`.
pub open spec fn cleared(log: Seq<Attempt>, key: Seq<char>) -> Seq<Attempt>
    decreases log.len(),
{
    if log.len() == 0 {
        log
    } else if log.last().key@ == key {
        cleared(log.drop_last(), key)
    } else {
        cleared(log.drop_last(), key).push(log.last())
    }
}

/// A block record still holds at `now`.
pub open spec fn block_active(b: BlockedIpInfo, now: u64) -> bool {
    match b.expires_at {
        None => true,
        Some(e) => now < e,
    }
}

/// `Some(permanent)` for the latest record of `ip` that still holds at `now`.
pub open spec fn block_status(blocks: Seq<BlockedIpInfo>, ip: Seq<char>, now: u64) -> Option<bool>
    decreases blocks.len(),
{
    if blocks.len() == 0 {
        None
    } else if blocks.last().ip@ == ip && block_active(blocks.last(), now) {
        Some(blocks.last().expires_at is None)
    } else {
        block_status(blocks.drop_last(), ip, now)
    }
}

/// `blocks` without any record of `ip`.
pub open spec fn unblocked(blocks: Seq<BlockedIpInfo>, ip: Seq<char>) -> Seq<BlockedIpInfo>
    decreases blocks.len(),
{
    if blocks.len() == 0 {
        blocks
    } else if blocks.last().ip@ == ip {
        unblocked(blocks.drop_last(), ip)
    } else {
        unblocked(blocks.drop_last(), ip).push(blocks.last())
    }
}

/// What a check reports on a store in state `s`.
pub open spec fn check_outcome(
    cfg: LimiterConfig,
    s: CounterStore,
    ip: Seq<char>,
    user: Option<Seq<char>>,
    now: u64,
) -> DecisionView {
    match block_status(s.blocks@, ip, now) {
        Some(p) => decision(cfg, Some(p), 0, None, now),
        None => decision(
            cfg,
            None,
            live_count(s.ip_attempts@, ip, cutoff(now, cfg.ip_window_seconds)) as u64,
            match user {
                Some(u) => Some(
                    live_count(s.user_attempts@, u, cutoff(now, cfg.user_window_seconds)) as u64,
                ),
                None => None,
            },
            now,
        ),
    }
}

/// The records of `blocks` that still hold at `now`, in order.
pub open spec fn active_blocks(blocks: Seq<BlockedIpInfo>, now: u64) -> Seq<BlockedIpInfo>
    decreases blocks.len(),
{
    if blocks.len() == 0 {
        blocks
    } else if block_active(blocks.last(), now) {
        active_blocks(blocks.drop_last(), now).push(blocks.last())
    } else {
        active_blocks(blocks.drop_last(), now)
    }
}

/// `after` is `before` with every record of `ip` replaced by one new record
/// carrying the given fields.
pub open spec fn block_written(
    before: Seq<BlockedIpInfo>,
    after: Seq<BlockedIpInfo>,
    ip: Seq<char>,
    reason: Seq<char>,
    attempt_count: u64,
    expires_at: Option<u64>,
    now: u64,
) -> bool {
    &&& after.len() > 0
    &&& after.drop_last() == unblocked(before, ip)
    &&& after.last().ip@ == ip
    &&& after.last().reason@ == reason
    &&& after.last().attempt_count == attempt_count
    &&& after.last().blocked_at == now
    &&& after.last().expires_at == expires_at
}

/// `after` is `before` with one more entry for `key` stamped `now`.
pub open spec fn appended(before: Seq<Attempt>, after: Seq<Attempt>, key: Seq<char>, now: u64) -> bool {
    &&& after.len() == before.len() + 1
    &&& after.drop_last() == before
    &&& after.last().key@ == key
    &&& after.last().at == now
}

pub(crate) proof fn lemma_live_count_bound(log: Seq<Attempt>, key: Seq<char>, from: u64)
    ensures
        live_count(log, key, from) <= log.len(),
    decreases log.len(),
{
    if log.len() > 0 {
        lemma_live_count_bound(log.drop_last(), key, from);
    }
}

/// Pruning before `from` keeps every count taken from `from` on.
proof fn lemma_pruned_count(log: Seq<Attempt>, key: Seq<char>, from: u64, k: Seq<char>, f: u64)
    requires
        k != key || f >= from,
    ensures
        live_count(pruned(log, key, from), k, f) == live_count(log, k, f),
    decreases log.len(),
{
    if log.len() > 0 {
        lemma_pruned_count(log.drop_last(), key, from, k, f);
        let rest = pruned(log.drop_last(), key, from);
        if !(log.last().key@ == key && log.last().at < from) {
            assert(rest.push(log.last()).drop_last() =~= rest);
        }
    }
}

impl CounterStore {
    pub fn new() -> (r: CounterStore)
        ensures
            r.available,
            r.ip_attempts@.len() == 0,
            r.user_attempts@.len() == 0,
            r.blocks@.len() == 0,
            r.ip_expiry@.len() == 0,
            r.user_expiry@.len() == 0,
            r.wf(),
    {
        CounterStore {
            available: true,
            ip_attempts: Vec::new(),
            user_attempts: Vec::new(),
            ip_expiry: Vec::new(),
            user_expiry: Vec::new(),
            blocks: Vec::new(),
        }
    }

    /// Number of entries for `key` in `log` stamped at or after `from`.
    fn count_from(log: &Vec<Attempt>, key: &String, from: u64) -> (r: u64)
        ensures
            r == live_count(log@, key@, from),
    {
        let mut n: u64 = 0;
        let mut i: usize = 0;
        while i < log.len()
            invariant
                i <= log@.len(),
                n == live_count(log@.take(i as int), key@, from),
            decreases log@.len() - i,
        {
            proof {
                assert(log@.take(i as int + 1).drop_last() =~= log@.take(i as int));
                lemma_live_count_bound(log@.take(i as int), key@, from);
            }
            if log[i].key == *key && log[i].at >= from {
                n = n + 1;
            }
            i = i + 1;
        }
        assert(log@.take(log@.len() as int) =~= log@);
        n
    }

    /// Drops the entries for `key` stamped before `from`.
    fn prune(log: &mut Vec<Attempt>, key: &String, from: u64)
        ensures
            final(log)@ == pruned(old(log)@, key@, from),
    {
        let mut out: Vec<Attempt> = Vec::new();
        let mut i: usize = 0;
        while i < log.len()
            invariant
                i <= log@.len(),
                out@ == pruned(log@.take(i as int), key@, from),
            decreases log@.len() - i,
        {
            proof {
                assert(log@.take(i as int + 1).drop_last() =~= log@.take(i as int));
            }
            if !(log[i].key == *key && log[i].at < from) {
                out.push(log[i].duplicate());
            }
            i = i + 1;
        }
        assert(log@.take(log@.len() as int) =~= log@);
        *log = out;
    }

    /// Drops every entry for `key`.
    fn clear_key(log: &mut Vec<Attempt>, key: &String)
        ensures
            final(log)@ == cleared(old(log)@, key@),
    {
        let mut out: Vec<Attempt> = Vec::new();
        let mut i: usize = 0;
        while i < log.len()
            invariant
                i <= log@.len(),
                out@ == cleared(log@.take(i as int), key@),
            decreases log@.len() - i,
        {
            proof {
                assert(log@.take(i as int + 1).drop_last() =~= log@.take(i as int));
            }
            if !(log[i].key == *key) {
                out.push(log[i].duplicate());
            }
            i = i + 1;
        }
        assert(log@.take(log@.len() as int) =~= log@);
        *log = out;
    }

    /// Whether `ip` has a block record that holds at `now`, and whether it is permanent.
    fn find_block(&self, ip: &String, now: u64) -> (r: Option<bool>)
        ensures
            r == block_status(self.blocks@, ip@, now),
    {
        let mut found: Option<bool> = None;
        let mut i: usize = 0;
        while i < self.blocks.len()
            invariant
                i <= self.blocks@.len(),
                found == block_status(self.blocks@.take(i as int), ip@, now),
            decreases self.blocks@.len() - i,
        {
            proof {
                assert(self.blocks@.take(i as int + 1).drop_last() =~= self.blocks@.take(i as int));
            }
            let b = &self.blocks[i];
            let active = match b.expires_at {
                None => true,
                Some(e) => now < e,
            };
            if b.ip == *ip && active {
                found = Some(b.expires_at.is_none());
            }
            i = i + 1;
        }
        assert(self.blocks@.take(self.blocks@.len() as int) =~= self.blocks@);
        found
    }

    /// The IP's block status: `Some(permanent)` where an active record exists.
    pub fn block_status_of(&self, ip: &str, now: u64) -> (r: Result<Option<bool>, StoreError>)
        ensures
            !self.available ==> r == Err::<Option<bool>, StoreError>(StoreError::Unavailable),
            self.available ==> r == Ok::<Option<bool>, StoreError>(block_status(self.blocks@, ip@, now)),
    {
        if !self.available {
            return Err(StoreError::Unavailable);
        }
        let key = owned(ip);
        Ok(self.find_block(&key, now))
    }

    /// Existence check of an active block record for `ip`.
    pub fn is_blocked(&self, ip: &str, now: u64) -> (r: Result<bool, StoreError>)
        ensures
            !self.available ==> r == Err::<bool, StoreError>(StoreError::Unavailable),
            self.available ==> r == Ok::<bool, StoreError>(block_status(self.blocks@, ip@, now) is Some),
    {
        if !self.available {
            return Err(StoreError::Unavailable);
        }
        let key = owned(ip);
        Ok(self.find_block(&key, now).is_some())
    }

    /// Decides a login attempt from `ip` (and `username`, where known),
    /// pruning each axis's expired entries on the way.
    pub fn check_auth_rate_limit(
        &mut self,
        cfg: &LimiterConfig,
        ip: &str,
        username: Option<&str>,
        now: u64,
    ) -> (r: Result<AuthRateLimitInfo, StoreError>)
        ensures
            !old(self).available ==> r == Err::<AuthRateLimitInfo, StoreError>(StoreError::Unavailable)
                && *final(self) == *old(self),
            old(self).available ==> r is Ok && r->Ok_0@ == check_outcome(
                *cfg,
                *old(self),
                ip@,
                match username { Some(u) => Some(u@), None => None },
                now,
            ),
            final(self).available == old(self).available,
            final(self).blocks@ == old(self).blocks@,
            old(self).available && block_status(old(self).blocks@, ip@, now) is None ==>
                final(self).ip_attempts@ == pruned(old(self).ip_attempts@, ip@, cutoff(now, cfg.ip_window_seconds)),
            old(self).available && block_status(old(self).blocks@, ip@, now) is None ==>
                match username {
                    Some(u) => final(self).user_attempts@ == pruned(
                        old(self).user_attempts@, u@, cutoff(now, cfg.user_window_seconds)),
                    None => final(self).user_attempts@ == old(self).user_attempts@,
                },
            old(self).available && block_status(old(self).blocks@, ip@, now) is Some ==> *final(self) == *old(self),
            final(self).ip_expiry@ == old(self).ip_expiry@,
            final(self).user_expiry@ == old(self).user_expiry@,
            old(self).wf() ==> final(self).wf(),
    {
        if !self.available {
            return Err(StoreError::Unavailable);
        }
        let ip_key = owned(ip);
        match self.find_block(&ip_key, now) {
            Some(permanent) => {
                return Ok(decide_rate_limit(cfg, Some(permanent), 0, None, now));
            },
            None => {},
        }
        let ip_from = window_start(now, cfg.ip_window_seconds);
        Self::prune(&mut self.ip_attempts, &ip_key, ip_from);
        let ip_count = Self::count_from(&self.ip_attempts, &ip_key, ip_from);
        proof {
            lemma_pruned_count(old(self).ip_attempts@, ip_key@, ip_from, ip_key@, ip_from);
        }
        let user_count: Option<u64> = match username {
            Some(u) => {
                let user_key = owned(u);
                let user_from = window_start(now, cfg.user_window_seconds);
                Self::prune(&mut self.user_attempts, &user_key, user_from);
                let c = Self::count_from(&self.user_attempts, &user_key, user_from);
                proof {
                    lemma_pruned_count(old(self).user_attempts@, user_key@, user_from, user_key@, user_from);
                }
                Some(c)
            },
            None => None,
        };
        Ok(decide_rate_limit(cfg, None, ip_count, user_count, now))
    }

    /// Writes a block record for `ip`, replacing any earlier one. The record
    /// carries the IP axis's current count; it has no expiry where `permanent`
    /// is set or the configured duration is zero.
    pub fn block_ip(
        &mut self,
        cfg: &LimiterConfig,
        ip: &str,
        reason: &str,
        permanent: bool,
        now: u64,
    ) -> (r: Result<(), StoreError>)
        ensures
            !old(self).available ==> r == Err::<(), StoreError>(StoreError::Unavailable)
                && *final(self) == *old(self),
            old(self).available ==> r is Ok && block_written(
                old(self).blocks@,
                final(self).blocks@,
                ip@,
                reason@,
                live_count(old(self).ip_attempts@, ip@, cutoff(now, cfg.ip_window_seconds)) as u64,
                block_expiry(*cfg, permanent, now),
                now,
            ),
            final(self).available == old(self).available,
            final(self).ip_attempts@ == old(self).ip_attempts@,
            final(self).user_attempts@ == old(self).user_attempts@,
            final(self).ip_expiry@ == old(self).ip_expiry@,
            final(self).user_expiry@ == old(self).user_expiry@,
            old(self).wf() ==> final(self).wf(),
    {
        if !self.available {
            return Err(StoreError::Unavailable);
        }
        let key = owned(ip);
        let count = Self::count_from(&self.ip_attempts, &key, window_start(now, cfg.ip_window_seconds));
        let expires_at = block_expiry_for(cfg, permanent, now);
        self.remove_blocks(&key);
        let record = BlockedIpInfo {
            ip: key,
            blocked_at: now,
            reason: owned(reason),
            attempt_count: count,
            expires_at,
        };
        self.blocks.push(record);
        assert(self.blocks@.drop_last() =~= unblocked(old(self).blocks@, ip@));
        proof {
            lemma_unblocked_unique(old(self).blocks@, ip@);
            let u = unblocked(old(self).blocks@, ip@);
            if unique_ips(old(self).blocks@) {
                assert forall|i: int, j: int| 0 <= i < j < self.blocks@.len() implies self.blocks@[i].ip@
                    != self.blocks@[j].ip@ by {
                    assert(self.blocks@[i] == u[i]);
                    if j < u.len() {
                        assert(self.blocks@[j] == u[j]);
                    }
                }
            }
        }
        Ok(())
    }

    fn remove_blocks(&mut self, ip: &String)
        ensures
            final(self).blocks@ == unblocked(old(self).blocks@, ip@),
            final(self).available == old(self).available,
            final(self).ip_attempts@ == old(self).ip_attempts@,
            final(self).user_attempts@ == old(self).user_attempts@,
            final(self).ip_expiry@ == old(self).ip_expiry@,
            final(self).user_expiry@ == old(self).user_expiry@,
    {
        let mut out: Vec<BlockedIpInfo> = Vec::new();
        let mut i: usize = 0;
        while i < self.blocks.len()
            invariant
                i <= self.blocks@.len(),
                out@ == unblocked(self.blocks@.take(i as int), ip@),
            decreases self.blocks@.len() - i,
        {
            proof {
                assert(self.blocks@.take(i as int + 1).drop_last() =~= self.blocks@.take(i as int));
            }
            if !(self.blocks[i].ip == *ip) {
                out.push(self.blocks[i].duplicate());
            }
            i = i + 1;
        }
        assert(self.blocks@.take(self.blocks@.len() as int) =~= self.blocks@);
        self.blocks = out;
    }

    /// Deletes every block record of `ip`; absent records are no error.
    pub fn unblock_ip(&mut self, ip: &str) -> (r: Result<(), StoreError>)
        ensures
            !old(self).available ==> r == Err::<(), StoreError>(StoreError::Unavailable)
                && *final(self) == *old(self),
            old(self).available ==> r is Ok && final(self).blocks@ == unblocked(old(self).blocks@, ip@),
            final(self).available == old(self).available,
            final(self).ip_attempts@ == old(self).ip_attempts@,
            final(self).user_attempts@ == old(self).user_attempts@,
            final(self).ip_expiry@ == old(self).ip_expiry@,
            final(self).user_expiry@ == old(self).user_expiry@,
            old(self).wf() ==> final(self).wf(),
    {
        proof {
            lemma_unblocked_unique(old(self).blocks@, ip@);
        }
        if !self.available {
            return Err(StoreError::Unavailable);
        }
        let key = owned(ip);
        self.remove_blocks(&key);
        Ok(())
    }

    /// The block records that still hold at `now`.
    pub fn get_blocked_ips(&self, now: u64) -> (r: Result<Vec<BlockedIpInfo>, StoreError>)
        ensures
            !self.available ==> r is Err,
            self.available ==> r is Ok && r->Ok_0@ == active_blocks(self.blocks@, now),
            self.wf() && r is Ok ==> unique_ips(r->Ok_0@),
    {
        proof {
            lemma_active_unique(self.blocks@, now);
        }
        if !self.available {
            return Err(StoreError::Unavailable);
        }
        let mut out: Vec<BlockedIpInfo> = Vec::new();
        let mut i: usize = 0;
        while i < self.blocks.len()
            invariant
                i <= self.blocks@.len(),
                out@ == active_blocks(self.blocks@.take(i as int), now),
            decreases self.blocks@.len() - i,
        {
            proof {
                assert(self.blocks@.take(i as int + 1).drop_last() =~= self.blocks@.take(i as int));
            }
            let active = match self.blocks[i].expires_at {
                None => true,
                Some(e) => now < e,
            };
            if active {
                out.push(self.blocks[i].duplicate());
            }
            i = i + 1;
        }
        assert(self.blocks@.take(self.blocks@.len() as int) =~= self.blocks@);
        Ok(out)
    }
}

/// Records a failed login on both axes, then applies the automatic block
/// policy to `ip`.
pub fn record_auth_failure(
    store: &mut CounterStore,
    cfg: &LimiterConfig,
    ip: &str,
    username: &str,
    now: u64,
) -> (r: Result<(), StoreError>)
    ensures
        !old(store).available ==> r == Err::<(), StoreError>(StoreError::Unavailable)
            && *final(store) == *old(store),
        old(store).available ==> r is Ok,
        old(store).available ==> appended(old(store).ip_attempts@, final(store).ip_attempts@, ip@, now),
        old(store).available ==> appended(old(store).user_attempts@, final(store).user_attempts@, username@, now),
        old(store).available ==> auto_blocked(*cfg, old(store).blocks@, final(store).blocks@,
            final(store).ip_attempts@, ip@, now),
        old(store).available ==> refreshed(old(store).ip_expiry@, final(store).ip_expiry@, ip@, sat_add(
            now,
            cfg.ip_window_seconds,
        )),
        old(store).available ==> refreshed(old(store).user_expiry@, final(store).user_expiry@, username@, sat_add(
            now,
            cfg.user_window_seconds,
        )),
        final(store).available == old(store).available,
        old(store).wf() ==> final(store).wf(),
{
    if !store.available {
        return Err(StoreError::Unavailable);
    }
    set_expiry(&mut store.ip_expiry, owned(ip), now.saturating_add(cfg.ip_window_seconds));
    set_expiry(&mut store.user_expiry, owned(username), now.saturating_add(cfg.user_window_seconds));
    store.ip_attempts.push(Attempt { key: owned(ip), at: now });
    store.user_attempts.push(Attempt { key: owned(username), at: now });
    assert(store.ip_attempts@.drop_last() =~= old(store).ip_attempts@);
    assert(store.user_attempts@.drop_last() =~= old(store).user_attempts@);
    check_and_auto_block_ip(store, cfg, ip, now)
}

/// The automatic block policy: where the IP axis's count reaches the
/// threshold, `after` holds a new temporary block record; else the records
/// are unchanged.
pub open spec fn auto_blocked(
    cfg: LimiterConfig,
    before: Seq<BlockedIpInfo>,
    after: Seq<BlockedIpInfo>,
    ip_log: Seq<Attempt>,
    ip: Seq<char>,
    now: u64,
) -> bool {
    let n = live_count(ip_log, ip, cutoff(now, cfg.ip_window_seconds)) as u64;
    if n >= cfg.block_threshold {
        block_written(before, after, ip, auto_block_reason(n), n, block_expiry(cfg, false, now), now)
    } else {
        after == before
    }
}

/// Blocks `ip` for the configured duration once its failure count reaches
/// the threshold.
pub fn check_and_auto_block_ip(
    store: &mut CounterStore,
    cfg: &LimiterConfig,
    ip: &str,
    now: u64,
) -> (r: Result<(), StoreError>)
    ensures
        !old(store).available ==> r == Err::<(), StoreError>(StoreError::Unavailable)
            && *final(store) == *old(store),
        old(store).available ==> r is Ok,
        old(store).available ==> auto_blocked(*cfg, old(store).blocks@, final(store).blocks@,
            old(store).ip_attempts@, ip@, now),
        final(store).available == old(store).available,
        final(store).ip_attempts@ == old(store).ip_attempts@,
        final(store).user_attempts@ == old(store).user_attempts@,
        final(store).ip_expiry@ == old(store).ip_expiry@,
        final(store).user_expiry@ == old(store).user_expiry@,
        old(store).wf() ==> final(store).wf(),
{
    if !store.available {
        return Err(StoreError::Unavailable);
    }
    let key = owned(ip);
    let n = CounterStore::count_from(&store.ip_attempts, &key, window_start(now, cfg.ip_window_seconds));
    if should_auto_block(cfg, n) {
        let reason = auto_block_message(n);
        store.block_ip(cfg, ip, reason.as_str(), false, now)
    } else {
        Ok(())
    }
}

/// Deletes both axes' entries for this identity; called after a successful login.
pub fn clear_auth_rate_limit(store: &mut CounterStore, ip: &str, username: &str) -> (r: Result<(), StoreError>)
    ensures
        !old(store).available ==> r == Err::<(), StoreError>(StoreError::Unavailable)
            && *final(store) == *old(store),
        old(store).available ==> r is Ok,
        old(store).available ==> final(store).ip_attempts@ == cleared(old(store).ip_attempts@, ip@),
        old(store).available ==> final(store).user_attempts@ == cleared(old(store).user_attempts@, username@),
        old(store).available ==> final(store).ip_expiry@ == without_expiry(old(store).ip_expiry@, ip@),
        old(store).available ==> final(store).user_expiry@ == without_expiry(old(store).user_expiry@, username@),
        final(store).blocks@ == old(store).blocks@,
        final(store).available == old(store).available,
{
    if !store.available {
        return Err(StoreError::Unavailable);
    }
    let ip_key = owned(ip);
    let user_key = owned(username);
    drop_expiry(&mut store.ip_expiry, &ip_key);
    drop_expiry(&mut store.user_expiry, &user_key);
    CounterStore::clear_key(&mut store.ip_attempts, &ip_key);
    CounterStore::clear_key(&mut store.user_attempts, &user_key);
    Ok(())
}

/// `after` holds `at` as the expiry of `key`, and every other key's expiry
/// as `before` held it.
pub open spec fn refreshed(before: Seq<KeyExpiry>, after: Seq<KeyExpiry>, key: Seq<char>, at: u64) -> bool {
    &&& expiry_of(after, key) == Some(at)
    &&& forall|k: Seq<char>| k != key ==> #[trigger] expiry_of(after, k) == expiry_of(before, k)
}

fn drop_expiry(v: &mut Vec<KeyExpiry>, key: &String)
    ensures
        final(v)@ == without_expiry(old(v)@, key@),
{
    let mut out: Vec<KeyExpiry> = Vec::new();
    let mut i: usize = 0;
    while i < v.len()
        invariant
            i <= v@.len(),
            out@ == without_expiry(v@.take(i as int), key@),
        decreases v@.len() - i,
    {
        proof {
            assert(v@.take(i as int + 1).drop_last() =~= v@.take(i as int));
        }
        if !(v[i].key == *key) {
            out.push(v[i].duplicate());
        }
        i = i + 1;
    }
    assert(v@.take(v@.len() as int) =~= v@);
    *v = out;
}

/// Sets the expiry of `key` to `at`, as `EXPIRE` does.
fn set_expiry(v: &mut Vec<KeyExpiry>, key: String, at: u64)
    ensures
        refreshed(old(v)@, final(v)@, key@, at),
{
    drop_expiry(v, &key);
    let ghost dropped = v@;
    let ghost k0 = key@;
    v.push(KeyExpiry { key, at });
    assert(v@.drop_last() =~= dropped);
    assert forall|k: Seq<char>| k != k0 implies #[trigger] expiry_of(v@, k) == expiry_of(old(v)@, k) by {
        lemma_without_expiry(old(v)@, k0, k);
    }
}

} // verus!
