//! What administrators see of the block records: filtering by status,
//! paging, and summary counts.
use vstd::prelude::*;
use vstd::string::*;
use crate::store::{block_active, BlockedIpInfo};
use crate::text::{owned, str_eq};

verus! {

#[derive(Debug, Clone, Copy, PartialEq, Eq, Structural)]
pub enum BlockFilter {
    Active,
    Expired,
    All,
}

pub open spec fn filter_of(status: Option<Seq<char>>) -> BlockFilter {
    match status {
        Some(s) => if s == "active"@ {
            BlockFilter::Active
        } else if s == "expired"@ {
            BlockFilter::Expired
        } else {
            BlockFilter::All
        },
        None => BlockFilter::All,
    }
}

/// The filter a `status` query parameter selects; anything but `active` or
/// `expired` selects all records.
pub fn block_filter(status: Option<&str>) -> (r: BlockFilter)
    ensures
        r == filter_of(match status { Some(s) => Some(s@), None => None }),
{
    match status {
        Some(s) => if str_eq(s, "active") {
            BlockFilter::Active
        } else if str_eq(s, "expired") {
            BlockFilter::Expired
        } else {
            BlockFilter::All
        },
        None => BlockFilter::All,
    }
}

pub open spec fn selected(f: BlockFilter, b: BlockedIpInfo, now: u64) -> bool {
    match f {
        BlockFilter::Active => block_active(b, now),
        BlockFilter::Expired => !block_active(b, now),
        BlockFilter::All => true,
    }
}

pub open spec fn filtered(records: Seq<BlockedIpInfo>, f: BlockFilter, now: u64) -> Seq<BlockedIpInfo>
    decreases records.len(),
{
    if records.len() == 0 {
        records
    } else if selected(f, records.last(), now) {
        filtered(records.drop_last(), f, now).push(records.last())
    } else {
        filtered(records.drop_last(), f, now)
    }
}

/// The records the filter selects at `now`, in order.
pub fn filter_blocked_ips(records: &Vec<BlockedIpInfo>, f: BlockFilter, now: u64) -> (r: Vec<BlockedIpInfo>)
    ensures
        r@ == filtered(records@, f, now),
{
    let mut out: Vec<BlockedIpInfo> = Vec::new();
    let mut i: usize = 0;
    while i < records.len()
        invariant
            i <= records@.len(),
            out@ == filtered(records@.take(i as int), f, now),
        decreases records@.len() - i,
    {
        proof {
            assert(records@.take(i as int + 1).drop_last() =~= records@.take(i as int));
        }
        let b = &records[i];
        let active = match b.expires_at {
            None => true,
            Some(e) => now < e,
        };
        let keep = match f {
            BlockFilter::Active => active,
            BlockFilter::Expired => !active,
            BlockFilter::All => true,
        };
        if keep {
            out.push(b.duplicate());
        }
        i = i + 1;
    }
    assert(records@.take(records@.len() as int) =~= records@);
    out
}

/// Which slice of a list a page shows.
#[derive(Debug, Clone, Copy, PartialEq, Eq, Structural)]
pub struct PageWindow {
    pub page: u64,
    pub limit: u64,
    pub offset: u64,
}

/// Page 1 and 20 items by default; at most 100 items, and no page below 1.
pub fn page_window(page: Option<u32>, limit: Option<u32>) -> (r: PageWindow)
    ensures
        r.limit == match limit {
            Some(l) => if l <= 100 { l as u64 } else { 100 },
            None => 20,
        },
        r.page == match page {
            Some(p) => if p >= 1 { p as u64 } else { 1 },
            None => 1,
        },
        r.offset == (r.page - 1) * r.limit,
{
    let l: u64 = match limit {
        Some(l) => if l <= 100 { l as u64 } else { 100 },
        None => 20,
    };
    let p: u64 = match page {
        Some(p) => if p >= 1 { p as u64 } else { 1 },
        None => 1,
    };
    assert((p - 1) * l <= 0xffff_ffff * 100) by (nonlinear_arith)
        requires p - 1 <= 0xffff_ffff, l <= 100;
    PageWindow { page: p, limit: l, offset: (p - 1) * l }
}

/// Number of pages of `limit` items that hold `total` items.
pub fn total_pages(total: u64, limit: u64) -> (r: u64)
    requires
        limit > 0,
    ensures
        r == (total + limit - 1) / (limit as int),
{
    let q = total / limit;
    let rem = total % limit;
    proof {
        vstd::arithmetic::div_mod::lemma_fundamental_div_mod(total as int, limit as int);
        let x = total + limit - 1;
        if rem == 0 {
            vstd::arithmetic::div_mod::lemma_fundamental_div_mod_converse(x, limit as int, q as int, limit - 1);
        } else {
            assert(q * limit <= total);
            assert(q <= total) by (nonlinear_arith)
                requires q * limit <= total, limit >= 1, q >= 0;
            assert(q < u64::MAX) by (nonlinear_arith)
                requires q * limit <= total, limit >= 2, q >= 0, total <= u64::MAX;
            assert(x == (q + 1) * limit + (rem - 1)) by (nonlinear_arith)
                requires total == limit * q + rem, x == total + limit - 1;
            vstd::arithmetic::div_mod::lemma_fundamental_div_mod_converse(
                x,
                limit as int,
                q + 1,
                rem - 1,
            );
        }
    }
    if rem == 0 {
        q
    } else {
        q + 1
    }
}

/// The items of `items` that page `w` shows.
pub fn page_of(items: &Vec<BlockedIpInfo>, w: PageWindow) -> (r: Vec<BlockedIpInfo>)
    ensures
        w.offset >= items@.len() ==> r@.len() == 0,
        w.offset < items@.len() ==> r@ == items@.subrange(
            w.offset as int,
            if w.offset + w.limit <= items@.len() { (w.offset + w.limit) as int } else { items@.len() as int },
        ),
{
    let mut out: Vec<BlockedIpInfo> = Vec::new();
    if w.offset >= items.len() as u64 {
        return out;
    }
    let start = w.offset as usize;
    let end: usize = if w.limit <= (items.len() - start) as u64 { start + w.limit as usize } else { items.len() };
    let mut i = start;
    while i < end
        invariant
            start <= i <= end <= items@.len(),
            out@ == items@.subrange(start as int, i as int),
        decreases end - i,
    {
        out.push(items[i].duplicate());
        i = i + 1;
        assert(out@ =~= items@.subrange(start as int, i as int));
    }
    out
}

/// Summary counts of the block records.
#[derive(Debug, Clone, Copy, PartialEq, Eq, Structural)]
pub struct SecurityStats {
    pub total_blocked_ips: u64,
    pub active_blocks: u64,
    pub permanent_blocks: u64,
    pub temporary_blocks: u64,
    /// Blocks written in the 24 hours before `now`.
    pub recent_blocks_24h: u64,
}

pub open spec fn count_if(records: Seq<BlockedIpInfo>, p: spec_fn(BlockedIpInfo) -> bool) -> nat
    decreases records.len(),
{
    if records.len() == 0 {
        0
    } else {
        count_if(records.drop_last(), p) + if p(records.last()) { 1nat } else { 0nat }
    }
}

pub open spec fn recent(b: BlockedIpInfo, now: u64) -> bool {
    b.blocked_at + 86400 > now
}

pub fn security_stats(records: &Vec<BlockedIpInfo>, now: u64) -> (r: SecurityStats)
    ensures
        r.total_blocked_ips == records@.len(),
        r.active_blocks == count_if(records@, |b: BlockedIpInfo| block_active(b, now)),
        r.permanent_blocks == count_if(records@, |b: BlockedIpInfo| b.expires_at is None),
        r.temporary_blocks == count_if(records@, |b: BlockedIpInfo| b.expires_at is Some),
        r.recent_blocks_24h == count_if(records@, |b: BlockedIpInfo| recent(b, now)),
{
    let mut active: u64 = 0;
    let mut permanent: u64 = 0;
    let mut temporary: u64 = 0;
    let mut recent_count: u64 = 0;
    let mut i: usize = 0;
    while i < records.len()
        invariant
            i <= records@.len(),
            active == count_if(records@.take(i as int), |b: BlockedIpInfo| block_active(b, now)),
            permanent == count_if(records@.take(i as int), |b: BlockedIpInfo| b.expires_at is None),
            temporary == count_if(records@.take(i as int), |b: BlockedIpInfo| b.expires_at is Some),
            recent_count == count_if(records@.take(i as int), |b: BlockedIpInfo| recent(b, now)),
            active <= i && permanent <= i && temporary <= i && recent_count <= i,
        decreases records@.len() - i,
    {
        proof {
            assert(records@.take(i as int + 1).drop_last() =~= records@.take(i as int));
        }
        let b = &records[i];
        match b.expires_at {
            None => {
                active = active + 1;
                permanent = permanent + 1;
            },
            Some(e) => {
                if now < e {
                    active = active + 1;
                }
                temporary = temporary + 1;
            },
        }
        if b.blocked_at as u128 + 86400 > now as u128 {
            recent_count = recent_count + 1;
        }
        i = i + 1;
    }
    assert(records@.take(records@.len() as int) =~= records@);
    SecurityStats {
        total_blocked_ips: records.len() as u64,
        active_blocks: active,
        permanent_blocks: permanent,
        temporary_blocks: temporary,
        recent_blocks_24h: recent_count,
    }
}

/// "IP <ip> has been [permanently ]blocked"
pub fn block_confirmation(ip: &str, permanent: bool) -> (r: String)
    ensures
        r@ == "IP "@ + ip@ + if permanent { " has been permanently blocked"@ } else { " has been blocked"@ },
{
    let mut m = owned("IP ");
    m.append(ip);
    if permanent {
        m.append(" has been permanently blocked");
    } else {
        m.append(" has been blocked");
    }
    m
}

} // verus!
