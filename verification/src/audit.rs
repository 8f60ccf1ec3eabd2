use vstd::prelude::*;

use crate::ledger::Ledger;
use crate::model::{clone_opt_string, AuditLog, PaginatedAuditLogResult};

verus! {

pub fn clone_audit_entry(a: &AuditLog) -> (r: AuditLog)
    ensures
        r == *a,
{
    AuditLog {
        id: a.id,
        action: a.action.clone(),
        entity_type: a.entity_type.clone(),
        entity_id: a.entity_id.clone(),
        user_id: clone_opt_string(&a.user_id),
        timestamp: a.timestamp,
        details: clone_opt_string(&a.details),
    }
}

impl Ledger {
    /// Reads one page of the audit trail, in recording order,
    /// together with the full count. A missing page falls back to
    /// the first one and a missing size to fifty entries; the window
    /// is clipped to the trail.
    pub fn get_audit_log(&self, page: Option<u32>, page_size: Option<u32>) -> (r:
        PaginatedAuditLogResult)
        requires
            match page {
                Some(p) => p >= 1,
                None => true,
            },
        ensures
            r.total == self.audit_log@.len(),
            ({
                let (lo, hi) = audit_page_window(self.audit_log@.len() as int, page, page_size);
                r.rows@ == self.audit_log@.subrange(lo, hi)
            }),
    {
        let p64: u64 = match page {
            Some(v) => v as u64,
            None => 1u64,
        };
        let size64: u64 = match page_size {
            Some(v) => v as u64,
            None => 50u64,
        };
        assert((p64 - 1) as int * (size64 as int) <= 0xFFFF_FFFE_0000_0001) by (nonlinear_arith)
            requires
                1 <= p64 <= u32::MAX,
                size64 <= u32::MAX,
        ;
        let off: u64 = (p64 - 1) * size64;
        let len: u64 = self.audit_log.len() as u64;
        let lo: u64 = if off < len {
            off
        } else {
            len
        };
        let hi: u64 = if off + size64 < len {
            off + size64
        } else {
            len
        };
        let mut rows: Vec<AuditLog> = Vec::new();
        let mut k: u64 = lo;
        while k < hi
            invariant
                lo <= k <= hi,
                hi <= self.audit_log@.len(),
                self.audit_log@.len() <= usize::MAX,
                rows@ == self.audit_log@.subrange(lo as int, k as int),
            decreases hi - k,
        {
            rows.push(clone_audit_entry(&self.audit_log[k as usize]));
            proof {
                assert(rows@ =~= self.audit_log@.subrange(lo as int, k + 1));
            }
            k = k + 1;
        }
        PaginatedAuditLogResult { rows, total: len }
    }
}

/// The page window of the audit listing: like the general one, but
/// a missing size falls back to fifty entries.
pub open spec fn audit_page_window(len: int, page: Option<u32>, page_size: Option<u32>) -> (
    int,
    int,
) {
    let p = (match page {
        Some(v) => v,
        None => 1u32,
    }) as int;
    let size = (match page_size {
        Some(v) => v,
        None => 50u32,
    }) as int;
    let off = (p - 1) * size;
    let lo = if off < len {
        off
    } else {
        len
    };
    let hi = if off + size < len {
        off + size
    } else {
        len
    };
    (lo, hi)
}

} // verus!
