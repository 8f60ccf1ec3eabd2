use vstd::prelude::*;

use crate::model::{AuditLog, Client, Invoice, InvoiceSale, Payment, Sale};

verus! {

/// The in-memory image of the ledger tables. Every operation of the
/// engine works on one value of this type; the storage layer is
/// expected to load rows into it and to persist the whole transition
/// of one operation atomically.
pub struct Ledger {
    pub clients: Vec<Client>,
    pub sales: Vec<Sale>,
    pub invoices: Vec<Invoice>,
    pub invoice_sales: Vec<InvoiceSale>,
    pub payments: Vec<Payment>,
    pub audit_log: Vec<AuditLog>,
}

impl Ledger {
    pub fn new() -> (r: Ledger)
        ensures
            r.clients@ == Seq::<Client>::empty(),
            r.sales@ == Seq::<Sale>::empty(),
            r.invoices@ == Seq::<Invoice>::empty(),
            r.invoice_sales@ == Seq::<InvoiceSale>::empty(),
            r.payments@ == Seq::<Payment>::empty(),
            r.audit_log@ == Seq::<AuditLog>::empty(),
    {
        Ledger {
            clients: Vec::new(),
            sales: Vec::new(),
            invoices: Vec::new(),
            invoice_sales: Vec::new(),
            payments: Vec::new(),
            audit_log: Vec::new(),
        }
    }
}

/// Whether an optional key holds exactly the given id.
pub open spec fn opt_id_is(o: Option<String>, id: Seq<char>) -> bool {
    match o {
        Some(s) => s@ == id,
        None => false,
    }
}

pub open spec fn has_sale(ss: Seq<Sale>, id: Seq<char>) -> bool {
    exists|i: int| 0 <= i < ss.len() && ss[i].id@ == id
}

pub open spec fn has_invoice(vs: Seq<Invoice>, id: Seq<char>) -> bool {
    exists|i: int| 0 <= i < vs.len() && vs[i].id@ == id
}

pub open spec fn has_payment(ps: Seq<Payment>, id: Seq<char>) -> bool {
    exists|i: int| 0 <= i < ps.len() && ps[i].id@ == id
}

pub open spec fn has_client(cs: Seq<Client>, id: Seq<char>) -> bool {
    exists|i: int| 0 <= i < cs.len() && cs[i].id@ == id
}

/// Whether a sale row with this id exists and is not soft-deleted.
pub open spec fn sale_live(ss: Seq<Sale>, id: Seq<char>) -> bool {
    exists|i: int| 0 <= i < ss.len() && ss[i].id@ == id && !ss[i].is_deleted
}

/// Whether the link table holds a membership row for this invoice and
/// sale.
pub open spec fn linked(ls: Seq<InvoiceSale>, invoice_id: Seq<char>, sale_id: Seq<char>) -> bool {
    exists|l: int|
        0 <= l < ls.len() && ls[l].invoice_id@ == invoice_id && ls[l].sale_id@ == sale_id
}

/// Whether the invoice still has at least one member sale that is not
/// soft-deleted, judged by the link table.
pub open spec fn has_live_member(ls: Seq<InvoiceSale>, ss: Seq<Sale>, invoice_id: Seq<char>) -> bool {
    exists|l: int|
        0 <= l < ls.len() && ls[l].invoice_id@ == invoice_id && sale_live(ss, ls[l].sale_id@)
}

/// A sale row with soft-delete stamped on.
pub open spec fn sale_deleted(s: Sale, t: u64) -> Sale {
    Sale { is_deleted: true, deleted_at: Some(t), ..s }
}

/// A sale row with soft-delete cleared.
pub open spec fn sale_restored(s: Sale) -> Sale {
    Sale { is_deleted: false, deleted_at: None, ..s }
}

/// A payment row with soft-delete stamped on.
pub open spec fn payment_deleted(p: Payment, t: u64) -> Payment {
    Payment { is_deleted: true, deleted_at: Some(t), ..p }
}

/// A payment row with soft-delete cleared.
pub open spec fn payment_restored(p: Payment) -> Payment {
    Payment { is_deleted: false, deleted_at: None, ..p }
}

/// An invoice row with soft-delete stamped on.
pub open spec fn invoice_deleted(v: Invoice, t: u64) -> Invoice {
    Invoice { is_deleted: true, deleted_at: Some(t), ..v }
}

/// An invoice row with soft-delete cleared.
pub open spec fn invoice_restored(v: Invoice) -> Invoice {
    Invoice { is_deleted: false, deleted_at: None, ..v }
}

/// An invoice row with its derived payment status replaced.
pub open spec fn invoice_status(v: Invoice, is_paid: bool, paid_at: Option<u64>) -> Invoice {
    Invoice { is_paid, paid_at, ..v }
}

/// The audit trail grew by exactly one entry with the given content,
/// numbered after the previous tail.
pub open spec fn audit_appended(
    pre: Seq<AuditLog>,
    post: Seq<AuditLog>,
    action: Seq<char>,
    entity_type: Seq<char>,
    entity_id: Seq<char>,
    t: u64,
    details: Seq<char>,
) -> bool {
    &&& post.len() == pre.len() + 1
    &&& forall|j: int| 0 <= j < pre.len() ==> post[j] == pre[j]
    &&& post.last().id == pre.len()
    &&& post.last().action@ == action
    &&& post.last().entity_type@ == entity_type
    &&& post.last().entity_id@ == entity_id
    &&& post.last().user_id is None
    &&& post.last().timestamp == t
    &&& match post.last().details {
        Some(d) => d@ == details,
        None => false,
    }
}

/// Appends one entry to the audit trail, numbering it after the
/// current tail. Mirrors the side-effect sink of every delete and
/// restore operation.
pub fn append_audit(
    log: &mut Vec<AuditLog>,
    action: &str,
    entity_type: &str,
    entity_id: &String,
    details: &str,
    t: u64,
) -> (r: ())
    requires
        old(log)@.len() < u64::MAX,
    ensures
        audit_appended(old(log)@, final(log)@, action@, entity_type@, entity_id@, t, details@),
{
    let id: u64 = log.len() as u64;
    let entry = AuditLog {
        id,
        action: String::from_str(action),
        entity_type: String::from_str(entity_type),
        entity_id: entity_id.clone(),
        user_id: None,
        timestamp: t,
        details: Some(String::from_str(details)),
    };
    log.push(entry);
}

/// Finds the first sale row with this id.
pub fn find_sale(ss: &Vec<Sale>, id: &String) -> (r: Option<usize>)
    ensures
        match r {
            Some(i) => i < ss@.len() && ss@[i as int].id@ == id@ && forall|j: int|
                0 <= j < i ==> ss@[j].id@ != id@,
            None => !has_sale(ss@, id@),
        },
{
    let n: usize = ss.len();
    let mut i: usize = 0;
    while i < n
        invariant
            i <= n,
            n == ss@.len(),
            forall|j: int| 0 <= j < i ==> ss@[j].id@ != id@,
        decreases n - i,
    {
        if ss[i].id == *id {
            return Some(i);
        }
        i = i + 1;
    }
    None
}

/// Finds the first invoice row with this id.
pub fn find_invoice(vs: &Vec<Invoice>, id: &String) -> (r: Option<usize>)
    ensures
        match r {
            Some(i) => i < vs@.len() && vs@[i as int].id@ == id@ && forall|j: int|
                0 <= j < i ==> vs@[j].id@ != id@,
            None => !has_invoice(vs@, id@),
        },
{
    let n: usize = vs.len();
    let mut i: usize = 0;
    while i < n
        invariant
            i <= n,
            n == vs@.len(),
            forall|j: int| 0 <= j < i ==> vs@[j].id@ != id@,
        decreases n - i,
    {
        if vs[i].id == *id {
            return Some(i);
        }
        i = i + 1;
    }
    None
}

/// Finds the first payment row with this id.
pub fn find_payment(ps: &Vec<Payment>, id: &String) -> (r: Option<usize>)
    ensures
        match r {
            Some(i) => i < ps@.len() && ps@[i as int].id@ == id@ && forall|j: int|
                0 <= j < i ==> ps@[j].id@ != id@,
            None => !has_payment(ps@, id@),
        },
{
    let n: usize = ps.len();
    let mut i: usize = 0;
    while i < n
        invariant
            i <= n,
            n == ps@.len(),
            forall|j: int| 0 <= j < i ==> ps@[j].id@ != id@,
        decreases n - i,
    {
        if ps[i].id == *id {
            return Some(i);
        }
        i = i + 1;
    }
    None
}

/// Finds the first client row with this id.
pub fn find_client(cs: &Vec<Client>, id: &String) -> (r: Option<usize>)
    ensures
        match r {
            Some(i) => i < cs@.len() && cs@[i as int].id@ == id@ && forall|j: int|
                0 <= j < i ==> cs@[j].id@ != id@,
            None => !has_client(cs@, id@),
        },
{
    let n: usize = cs.len();
    let mut i: usize = 0;
    while i < n
        invariant
            i <= n,
            n == cs@.len(),
            forall|j: int| 0 <= j < i ==> cs@[j].id@ != id@,
        decreases n - i,
    {
        if cs[i].id == *id {
            return Some(i);
        }
        i = i + 1;
    }
    None
}

/// Whether any sale row with this id exists and is not soft-deleted.
pub fn sale_is_live(ss: &Vec<Sale>, id: &String) -> (r: bool)
    ensures
        r == sale_live(ss@, id@),
{
    let n: usize = ss.len();
    let mut i: usize = 0;
    while i < n
        invariant
            i <= n,
            n == ss@.len(),
            forall|j: int| 0 <= j < i ==> !(ss@[j].id@ == id@ && !ss@[j].is_deleted),
        decreases n - i,
    {
        if ss[i].id == *id && !ss[i].is_deleted {
            return true;
        }
        i = i + 1;
    }
    false
}

/// Soft-deletes every sale row with this id, exactly as a keyed
/// UPDATE would.
pub fn mark_sales_deleted(ss: &mut Vec<Sale>, id: &String, t: u64)
    ensures
        final(ss)@.len() == old(ss)@.len(),
        forall|j: int|
            0 <= j < old(ss)@.len() ==> final(ss)@[j] == (if old(ss)@[j].id@ == id@ {
                sale_deleted(old(ss)@[j], t)
            } else {
                old(ss)@[j]
            }),
{
    let n: usize = ss.len();
    let mut i: usize = 0;
    while i < n
        invariant
            i <= n,
            n == ss@.len(),
            forall|j: int|
                i <= j < n ==> ss@[j] == old(ss)@[j],
            forall|j: int|
                0 <= j < i ==> ss@[j] == (if old(ss)@[j].id@ == id@ {
                    sale_deleted(old(ss)@[j], t)
                } else {
                    old(ss)@[j]
                }),
        decreases n - i,
    {
        if ss[i].id == *id {
            let row = &mut ss[i];
            row.is_deleted = true;
            row.deleted_at = Some(t);
        }
        i = i + 1;
    }
}

/// Clears soft-delete on every sale row with this id.
pub fn mark_sales_restored(ss: &mut Vec<Sale>, id: &String)
    ensures
        final(ss)@.len() == old(ss)@.len(),
        forall|j: int|
            0 <= j < old(ss)@.len() ==> final(ss)@[j] == (if old(ss)@[j].id@ == id@ {
                sale_restored(old(ss)@[j])
            } else {
                old(ss)@[j]
            }),
{
    let n: usize = ss.len();
    let mut i: usize = 0;
    while i < n
        invariant
            i <= n,
            n == ss@.len(),
            forall|j: int|
                i <= j < n ==> ss@[j] == old(ss)@[j],
            forall|j: int|
                0 <= j < i ==> ss@[j] == (if old(ss)@[j].id@ == id@ {
                    sale_restored(old(ss)@[j])
                } else {
                    old(ss)@[j]
                }),
        decreases n - i,
    {
        if ss[i].id == *id {
            let row = &mut ss[i];
            row.is_deleted = false;
            row.deleted_at = None;
        }
        i = i + 1;
    }
}

/// Soft-deletes every payment row attached to this sale.
pub fn mark_sale_payments_deleted(ps: &mut Vec<Payment>, sale_id: &String, t: u64)
    ensures
        final(ps)@.len() == old(ps)@.len(),
        forall|j: int|
            0 <= j < old(ps)@.len() ==> final(ps)@[j] == (if opt_id_is(
                old(ps)@[j].sale_id,
                sale_id@,
            ) {
                payment_deleted(old(ps)@[j], t)
            } else {
                old(ps)@[j]
            }),
{
    let n: usize = ps.len();
    let mut i: usize = 0;
    while i < n
        invariant
            i <= n,
            n == ps@.len(),
            forall|j: int|
                i <= j < n ==> ps@[j] == old(ps)@[j],
            forall|j: int|
                0 <= j < i ==> ps@[j] == (if opt_id_is(old(ps)@[j].sale_id, sale_id@) {
                    payment_deleted(old(ps)@[j], t)
                } else {
                    old(ps)@[j]
                }),
        decreases n - i,
    {
        let matches: bool = match &ps[i].sale_id {
            Some(s) => *s == *sale_id,
            None => false,
        };
        if matches {
            let row = &mut ps[i];
            row.is_deleted = true;
            row.deleted_at = Some(t);
        }
        i = i + 1;
    }
}

/// Clears soft-delete on every payment row attached to this sale.
pub fn mark_sale_payments_restored(ps: &mut Vec<Payment>, sale_id: &String)
    ensures
        final(ps)@.len() == old(ps)@.len(),
        forall|j: int|
            0 <= j < old(ps)@.len() ==> final(ps)@[j] == (if opt_id_is(
                old(ps)@[j].sale_id,
                sale_id@,
            ) {
                payment_restored(old(ps)@[j])
            } else {
                old(ps)@[j]
            }),
{
    let n: usize = ps.len();
    let mut i: usize = 0;
    while i < n
        invariant
            i <= n,
            n == ps@.len(),
            forall|j: int|
                i <= j < n ==> ps@[j] == old(ps)@[j],
            forall|j: int|
                0 <= j < i ==> ps@[j] == (if opt_id_is(old(ps)@[j].sale_id, sale_id@) {
                    payment_restored(old(ps)@[j])
                } else {
                    old(ps)@[j]
                }),
        decreases n - i,
    {
        let matches: bool = match &ps[i].sale_id {
            Some(s) => *s == *sale_id,
            None => false,
        };
        if matches {
            let row = &mut ps[i];
            row.is_deleted = false;
            row.deleted_at = None;
        }
        i = i + 1;
    }
}

/// Keeps the membership rows that do not belong to the given sale.
pub open spec fn keeps_other_sales(sale_id: Seq<char>) -> spec_fn(InvoiceSale) -> bool {
    |l: InvoiceSale| l.sale_id@ != sale_id
}

/// Removes every membership row of this sale from the link table;
/// membership is structural and is not soft-deleted.
pub fn remove_sale_links(ls: &mut Vec<InvoiceSale>, sale_id: &String)
    ensures
        final(ls)@ == old(ls)@.filter(keeps_other_sales(sale_id@)),
{
    let n: usize = ls.len();
    let mut out: Vec<InvoiceSale> = Vec::new();
    let mut i: usize = 0;
    while i < n
        invariant
            i <= n,
            n == ls@.len(),
            ls@ == old(ls)@,
            out@ == ls@.take(i as int).filter(keeps_other_sales(sale_id@)),
        decreases n - i,
    {
        proof {
            assert(ls@.take(i + 1).drop_last() == ls@.take(i as int));
            assert(ls@.take(i + 1).last() == ls@[i as int]);
            reveal_with_fuel(Seq::filter, 2);
        }
        if !(ls[i].sale_id == *sale_id) {
            let row = InvoiceSale {
                invoice_id: ls[i].invoice_id.clone(),
                sale_id: ls[i].sale_id.clone(),
                created_at: ls[i].created_at,
            };
            out.push(row);
        }
        i = i + 1;
    }
    proof {
        assert(ls@.take(n as int) == ls@);
    }
    *ls = out;
}

} // verus!
