use vstd::prelude::*;

use crate::ledger::{append_audit, audit_appended, find_client, has_client, Ledger};
use crate::model::{clone_opt_string, Client, CreateClientRequest, Error, PaginatedClientsResult,
    UpdateClientRequest, ValidationFault};
use crate::sales::page_window;

verus! {

/// The client rows that do not carry the given id.
pub open spec fn keeps_other_clients(id: Seq<char>) -> spec_fn(Client) -> bool {
    |c: Client| c.id@ != id
}

/// Whether an update request carries no field at all.
pub open spec fn patch_is_empty(req: UpdateClientRequest) -> bool {
    &&& req.name is None
    &&& req.company is None
    &&& req.email is None
    &&& req.phone is None
    &&& req.address is None
    &&& req.notes is None
    &&& req.nif is None
    &&& req.nis is None
    &&& req.rc is None
    &&& req.ai is None
    &&& req.rib is None
}

/// One field of a patch applied: a present value replaces the stored
/// one, an absent value leaves it.
pub open spec fn patched_field(stored: Option<String>, update: Option<String>) -> Option<String> {
    match update {
        Some(v) => Some(v),
        None => stored,
    }
}

/// One client row after a patch is applied: every present field of
/// the request replaces the stored one, every absent field survives,
/// and the update timestamp is stamped.
pub open spec fn client_patched(pre: Client, post: Client, req: UpdateClientRequest, t: u64) -> bool {
    &&& post.id == pre.id
    &&& post.name == (match req.name {
        Some(v) => v,
        None => pre.name,
    })
    &&& post.company == patched_field(pre.company, req.company)
    &&& post.email == patched_field(pre.email, req.email)
    &&& post.phone == patched_field(pre.phone, req.phone)
    &&& post.address == patched_field(pre.address, req.address)
    &&& post.notes == patched_field(pre.notes, req.notes)
    &&& post.nif == patched_field(pre.nif, req.nif)
    &&& post.nis == patched_field(pre.nis, req.nis)
    &&& post.rc == patched_field(pre.rc, req.rc)
    &&& post.ai == patched_field(pre.ai, req.ai)
    &&& post.rib == patched_field(pre.rib, req.rib)
    &&& post.credit_balance == pre.credit_balance
    &&& post.created_at == pre.created_at
    &&& post.updated_at == Some(t)
}

/// The freshly inserted client row built from a create request: the
/// running balance starts at zero.
pub open spec fn client_row_created(
    post: Client,
    req: CreateClientRequest,
    id: Seq<char>,
    t: u64,
) -> bool {
    &&& post.id@ == id
    &&& post.name == req.name
    &&& post.company == req.company
    &&& post.email == req.email
    &&& post.phone == req.phone
    &&& post.address == req.address
    &&& post.notes == req.notes
    &&& post.nif == req.nif
    &&& post.nis == req.nis
    &&& post.rc == req.rc
    &&& post.ai == req.ai
    &&& post.rib == req.rib
    &&& post.credit_balance == 0int
    &&& post.created_at == t
    &&& post.updated_at == Some(t)
}

pub fn clone_client(c: &Client) -> (r: Client)
    ensures
        r == *c,
{
    Client {
        id: c.id.clone(),
        name: c.name.clone(),
        company: clone_opt_string(&c.company),
        email: clone_opt_string(&c.email),
        phone: clone_opt_string(&c.phone),
        address: clone_opt_string(&c.address),
        notes: clone_opt_string(&c.notes),
        nif: clone_opt_string(&c.nif),
        nis: clone_opt_string(&c.nis),
        rc: clone_opt_string(&c.rc),
        ai: clone_opt_string(&c.ai),
        rib: clone_opt_string(&c.rib),
        credit_balance: c.credit_balance,
        created_at: c.created_at,
        updated_at: c.updated_at,
    }
}

fn patch_field(stored: &mut Option<String>, update: &Option<String>)
    ensures
        *final(stored) == patched_field(*old(stored), *update),
{
    match update {
        Some(v) => {
            *stored = Some(v.clone());
        },
        None => {},
    }
}

/// The full effect of recording one client under a given key and
/// timestamp; or the refusal of a taken key, with nothing written.
pub open spec fn create_client_post(
    pre: Ledger,
    post: Ledger,
    client: CreateClientRequest,
    id: Seq<char>,
    r: Result<Client, Error>,
    now: u64,
) -> bool {
    &&& post.sales@ == pre.sales@
    &&& post.invoices@ == pre.invoices@
    &&& post.invoice_sales@ == pre.invoice_sales@
    &&& post.payments@ == pre.payments@
    &&& post.audit_log@ == pre.audit_log@
    &&& match r {
                Ok(row) => {
                    &&& !has_client(pre.clients@, id)
                    &&& post.clients@ == pre.clients@.push(row)
                    &&& client_row_created(row, client, id, now)
                },
                Err(e) => {
                    &&& e == Error::Storage
                    &&& has_client(pre.clients@, id)
                    &&& post.clients@ == pre.clients@
                },
            }
}

/// The full effect of patching one client: every present field of
/// the request replaces the stored one; or the refusal of an empty
/// patch, or the report of a missing key, with nothing written.
pub open spec fn update_client_post(
    pre: Ledger,
    post: Ledger,
    id: Seq<char>,
    client: UpdateClientRequest,
    r: Result<Client, Error>,
    now: u64,
) -> bool {
    &&& post.sales@ == pre.sales@
    &&& post.invoices@ == pre.invoices@
    &&& post.invoice_sales@ == pre.invoice_sales@
    &&& post.payments@ == pre.payments@
    &&& post.audit_log@ == pre.audit_log@
    &&& match r {
                Ok(row) => {
                    &&& !patch_is_empty(client)
                    &&& has_client(pre.clients@, id)
                    &&& post.clients@.len() == pre.clients@.len()
                    &&& forall|j: int|
                        0 <= j < pre.clients@.len() ==> (if pre.clients@[j].id@ == id {
                            client_patched(
                                pre.clients@[j],
                                post.clients@[j],
                                client,
                                now,
                            )
                        } else {
                            post.clients@[j] == pre.clients@[j]
                        })
                    &&& exists|i: int|
                        0 <= i < pre.clients@.len() && pre.clients@[i].id@ == id && (
                        forall|j: int| 0 <= j < i ==> pre.clients@[j].id@ != id)
                            && row == post.clients@[i]
                },
                Err(e) => {
                    &&& post.clients@ == pre.clients@
                    &&& (if patch_is_empty(client) {
                        e == Error::Validation(ValidationFault::NoFieldsToUpdate)
                    } else {
                        e == Error::NotFound && !has_client(pre.clients@, id)
                    })
                },
            }
}

/// The full effect of physically removing one client row, with the
/// audit entry; or the report of a missing key, with nothing
/// written.
pub open spec fn delete_client_post(
    pre: Ledger,
    post: Ledger,
    id: Seq<char>,
    r: Result<(), Error>,
    now: u64,
) -> bool {
    &&& post.sales@ == pre.sales@
    &&& post.invoices@ == pre.invoices@
    &&& post.invoice_sales@ == pre.invoice_sales@
    &&& post.payments@ == pre.payments@
    &&& match r {
                Ok(u) => {
                    &&& has_client(pre.clients@, id)
                    &&& post.clients@ == pre.clients@.filter(keeps_other_clients(id))
                    &&& audit_appended(
                        pre.audit_log@,
                        post.audit_log@,
                        "delete"@,
                        "client"@,
                        id,
                        now,
                        "Client deleted"@,
                    )
                },
                Err(e) => {
                    &&& e == Error::NotFound
                    &&& !has_client(pre.clients@, id)
                    &&& post.clients@ == pre.clients@
                    &&& post.audit_log@ == pre.audit_log@
                },
            }
}

impl Ledger {
    /// Records a new client under the given fresh key and timestamp,
    /// with a zero running balance. A key that is already taken is
    /// refused as a storage fault, with nothing written.
    pub fn create_client_with(&mut self, client: CreateClientRequest, id: String, now: u64) -> (r:
        Result<Client, Error>)
        ensures
            create_client_post(*old(self), *final(self), client, id@, r, now),

    {
        if find_client(&self.clients, &id).is_some() {
            return Err(Error::Storage);
        }
        let row = Client {
            id: id.clone(),
            name: client.name,
            company: client.company,
            email: client.email,
            phone: client.phone,
            address: client.address,
            notes: client.notes,
            nif: client.nif,
            nis: client.nis,
            rc: client.rc,
            ai: client.ai,
            rib: client.rib,
            credit_balance: 0,
            created_at: now,
            updated_at: Some(now),
        };
        let returned = clone_client(&row);
        self.clients.push(row);
        Ok(returned)
    }

    /// Applies a patch to a client: every present field replaces the
    /// stored one, every absent field survives. A patch with no
    /// fields at all is rejected as invalid; an unknown key is
    /// reported as missing; nothing is written either way.
    pub fn update_client_with(&mut self, id: &String, client: UpdateClientRequest, now: u64) -> (r:
        Result<Client, Error>)
        ensures
            update_client_post(*old(self), *final(self), id@, client, r, now),

    {
        let empty: bool = client.name.is_none() && client.company.is_none()
            && client.email.is_none() && client.phone.is_none() && client.address.is_none()
            && client.notes.is_none() && client.nif.is_none() && client.nis.is_none()
            && client.rc.is_none() && client.ai.is_none() && client.rib.is_none();
        if empty {
            return Err(Error::Validation(ValidationFault::NoFieldsToUpdate));
        }
        let first: usize = match find_client(&self.clients, id) {
            Some(i) => i,
            None => {
                return Err(Error::NotFound);
            },
        };
        let ghost pre = self.clients@;
        let n: usize = self.clients.len();
        let mut i: usize = 0;
        while i < n
            invariant
                i <= n,
                n == pre.len(),
                self.clients@.len() == pre.len(),
                pre == old(self).clients@,
                self.sales@ == old(self).sales@,
                self.invoices@ == old(self).invoices@,
                self.invoice_sales@ == old(self).invoice_sales@,
                self.payments@ == old(self).payments@,
                self.audit_log@ == old(self).audit_log@,
                forall|j: int| i <= j < n ==> self.clients@[j] == pre[j],
                forall|j: int|
                    0 <= j < i ==> (if pre[j].id@ == id@ {
                        client_patched(pre[j], self.clients@[j], client, now)
                    } else {
                        self.clients@[j] == pre[j]
                    }),
            decreases n - i,
        {
            if self.clients[i].id == *id {
                if let Some(v) = &client.name {
                    let fresh: String = v.clone();
                    self.clients[i].name = fresh;
                }
                patch_field(&mut self.clients[i].company, &client.company);
                patch_field(&mut self.clients[i].email, &client.email);
                patch_field(&mut self.clients[i].phone, &client.phone);
                patch_field(&mut self.clients[i].address, &client.address);
                patch_field(&mut self.clients[i].notes, &client.notes);
                patch_field(&mut self.clients[i].nif, &client.nif);
                patch_field(&mut self.clients[i].nis, &client.nis);
                patch_field(&mut self.clients[i].rc, &client.rc);
                patch_field(&mut self.clients[i].ai, &client.ai);
                patch_field(&mut self.clients[i].rib, &client.rib);
                self.clients[i].updated_at = Some(now);
            }
            i = i + 1;
        }
        let returned = clone_client(&self.clients[first]);
        proof {
            assert(pre[first as int].id@ == id@);
        }
        Ok(returned)
    }

    /// Reads one client row; an unknown key reads as absent.
    pub fn get_client_by_id(&self, id: &String) -> (r: Option<Client>)
        ensures
            match r {
                Some(c) => exists|i: int|
                    0 <= i < self.clients@.len() && self.clients@[i].id@ == id@ && (forall|j: int|
                        0 <= j < i ==> self.clients@[j].id@ != id@) && c == self.clients@[i],
                None => !has_client(self.clients@, id@),
            },
    {
        match find_client(&self.clients, id) {
            Some(i) => Some(clone_client(&self.clients[i])),
            None => None,
        }
    }

    /// Reads one page of the clients, in storage order, together
    /// with the full count. A missing page or size falls back to the
    /// first page of five rows; the window is clipped to the table.
    pub fn get_clients(&self, page: Option<u32>, page_size: Option<u32>) -> (r:
        PaginatedClientsResult)
        requires
            match page {
                Some(p) => p >= 1,
                None => true,
            },
        ensures
            r.total == self.clients@.len(),
            ({
                let (lo, hi) = page_window(self.clients@.len() as int, page, page_size);
                r.rows@ == self.clients@.subrange(lo, hi)
            }),
    {
        let p64: u64 = match page {
            Some(v) => v as u64,
            None => 1u64,
        };
        let size64: u64 = match page_size {
            Some(v) => v as u64,
            None => 5u64,
        };
        assert((p64 - 1) as int * (size64 as int) <= 0xFFFF_FFFE_0000_0001) by (nonlinear_arith)
            requires
                1 <= p64 <= u32::MAX,
                size64 <= u32::MAX,
        ;
        let off: u64 = (p64 - 1) * size64;
        let len: u64 = self.clients.len() as u64;
        let lo: u64 = if off < len {
            off
        } else {
            len
        };
        let hi: u64 = if off + size64 < len {
            off + size64
        } else {
            len
        };
        let mut rows: Vec<Client> = Vec::new();
        let mut k: u64 = lo;
        while k < hi
            invariant
                lo <= k <= hi,
                hi <= self.clients@.len(),
                self.clients@.len() <= usize::MAX,
                rows@ == self.clients@.subrange(lo as int, k as int),
            decreases hi - k,
        {
            rows.push(clone_client(&self.clients[k as usize]));
            proof {
                assert(rows@ =~= self.clients@.subrange(lo as int, k + 1));
            }
            k = k + 1;
        }
        PaginatedClientsResult { rows, total: len }
    }

    /// Physically removes a client row, recording the removal in the
    /// audit trail. An unknown key is reported as missing.
    pub fn delete_client_at(&mut self, id: &String, now: u64) -> (r: Result<(), Error>)
        requires
            old(self).audit_log@.len() < u64::MAX,
        ensures
            delete_client_post(*old(self), *final(self), id@, r, now),

    {
        if find_client(&self.clients, id).is_none() {
            return Err(Error::NotFound);
        }
        let n: usize = self.clients.len();
        let mut out: Vec<Client> = Vec::new();
        let mut i: usize = 0;
        while i < n
            invariant
                i <= n,
                n == self.clients@.len(),
                self.clients@ == old(self).clients@,
                self.sales@ == old(self).sales@,
                self.invoices@ == old(self).invoices@,
                self.invoice_sales@ == old(self).invoice_sales@,
                self.payments@ == old(self).payments@,
                self.audit_log@ == old(self).audit_log@,
                out@ == self.clients@.take(i as int).filter(keeps_other_clients(id@)),
            decreases n - i,
        {
            proof {
                assert(self.clients@.take(i + 1).drop_last() == self.clients@.take(i as int));
                assert(self.clients@.take(i + 1).last() == self.clients@[i as int]);
                reveal_with_fuel(Seq::filter, 2);
            }
            if !(self.clients[i].id == *id) {
                out.push(clone_client(&self.clients[i]));
            }
            i = i + 1;
        }
        proof {
            assert(self.clients@.take(n as int) == self.clients@);
        }
        self.clients = out;
        append_audit(&mut self.audit_log, "delete", "client", id, "Client deleted", now);
        Ok(())
    }
}


impl Ledger {
    /// Records a new client under a freshly drawn key at the current
    /// time. The drawn key and clock reading are outside influences,
    /// so the contract holds for some key and time; the exact
    /// transition is stated over the keyed operation.
    pub fn create_client(&mut self, client: CreateClientRequest) -> (r: Result<Client, Error>)
        ensures
            exists|key: Seq<char>, t: u64|
                #[trigger] create_client_post(*old(self), *final(self), client, key, r, t),
    {
        let id: String = crate::idgen::new_key();
        let now: u64 = crate::clock::now_millis();
        let ghost key = id@;
        let r = self.create_client_with(client, id, now);
        proof {
            assert(create_client_post(*old(self), *self, client, key, r, now));
        }
        r
    }

    /// Applies a patch to a client at the current time; the clock
    /// reading is an outside influence, so the contract holds for
    /// some time.
    pub fn update_client(&mut self, id: &String, client: UpdateClientRequest) -> (r: Result<
        Client,
        Error,
    >)
        ensures
            exists|t: u64|
                #[trigger] update_client_post(*old(self), *final(self), id@, client, r, t),
    {
        let now: u64 = crate::clock::now_millis();
        let r = self.update_client_with(id, client, now);
        proof {
            assert(update_client_post(*old(self), *self, id@, client, r, now));
        }
        r
    }

    /// Physically removes a client row at the current time; the
    /// clock reading is an outside influence, so the contract holds
    /// for some time.
    pub fn delete_client(&mut self, id: &String) -> (r: Result<(), Error>)
        requires
            old(self).audit_log@.len() < u64::MAX,
        ensures
            exists|t: u64| #[trigger] delete_client_post(*old(self), *final(self), id@, r, t),
    {
        let now: u64 = crate::clock::now_millis();
        let r = self.delete_client_at(id, now);
        proof {
            assert(delete_client_post(*old(self), *self, id@, r, now));
        }
        r
    }
}

} // verus!
