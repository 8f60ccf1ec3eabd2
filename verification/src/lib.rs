//! An invoice, sale and payment reconciliation engine: it keeps a
//! financial ledger consistent under insertion, amount edits,
//! soft-deletion and restoration, recomputing every invoice's paid
//! status from its live payments, cascading soft-deletes across the
//! relationship graph, and refusing destructive operations that
//! would erase the history behind a paid invoice.

pub mod audit;
pub mod clients;
pub mod clock;
pub mod idgen;
pub mod invoices;
pub mod items;
pub mod laws;
pub mod ledger;
pub mod model;
pub mod payments;
pub mod reconcile;
pub mod sales;
