//! Backup bookkeeping: identifiers, object keys, and the metadata record and
//! response of a completed backup. Scanning the table and storing the blob are
//! the caller's work.

use vstd::prelude::*;
use crate::clock::Instant;
use crate::text::{owned, push_signed_decimal, signed_decimal};

verus! {

/// A backup request; without a type the backup is `full`.
#[derive(Debug, Clone, PartialEq)]
pub struct Request {
    pub table_name: String,
    pub backup_type: Option<String>,
}

/// The answer to a completed backup.
#[derive(Debug, Clone, PartialEq)]
pub struct Response {
    pub status: String,
    pub backup_id: String,
    pub timestamp: String,
    pub items_backed_up: usize,
}

/// The metadata record written for each backup.
#[derive(Debug, Clone, PartialEq)]
pub struct BackupMetadata {
    pub backup_id: String,
    pub table_name: String,
    pub timestamp: String,
    pub items_count: usize,
    pub status: String,
}

pub open spec fn backup_id_of(table: Seq<char>, kind: Seq<char>, timestamp: int) -> Seq<char> {
    table + "-"@ + kind + "-"@ + signed_decimal(timestamp)
}

/// `<table>-<type>-<timestamp>`.
pub fn generate_backup_id(table_name: &str, backup_type: &str, timestamp: i64) -> (r: String)
    ensures
        r@ == backup_id_of(table_name@, backup_type@, timestamp as int),
{
    let mut id = owned(table_name).concat("-").concat(backup_type).concat("-");
    push_signed_decimal(&mut id, timestamp as i128);
    id
}

/// The requested backup type, `full` when none is given.
pub fn backup_type_of(request: &Request) -> (r: String)
    ensures
        request.backup_type matches Some(t) ==> r@ == t@,
        request.backup_type is None ==> r@ == "full"@,
{
    match &request.backup_type {
        Some(t) => t.clone(),
        None => owned("full"),
    }
}

/// Where the backup blob is stored: `backups/<table>/<id>.json`.
pub fn backup_object_key(table_name: &str, backup_id: &str) -> (r: String)
    ensures
        r@ == "backups/"@ + table_name@ + "/"@ + backup_id@ + ".json"@,
{
    owned("backups/").concat(table_name).concat("/").concat(backup_id).concat(".json")
}

/// The metadata of a completed backup; its timestamp is `now` in seconds, as text.
pub fn completed_metadata(
    backup_id: &str,
    table_name: &str,
    items_count: usize,
    now: &Instant,
) -> (r: BackupMetadata)
    ensures
        r.backup_id@ == backup_id@,
        r.table_name@ == table_name@,
        r.timestamp@ == signed_decimal(now.seconds as int),
        r.items_count == items_count,
        r.status@ == "completed"@,
{
    let mut stamp = owned("");
    proof {
        reveal_strlit("");
    }
    push_signed_decimal(&mut stamp, now.seconds as i128);
    assert(stamp@ =~= signed_decimal(now.seconds as int));
    BackupMetadata {
        backup_id: owned(backup_id),
        table_name: owned(table_name),
        timestamp: stamp,
        items_count,
        status: owned("completed"),
    }
}

/// The response of a completed backup.
pub fn backup_response(backup_id: &str, items_backed_up: usize, now: &Instant) -> (r: Response)
    ensures
        r.status@ == "success"@,
        r.backup_id@ == backup_id@,
        r.timestamp@ == now.rfc3339@,
        r.items_backed_up == items_backed_up,
{
    Response {
        status: owned("success"),
        backup_id: owned(backup_id),
        timestamp: now.rfc3339.clone(),
        items_backed_up,
    }
}

} // verus!
