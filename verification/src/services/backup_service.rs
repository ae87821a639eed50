//! Backups: the requests and answers of the backup commands and the file
//! names backups are written under. Creating a backup needs the
//! `backup.create` permission, restoring one `backup.restore`.

use vstd::prelude::*;
use vstd::string::*;

use crate::security::protected_operation::ProtectedOperation;

verus! {

#[derive(Debug, Clone)]
pub struct CreateBackupPayload {
    pub comment: Option<String>,
    pub include_audit_logs: Option<bool>,
}

#[derive(Debug, Clone)]
pub struct CreateBackupResponse {
    pub backup_id: String,
    pub file_name: String,
    pub file_size_bytes: i64,
    pub created_at: String,
}

#[derive(Debug, Clone)]
pub struct RestoreBackupPayload {
    pub backup_id: String,
}

#[derive(Debug, Clone)]
pub struct RestoreBackupResponse {
    pub success: bool,
    pub restored_at: String,
}

/// The kinds of backup the application writes.
#[derive(Debug, Clone, PartialEq, Eq, Structural)]
pub enum BackupKind {
    /// The whole database.
    Full,
    /// The data of one case.
    Case,
    /// The copy taken right before a restore.
    Safety,
}

/// The file a backup is written to.
pub open spec fn backup_file_name_spec(kind: BackupKind, backup_id: Seq<char>, case_id: Seq<char>) -> Seq<char> {
    match kind {
        BackupKind::Full => "casegraph-backup-"@ + backup_id + ".sqlite"@,
        BackupKind::Case => "casegraph-case-backup-"@ + case_id + "-"@ + backup_id + ".sqlite"@,
        BackupKind::Safety => "casegraph-safety-"@ + backup_id + ".sqlite"@,
    }
}

pub struct BackupService;

impl BackupService {
    /// The permission a backup command needs: restoring (and the safety copy
    /// taken before it) needs `backup.restore`, the others `backup.create`.
    pub fn required_operation(kind: BackupKind, restoring: bool) -> (op: ProtectedOperation)
        ensures
            op == (if restoring || kind == BackupKind::Safety { ProtectedOperation::BackupRestore } else { ProtectedOperation::BackupCreate }),
    {
        if restoring {
            return ProtectedOperation::BackupRestore;
        }
        match kind {
            BackupKind::Safety => ProtectedOperation::BackupRestore,
            _ => ProtectedOperation::BackupCreate,
        }
    }

    /// The file name of a backup; `case_id` is used for case backups only.
    pub fn backup_file_name(kind: &BackupKind, backup_id: &str, case_id: &str) -> (name: String)
        ensures
            name@ == backup_file_name_spec(*kind, backup_id@, case_id@),
    {
        let mut out = String::new();
        match kind {
            BackupKind::Full => {
                out.append("casegraph-backup-");
                out.append(backup_id);
            },
            BackupKind::Case => {
                out.append("casegraph-case-backup-");
                out.append(case_id);
                out.append("-");
                out.append(backup_id);
            },
            BackupKind::Safety => {
                out.append("casegraph-safety-");
                out.append(backup_id);
            },
        }
        out.append(".sqlite");
        proof {
            assert(out@ =~= backup_file_name_spec(*kind, backup_id@, case_id@));
        }
        out
    }

    /// The answer to a backup request: the backup is registered under its
    /// identifier and time; no file is written yet, so its size is 0.
    pub fn backup_response(kind: &BackupKind, backup_id: &str, case_id: &str, created_at: &str) -> (r: CreateBackupResponse)
        ensures
            r.backup_id@ == backup_id@,
            r.file_name@ == backup_file_name_spec(*kind, backup_id@, case_id@),
            r.file_size_bytes == 0,
            r.created_at@ == created_at@,
    {
        CreateBackupResponse {
            backup_id: backup_id.to_owned(),
            file_name: Self::backup_file_name(kind, backup_id, case_id),
            file_size_bytes: 0,
            created_at: created_at.to_owned(),
        }
    }

    /// The answer to a restore request.
    pub fn restore_response(restored_at: &str) -> (r: RestoreBackupResponse)
        ensures
            r.success,
            r.restored_at@ == restored_at@,
    {
        RestoreBackupResponse { success: true, restored_at: restored_at.to_owned() }
    }
}

} // verus!
