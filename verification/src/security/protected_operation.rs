//! The operations that are guarded by a permission check.

use vstd::prelude::*;

verus! {

#[derive(Debug, Clone, Copy, PartialEq, Eq, Hash, Structural)]
pub enum ProtectedOperation {
    CaseRead,
    CaseCreate,
    CaseUpdate,
    MaterialRead,
    MaterialImport,
    MaterialUpdate,
    ObjectRead,
    ObjectCreate,
    ObjectUpdate,
    RelationRead,
    RelationCreate,
    RelationUpdate,
    TimelineRead,
    TimelineCreate,
    TimelineUpdate,
    ReportDraftRead,
    ReportDraftGenerate,
    ReportDraftUpdate,
    DocxExport,
    BackupRead,
    BackupCreate,
    BackupVerify,
    BackupRestore,
    IntegrityCheckRead,
    IntegrityCheckRun,
    AuditLogRead,
    SettingsRead,
    SettingsUpdate,
    UserManage,
}

/// The stable audit name of an operation: a lowercase, dot-namespaced id.
pub open spec fn action_name_spec(op: ProtectedOperation) -> &'static str {
    match op {
        ProtectedOperation::CaseRead => "case.read",
        ProtectedOperation::CaseCreate => "case.create",
        ProtectedOperation::CaseUpdate => "case.update",
        ProtectedOperation::MaterialRead => "material.read",
        ProtectedOperation::MaterialImport => "material.import",
        ProtectedOperation::MaterialUpdate => "material.update",
        ProtectedOperation::ObjectRead => "object.read",
        ProtectedOperation::ObjectCreate => "object.create",
        ProtectedOperation::ObjectUpdate => "object.update",
        ProtectedOperation::RelationRead => "relation.read",
        ProtectedOperation::RelationCreate => "relation.create",
        ProtectedOperation::RelationUpdate => "relation.update",
        ProtectedOperation::TimelineRead => "timeline.read",
        ProtectedOperation::TimelineCreate => "timeline.create",
        ProtectedOperation::TimelineUpdate => "timeline.update",
        ProtectedOperation::ReportDraftRead => "report.read",
        ProtectedOperation::ReportDraftGenerate => "report.generate",
        ProtectedOperation::ReportDraftUpdate => "report.update",
        ProtectedOperation::DocxExport => "docx.export",
        ProtectedOperation::BackupRead => "backup.read",
        ProtectedOperation::BackupCreate => "backup.create",
        ProtectedOperation::BackupVerify => "backup.verify",
        ProtectedOperation::BackupRestore => "backup.restore",
        ProtectedOperation::IntegrityCheckRead => "integrity.read",
        ProtectedOperation::IntegrityCheckRun => "integrity.run",
        ProtectedOperation::AuditLogRead => "audit.read",
        ProtectedOperation::SettingsRead => "settings.read",
        ProtectedOperation::SettingsUpdate => "settings.update",
        ProtectedOperation::UserManage => "user.manage",
    }
}

/// Every operation, each once, in a fixed order.
pub open spec fn all_operations() -> Seq<ProtectedOperation> {
    seq![
        ProtectedOperation::CaseRead,
        ProtectedOperation::CaseCreate,
        ProtectedOperation::CaseUpdate,
        ProtectedOperation::MaterialRead,
        ProtectedOperation::MaterialImport,
        ProtectedOperation::MaterialUpdate,
        ProtectedOperation::ObjectRead,
        ProtectedOperation::ObjectCreate,
        ProtectedOperation::ObjectUpdate,
        ProtectedOperation::RelationRead,
        ProtectedOperation::RelationCreate,
        ProtectedOperation::RelationUpdate,
        ProtectedOperation::TimelineRead,
        ProtectedOperation::TimelineCreate,
        ProtectedOperation::TimelineUpdate,
        ProtectedOperation::ReportDraftRead,
        ProtectedOperation::ReportDraftGenerate,
        ProtectedOperation::ReportDraftUpdate,
        ProtectedOperation::DocxExport,
        ProtectedOperation::BackupRead,
        ProtectedOperation::BackupCreate,
        ProtectedOperation::BackupVerify,
        ProtectedOperation::BackupRestore,
        ProtectedOperation::IntegrityCheckRead,
        ProtectedOperation::IntegrityCheckRun,
        ProtectedOperation::AuditLogRead,
        ProtectedOperation::SettingsRead,
        ProtectedOperation::SettingsUpdate,
        ProtectedOperation::UserManage
    ]
}

/// The position of an operation in [`all_operations`].
pub open spec fn operation_index(op: ProtectedOperation) -> int {
    match op {
        ProtectedOperation::CaseRead => 0,
        ProtectedOperation::CaseCreate => 1,
        ProtectedOperation::CaseUpdate => 2,
        ProtectedOperation::MaterialRead => 3,
        ProtectedOperation::MaterialImport => 4,
        ProtectedOperation::MaterialUpdate => 5,
        ProtectedOperation::ObjectRead => 6,
        ProtectedOperation::ObjectCreate => 7,
        ProtectedOperation::ObjectUpdate => 8,
        ProtectedOperation::RelationRead => 9,
        ProtectedOperation::RelationCreate => 10,
        ProtectedOperation::RelationUpdate => 11,
        ProtectedOperation::TimelineRead => 12,
        ProtectedOperation::TimelineCreate => 13,
        ProtectedOperation::TimelineUpdate => 14,
        ProtectedOperation::ReportDraftRead => 15,
        ProtectedOperation::ReportDraftGenerate => 16,
        ProtectedOperation::ReportDraftUpdate => 17,
        ProtectedOperation::DocxExport => 18,
        ProtectedOperation::BackupRead => 19,
        ProtectedOperation::BackupCreate => 20,
        ProtectedOperation::BackupVerify => 21,
        ProtectedOperation::BackupRestore => 22,
        ProtectedOperation::IntegrityCheckRead => 23,
        ProtectedOperation::IntegrityCheckRun => 24,
        ProtectedOperation::AuditLogRead => 25,
        ProtectedOperation::SettingsRead => 26,
        ProtectedOperation::SettingsUpdate => 27,
        ProtectedOperation::UserManage => 28,
    }
}

/// Operations that stay available while the application recovers from a restore.
pub open spec fn recovery_allowed_spec(op: ProtectedOperation) -> bool {
    match op {
        ProtectedOperation::BackupRead | ProtectedOperation::BackupVerify | ProtectedOperation::BackupRestore => true,
        _ => false,
    }
}

impl ProtectedOperation {
    pub fn action_name(self) -> (name: &'static str)
        ensures
            name == action_name_spec(self),
            name@.len() > 0,
            name@.contains('.'),
            is_lower_dotted(name@),
    {
        proof {
            lemma_action_names_well_formed(self);
        }
        match self {
            ProtectedOperation::CaseRead => "case.read",
            ProtectedOperation::CaseCreate => "case.create",
            ProtectedOperation::CaseUpdate => "case.update",
            ProtectedOperation::MaterialRead => "material.read",
            ProtectedOperation::MaterialImport => "material.import",
            ProtectedOperation::MaterialUpdate => "material.update",
            ProtectedOperation::ObjectRead => "object.read",
            ProtectedOperation::ObjectCreate => "object.create",
            ProtectedOperation::ObjectUpdate => "object.update",
            ProtectedOperation::RelationRead => "relation.read",
            ProtectedOperation::RelationCreate => "relation.create",
            ProtectedOperation::RelationUpdate => "relation.update",
            ProtectedOperation::TimelineRead => "timeline.read",
            ProtectedOperation::TimelineCreate => "timeline.create",
            ProtectedOperation::TimelineUpdate => "timeline.update",
            ProtectedOperation::ReportDraftRead => "report.read",
            ProtectedOperation::ReportDraftGenerate => "report.generate",
            ProtectedOperation::ReportDraftUpdate => "report.update",
            ProtectedOperation::DocxExport => "docx.export",
            ProtectedOperation::BackupRead => "backup.read",
            ProtectedOperation::BackupCreate => "backup.create",
            ProtectedOperation::BackupVerify => "backup.verify",
            ProtectedOperation::BackupRestore => "backup.restore",
            ProtectedOperation::IntegrityCheckRead => "integrity.read",
            ProtectedOperation::IntegrityCheckRun => "integrity.run",
            ProtectedOperation::AuditLogRead => "audit.read",
            ProtectedOperation::SettingsRead => "settings.read",
            ProtectedOperation::SettingsUpdate => "settings.update",
            ProtectedOperation::UserManage => "user.manage",
        }
    }

    /// The key under which the operation appears in the effective-permissions table.
    pub fn key(self) -> (k: &'static str)
        ensures
            k == action_name_spec(self),
    {
        self.action_name()
    }

    /// Every operation, each once.
    pub fn all() -> (ops: Vec<ProtectedOperation>)
        ensures
            ops@ == all_operations(),
    {
        let v = vec![
            ProtectedOperation::CaseRead,
            ProtectedOperation::CaseCreate,
            ProtectedOperation::CaseUpdate,
            ProtectedOperation::MaterialRead,
            ProtectedOperation::MaterialImport,
            ProtectedOperation::MaterialUpdate,
            ProtectedOperation::ObjectRead,
            ProtectedOperation::ObjectCreate,
            ProtectedOperation::ObjectUpdate,
            ProtectedOperation::RelationRead,
            ProtectedOperation::RelationCreate,
            ProtectedOperation::RelationUpdate,
            ProtectedOperation::TimelineRead,
            ProtectedOperation::TimelineCreate,
            ProtectedOperation::TimelineUpdate,
            ProtectedOperation::ReportDraftRead,
            ProtectedOperation::ReportDraftGenerate,
            ProtectedOperation::ReportDraftUpdate,
            ProtectedOperation::DocxExport,
            ProtectedOperation::BackupRead,
            ProtectedOperation::BackupCreate,
            ProtectedOperation::BackupVerify,
            ProtectedOperation::BackupRestore,
            ProtectedOperation::IntegrityCheckRead,
            ProtectedOperation::IntegrityCheckRun,
            ProtectedOperation::AuditLogRead,
            ProtectedOperation::SettingsRead,
            ProtectedOperation::SettingsUpdate,
            ProtectedOperation::UserManage
        ];
        assert(v@ =~= all_operations());
        v
    }

    /// Whether the operation may run while a restore is being recovered from.
    pub fn is_restore_recovery_allowed(self) -> (b: bool)
        ensures
            b == recovery_allowed_spec(self),
    {
        match self {
            ProtectedOperation::BackupRead | ProtectedOperation::BackupVerify | ProtectedOperation::BackupRestore => true,
            _ => false,
        }
    }
}

/// Lowercase ASCII letters and dots only.
pub open spec fn is_lower_dotted(s: Seq<char>) -> bool {
    forall|i: int| 0 <= i < s.len() ==> (('a' <= #[trigger] s[i] && s[i] <= 'z') || s[i] == '.')
}

/// [`all_operations`] lists every operation exactly once.
pub proof fn lemma_all_operations_complete()
    ensures
        forall|op: ProtectedOperation|
            0 <= #[trigger] operation_index(op) < all_operations().len() && all_operations()[operation_index(op)] == op,
        forall|i: int, j: int|
            0 <= i < all_operations().len() && 0 <= j < all_operations().len() && i != j ==> all_operations()[i]
                != all_operations()[j],
{
    assert forall|i: int, j: int|
        0 <= i < all_operations().len() && 0 <= j < all_operations().len() && i != j implies all_operations()[i]
            != all_operations()[j] by {
        assert(operation_index(all_operations()[i]) == i);
        assert(operation_index(all_operations()[j]) == j);
    }
}

/// Every action name is non-empty, namespaced with a dot, and made of lowercase ASCII letters and dots.
pub proof fn lemma_action_names_well_formed(op: ProtectedOperation)
    ensures
        action_name_spec(op)@.len() > 0,
        action_name_spec(op)@.contains('.'),
        is_lower_dotted(action_name_spec(op)@),
{
    reveal_strlit("case.read");
    reveal_strlit("case.create");
    reveal_strlit("case.update");
    reveal_strlit("material.read");
    reveal_strlit("material.import");
    reveal_strlit("material.update");
    reveal_strlit("object.read");
    reveal_strlit("object.create");
    reveal_strlit("object.update");
    reveal_strlit("relation.read");
    reveal_strlit("relation.create");
    reveal_strlit("relation.update");
    reveal_strlit("timeline.read");
    reveal_strlit("timeline.create");
    reveal_strlit("timeline.update");
    reveal_strlit("report.read");
    reveal_strlit("report.generate");
    reveal_strlit("report.update");
    reveal_strlit("docx.export");
    reveal_strlit("backup.read");
    reveal_strlit("backup.create");
    reveal_strlit("backup.verify");
    reveal_strlit("backup.restore");
    reveal_strlit("integrity.read");
    reveal_strlit("integrity.run");
    reveal_strlit("audit.read");
    reveal_strlit("settings.read");
    reveal_strlit("settings.update");
    reveal_strlit("user.manage");
    let s = action_name_spec(op)@;
    match op {
        ProtectedOperation::CaseRead => { assert(s[4] == '.'); }
        ProtectedOperation::CaseCreate => { assert(s[4] == '.'); }
        ProtectedOperation::CaseUpdate => { assert(s[4] == '.'); }
        ProtectedOperation::MaterialRead => { assert(s[8] == '.'); }
        ProtectedOperation::MaterialImport => { assert(s[8] == '.'); }
        ProtectedOperation::MaterialUpdate => { assert(s[8] == '.'); }
        ProtectedOperation::ObjectRead => { assert(s[6] == '.'); }
        ProtectedOperation::ObjectCreate => { assert(s[6] == '.'); }
        ProtectedOperation::ObjectUpdate => { assert(s[6] == '.'); }
        ProtectedOperation::RelationRead => { assert(s[8] == '.'); }
        ProtectedOperation::RelationCreate => { assert(s[8] == '.'); }
        ProtectedOperation::RelationUpdate => { assert(s[8] == '.'); }
        ProtectedOperation::TimelineRead => { assert(s[8] == '.'); }
        ProtectedOperation::TimelineCreate => { assert(s[8] == '.'); }
        ProtectedOperation::TimelineUpdate => { assert(s[8] == '.'); }
        ProtectedOperation::ReportDraftRead => { assert(s[6] == '.'); }
        ProtectedOperation::ReportDraftGenerate => { assert(s[6] == '.'); }
        ProtectedOperation::ReportDraftUpdate => { assert(s[6] == '.'); }
        ProtectedOperation::DocxExport => { assert(s[4] == '.'); }
        ProtectedOperation::BackupRead => { assert(s[6] == '.'); }
        ProtectedOperation::BackupCreate => { assert(s[6] == '.'); }
        ProtectedOperation::BackupVerify => { assert(s[6] == '.'); }
        ProtectedOperation::BackupRestore => { assert(s[6] == '.'); }
        ProtectedOperation::IntegrityCheckRead => { assert(s[9] == '.'); }
        ProtectedOperation::IntegrityCheckRun => { assert(s[9] == '.'); }
        ProtectedOperation::AuditLogRead => { assert(s[5] == '.'); }
        ProtectedOperation::SettingsRead => { assert(s[8] == '.'); }
        ProtectedOperation::SettingsUpdate => { assert(s[8] == '.'); }
        ProtectedOperation::UserManage => { assert(s[4] == '.'); }
    }
}


/// The length, first character and fourth-last character of a name; they
/// tell every action name apart.
pub open spec fn name_key(s: Seq<char>) -> (nat, char, char) {
    (s.len(), s[0], s[s.len() - 4])
}

pub open spec fn operation_key(op: ProtectedOperation) -> (nat, char, char) {
    match op {
        ProtectedOperation::CaseRead => (9nat, 'c', 'r'),
        ProtectedOperation::CaseCreate => (11nat, 'c', 'e'),
        ProtectedOperation::CaseUpdate => (11nat, 'c', 'd'),
        ProtectedOperation::MaterialRead => (13nat, 'm', 'r'),
        ProtectedOperation::MaterialImport => (15nat, 'm', 'p'),
        ProtectedOperation::MaterialUpdate => (15nat, 'm', 'd'),
        ProtectedOperation::ObjectRead => (11nat, 'o', 'r'),
        ProtectedOperation::ObjectCreate => (13nat, 'o', 'e'),
        ProtectedOperation::ObjectUpdate => (13nat, 'o', 'd'),
        ProtectedOperation::RelationRead => (13nat, 'r', 'r'),
        ProtectedOperation::RelationCreate => (15nat, 'r', 'e'),
        ProtectedOperation::RelationUpdate => (15nat, 'r', 'd'),
        ProtectedOperation::TimelineRead => (13nat, 't', 'r'),
        ProtectedOperation::TimelineCreate => (15nat, 't', 'e'),
        ProtectedOperation::TimelineUpdate => (15nat, 't', 'd'),
        ProtectedOperation::ReportDraftRead => (11nat, 'r', 'r'),
        ProtectedOperation::ReportDraftGenerate => (15nat, 'r', 'r'),
        ProtectedOperation::ReportDraftUpdate => (13nat, 'r', 'd'),
        ProtectedOperation::DocxExport => (11nat, 'd', 'p'),
        ProtectedOperation::BackupRead => (11nat, 'b', 'r'),
        ProtectedOperation::BackupCreate => (13nat, 'b', 'e'),
        ProtectedOperation::BackupVerify => (13nat, 'b', 'r'),
        ProtectedOperation::BackupRestore => (14nat, 'b', 't'),
        ProtectedOperation::IntegrityCheckRead => (14nat, 'i', 'r'),
        ProtectedOperation::IntegrityCheckRun => (13nat, 'i', '.'),
        ProtectedOperation::AuditLogRead => (10nat, 'a', 'r'),
        ProtectedOperation::SettingsRead => (13nat, 's', 'r'),
        ProtectedOperation::SettingsUpdate => (15nat, 's', 'd'),
        ProtectedOperation::UserManage => (11nat, 'u', 'n'),
    }
}

proof fn lemma_name_key(op: ProtectedOperation)
    ensures
        name_key(action_name_spec(op)@) == operation_key(op),
{
    reveal_strlit("case.read");
    reveal_strlit("case.create");
    reveal_strlit("case.update");
    reveal_strlit("material.read");
    reveal_strlit("material.import");
    reveal_strlit("material.update");
    reveal_strlit("object.read");
    reveal_strlit("object.create");
    reveal_strlit("object.update");
    reveal_strlit("relation.read");
    reveal_strlit("relation.create");
    reveal_strlit("relation.update");
    reveal_strlit("timeline.read");
    reveal_strlit("timeline.create");
    reveal_strlit("timeline.update");
    reveal_strlit("report.read");
    reveal_strlit("report.generate");
    reveal_strlit("report.update");
    reveal_strlit("docx.export");
    reveal_strlit("backup.read");
    reveal_strlit("backup.create");
    reveal_strlit("backup.verify");
    reveal_strlit("backup.restore");
    reveal_strlit("integrity.read");
    reveal_strlit("integrity.run");
    reveal_strlit("audit.read");
    reveal_strlit("settings.read");
    reveal_strlit("settings.update");
    reveal_strlit("user.manage");
}

proof fn lemma_operation_key_injective(a: ProtectedOperation, b: ProtectedOperation)
    requires
        a != b,
    ensures
        operation_key(a) != operation_key(b),
{
    match a {
        ProtectedOperation::CaseRead => {},
        ProtectedOperation::CaseCreate => {},
        ProtectedOperation::CaseUpdate => {},
        ProtectedOperation::MaterialRead => {},
        ProtectedOperation::MaterialImport => {},
        ProtectedOperation::MaterialUpdate => {},
        ProtectedOperation::ObjectRead => {},
        ProtectedOperation::ObjectCreate => {},
        ProtectedOperation::ObjectUpdate => {},
        ProtectedOperation::RelationRead => {},
        ProtectedOperation::RelationCreate => {},
        ProtectedOperation::RelationUpdate => {},
        ProtectedOperation::TimelineRead => {},
        ProtectedOperation::TimelineCreate => {},
        ProtectedOperation::TimelineUpdate => {},
        ProtectedOperation::ReportDraftRead => {},
        ProtectedOperation::ReportDraftGenerate => {},
        ProtectedOperation::ReportDraftUpdate => {},
        ProtectedOperation::DocxExport => {},
        ProtectedOperation::BackupRead => {},
        ProtectedOperation::BackupCreate => {},
        ProtectedOperation::BackupVerify => {},
        ProtectedOperation::BackupRestore => {},
        ProtectedOperation::IntegrityCheckRead => {},
        ProtectedOperation::IntegrityCheckRun => {},
        ProtectedOperation::AuditLogRead => {},
        ProtectedOperation::SettingsRead => {},
        ProtectedOperation::SettingsUpdate => {},
        ProtectedOperation::UserManage => {},
    }
}

/// Distinct operations have distinct action names.
pub proof fn lemma_action_names_distinct(a: ProtectedOperation, b: ProtectedOperation)
    requires
        a != b,
    ensures
        action_name_spec(a)@ != action_name_spec(b)@,
{
    lemma_name_key(a);
    lemma_name_key(b);
    lemma_operation_key_injective(a, b);
}

/// The stable action names: every operation's name is non-empty, holds a
/// dot, and is made of lowercase ASCII letters and dots only; two different
/// operations never share a name.
pub proof fn lemma_action_name_law()
    ensures
        forall|op: ProtectedOperation|
            #![trigger action_name_spec(op)]
            action_name_spec(op)@.len() > 0 && action_name_spec(op)@.contains('.') && is_lower_dotted(action_name_spec(op)@),
        forall|a: ProtectedOperation, b: ProtectedOperation|
            #![trigger action_name_spec(a), action_name_spec(b)]
            a != b ==> action_name_spec(a)@ != action_name_spec(b)@,
{
    assert forall|op: ProtectedOperation| #![trigger action_name_spec(op)]
        action_name_spec(op)@.len() > 0 && action_name_spec(op)@.contains('.') && is_lower_dotted(action_name_spec(op)@) by {
        lemma_action_names_well_formed(op);
    }
    assert forall|a: ProtectedOperation, b: ProtectedOperation| #![trigger action_name_spec(a), action_name_spec(b)]
        a != b implies action_name_spec(a)@ != action_name_spec(b)@ by {
        lemma_action_names_distinct(a, b);
    }
}

} // verus!
