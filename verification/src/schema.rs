//! The findings of a schema check, which compares a model with its table,
//! and the rule that tells the findings worth reporting from the
//! differences that only come from how the database names its column types.

use crate::db_error::{DbError, DbResult};
use crate::outside::{displays_as, same_text};
use vstd::prelude::*;

verus! {

/// How much a finding matters.
#[derive(Clone, Copy, Debug, PartialEq, Eq, Structural)]
pub enum IssueLevel {
    /// The model cannot be used.
    Critical,
    /// A query may fail on some data.
    High,
    /// Writing records may fail.
    Medium,
    /// Only useful to know.
    Low,
}

/// A column that one side has and the other lacks.
#[derive(Debug, PartialEq, Eq)]
pub struct MissingColumn {
    pub column: String,
    pub ty: String,
    pub nullable: bool,
}

/// A column that both sides have and describe differently.
#[derive(Debug, PartialEq, Eq)]
pub struct ColumnDiff {
    pub column: String,
    /// The column type as the database names it.
    pub db_type: String,
    pub db_nullable: bool,
    /// The type of the model's field.
    pub welds_type: String,
    pub welds_nullable: bool,
    pub type_changed: bool,
}

/// What a finding is about.
#[derive(Debug, PartialEq, Eq)]
pub enum IssueKind {
    /// The database has no such table.
    MissingTable,
    /// The database has a column that the model lacks.
    InDbNotModel(MissingColumn),
    /// The model has a field that the database lacks.
    OnModelNotDb(MissingColumn),
    /// The column differs between the model and the database.
    Changed(ColumnDiff),
}

/// One finding of a schema check.
#[derive(Debug, PartialEq, Eq)]
pub struct SchemaIssue {
    /// The schema of the table, where it has one.
    pub schema: Option<String>,
    pub table: String,
    pub level: IssueLevel,
    pub kind: IssueKind,
}

impl Clone for MissingColumn {
    /// A copy that holds what `self` holds.
    fn clone(&self) -> (r: MissingColumn)
        ensures
            r == *self,
    {
        MissingColumn { column: self.column.clone(), ty: self.ty.clone(), nullable: self.nullable }
    }
}

impl Clone for ColumnDiff {
    /// A copy that holds what `self` holds.
    fn clone(&self) -> (r: ColumnDiff)
        ensures
            r == *self,
    {
        ColumnDiff {
            column: self.column.clone(),
            db_type: self.db_type.clone(),
            db_nullable: self.db_nullable,
            welds_type: self.welds_type.clone(),
            welds_nullable: self.welds_nullable,
            type_changed: self.type_changed,
        }
    }
}

impl Clone for IssueKind {
    /// A copy that holds what `self` holds.
    fn clone(&self) -> (r: IssueKind)
        ensures
            r == *self,
    {
        match self {
            IssueKind::MissingTable => IssueKind::MissingTable,
            IssueKind::InDbNotModel(missing) => IssueKind::InDbNotModel(missing.clone()),
            IssueKind::OnModelNotDb(missing) => IssueKind::OnModelNotDb(missing.clone()),
            IssueKind::Changed(diff) => IssueKind::Changed(diff.clone()),
        }
    }
}

impl Clone for SchemaIssue {
    /// A copy that holds what `self` holds.
    fn clone(&self) -> (r: SchemaIssue)
        ensures
            r == *self,
    {
        let schema = match &self.schema {
            Some(name) => Some(name.clone()),
            None => None,
        };
        SchemaIssue {
            schema,
            table: self.table.clone(),
            level: self.level,
            kind: self.kind.clone(),
        }
    }
}

/// The field types that a `TEXT` column stores.
pub open spec fn text_types() -> Seq<Seq<char>> {
    seq!["DateTime<Utc>"@, "NaiveDate"@]
}

/// The field types that an `INTEGER` column stores.
pub open spec fn integer_types() -> Seq<Seq<char>> {
    seq![
        "bool"@,
        "i16"@,
        "i32"@,
        "i64"@,
        "i8"@,
        "u16"@,
        "u32"@,
        "u8"@,
        "ActorType"@,
        "AssetType"@,
        "AuthTokenType"@,
        "ExchangeableType"@,
        "UsernameStatus"@,
        "TaggableType"@,
        "TagStatus"@,
        "UserRegistrationStatus"@,
        "VerificationType"@,
        "SetterType"@,
    ]
}

/// The field types that a `BLOB` column stores.
pub open spec fn blob_types() -> Seq<Seq<char>> {
    seq!["i128"@, "U64"@, "I128"@, "U128"@, "U64F64"@, "I64F64"@]
}

/// Whether a difference between a column of type `db_type` and a field of
/// type `welds_type` is worth reporting. A difference in nullability always
/// is. Otherwise a column of one of the three storage types is reported
/// unless it stores the field's type, and a column of any other type always.
pub open spec fn diff_is_reported(
    db_type: Seq<char>,
    db_nullable: bool,
    welds_type: Seq<char>,
    welds_nullable: bool,
) -> bool {
    if db_nullable != welds_nullable {
        true
    } else if db_type == "TEXT"@ {
        !text_types().contains(welds_type)
    } else if db_type == "INTEGER"@ {
        !integer_types().contains(welds_type)
    } else if db_type == "BLOB"@ {
        !blob_types().contains(welds_type)
    } else {
        true
    }
}

fn stored_as_text(welds_type: &str) -> (r: bool)
    ensures
        r == text_types().contains(welds_type@),
{
    let r = same_text(welds_type, "DateTime<Utc>") || same_text(welds_type, "NaiveDate");
    proof {
        let known = text_types();
        if r {
            assert(known[0] == welds_type@ || known[1] == welds_type@);
        }
    }
    r
}

fn stored_as_integer(welds_type: &str) -> (r: bool)
    ensures
        r == integer_types().contains(welds_type@),
{
    let r = same_text(welds_type, "bool") || same_text(welds_type, "i16") || same_text(
        welds_type,
        "i32",
    ) || same_text(welds_type, "i64") || same_text(welds_type, "i8") || same_text(
        welds_type,
        "u16",
    ) || same_text(welds_type, "u32") || same_text(welds_type, "u8") || same_text(
        welds_type,
        "ActorType",
    ) || same_text(welds_type, "AssetType") || same_text(welds_type, "AuthTokenType")
        || same_text(welds_type, "ExchangeableType") || same_text(welds_type, "UsernameStatus")
        || same_text(welds_type, "TaggableType") || same_text(welds_type, "TagStatus")
        || same_text(welds_type, "UserRegistrationStatus") || same_text(
        welds_type,
        "VerificationType",
    ) || same_text(welds_type, "SetterType");
    proof {
        let known = integer_types();
        if r {
            assert(exists|i: int| 0 <= i < 18 && known[i] == welds_type@) by {
                if known[0] == welds_type@ {
                } else if known[1] == welds_type@ {
                } else if known[2] == welds_type@ {
                } else if known[3] == welds_type@ {
                } else if known[4] == welds_type@ {
                } else if known[5] == welds_type@ {
                } else if known[6] == welds_type@ {
                } else if known[7] == welds_type@ {
                } else if known[8] == welds_type@ {
                } else if known[9] == welds_type@ {
                } else if known[10] == welds_type@ {
                } else if known[11] == welds_type@ {
                } else if known[12] == welds_type@ {
                } else if known[13] == welds_type@ {
                } else if known[14] == welds_type@ {
                } else if known[15] == welds_type@ {
                } else if known[16] == welds_type@ {
                } else {
                    assert(known[17] == welds_type@);
                }
            }
        }
    }
    r
}

fn stored_as_blob(welds_type: &str) -> (r: bool)
    ensures
        r == blob_types().contains(welds_type@),
{
    let r = same_text(welds_type, "i128") || same_text(welds_type, "U64") || same_text(
        welds_type,
        "I128",
    ) || same_text(welds_type, "U128") || same_text(welds_type, "U64F64") || same_text(
        welds_type,
        "I64F64",
    );
    proof {
        let known = blob_types();
        if r {
            assert(exists|i: int| 0 <= i < 6 && known[i] == welds_type@) by {
                if known[0] == welds_type@ {
                } else if known[1] == welds_type@ {
                } else if known[2] == welds_type@ {
                } else if known[3] == welds_type@ {
                } else if known[4] == welds_type@ {
                } else {
                    assert(known[5] == welds_type@);
                }
            }
        }
    }
    r
}

impl ColumnDiff {
    /// Whether the difference is worth reporting.
    pub open spec fn reported(self) -> bool {
        diff_is_reported(self.db_type@, self.db_nullable, self.welds_type@, self.welds_nullable)
    }

    /// Whether the difference is worth reporting.
    pub fn is_reported(&self) -> (r: bool)
        ensures
            r == self.reported(),
    {
        let db_type = self.db_type.as_str();
        let welds_type = self.welds_type.as_str();
        if self.db_nullable != self.welds_nullable {
            true
        } else if same_text(db_type, "TEXT") {
            !stored_as_text(welds_type)
        } else if same_text(db_type, "INTEGER") {
            !stored_as_integer(welds_type)
        } else if same_text(db_type, "BLOB") {
            !stored_as_blob(welds_type)
        } else {
            true
        }
    }
}

impl SchemaIssue {
    /// Whether the finding is worth reporting: a changed column by the rule
    /// for differences, and every other finding always.
    pub open spec fn reported(self) -> bool {
        match self.kind {
            IssueKind::Changed(diff) => diff.reported(),
            _ => true,
        }
    }

    /// Whether the finding is worth reporting.
    pub fn is_reported(&self) -> (r: bool)
        ensures
            r == self.reported(),
    {
        match &self.kind {
            IssueKind::Changed(diff) => diff.is_reported(),
            _ => true,
        }
    }
}

/// The findings worth reporting among `found`, in the order in which they
/// were found.
pub open spec fn reported_among(found: Seq<SchemaIssue>) -> Seq<SchemaIssue> {
    found.filter(|issue: SchemaIssue| issue.reported())
}

/// The findings worth reporting among `found`, in the order in which they
/// were found.
pub fn reported_issues(found: Vec<SchemaIssue>) -> (kept: Vec<SchemaIssue>)
    ensures
        kept@ == reported_among(found@),
{
    let ghost all = found@;
    let mut kept: Vec<SchemaIssue> = Vec::new();
    proof {
        assert(all.take(0) =~= Seq::<SchemaIssue>::empty());
    }
    for issue in iter: found
        invariant
            iter.seq() == all,
            kept@ == reported_among(all.take(iter.index() as int)),
    {
        proof {
            let n = iter.index() as int;
            assert(all.take(n + 1) =~= all.take(n).push(issue));
            all.take(n).lemma_filter_push(issue, |issue: SchemaIssue| issue.reported());
        }
        if issue.is_reported() {
            kept.push(issue);
        }
    }
    proof {
        assert(all.take(all.len() as int) =~= all);
    }
    kept
}

/// What a schema check reports: the findings worth reporting where the
/// check ran, the failure of the storage layer where it did not.
pub fn get_schema_issues(checked: Result<Vec<SchemaIssue>, welds::WeldsError>) -> (r: DbResult<
    Vec<SchemaIssue>,
>)
    ensures
        match checked {
            Ok(found) => r matches Ok(kept) && kept@ == reported_among(found@),
            Err(failure) => r matches Err(DbError::Welds(m)) && displays_as(failure, m@),
        },
{
    match checked {
        Ok(found) => Ok(reported_issues(found)),
        Err(failure) => Err(DbError::from_welds_error(failure)),
    }
}

} // verus!
