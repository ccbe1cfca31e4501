//! The row-building cores of the share interpreters.
//!
//! The interpreters answer SHOW SHARES and DESC SHARE statements. The
//! surrounding program fetches the share metadata from the metadata store
//! and renders timestamps; these functions turn the fetched entries into
//! the output columns, which is the part that computes.

use vstd::prelude::*;
use vstd::string::StringExecFns;

use crate::strings::joined_with;
use crate::strings::string_views;

verus! {

/// The full name of a share: the owning tenant and the share's name.
pub struct ShareNameIdent {
    pub tenant: String,
    pub share_name: String,
}

/// An object a share grants access to: a database, or a table of a
/// database.
pub enum ShareGrantObjectName {
    Database(String),
    Table(String, String),
}

/// One granted object of a share, with the rendered time it was granted.
pub struct ShareGrantReplyObject {
    pub object: ShareGrantObjectName,
    pub grant_on: String,
}

/// One inbound or outbound share account entry, with rendered timestamps.
pub struct ShareAccountReply {
    pub share_name: ShareNameIdent,
    pub create_on: String,
    pub database_name: Option<String>,
    pub comment: Option<String>,
    pub accounts: Option<Vec<String>>,
}

/// The kind column text of a granted object.
pub open spec fn grant_kind_text(o: ShareGrantObjectName) -> Seq<char> {
    match o {
        ShareGrantObjectName::Database(_) => "DATABASE"@,
        ShareGrantObjectName::Table(_, _) => "TABLE"@,
    }
}

/// The name column text of a granted object: the database name, or
/// `database.table`.
pub open spec fn grant_name_text(o: ShareGrantObjectName) -> Seq<char> {
    match o {
        ShareGrantObjectName::Database(db) => db@,
        ShareGrantObjectName::Table(db, table) => db@ + "."@ + table@,
    }
}

/// The text of an optional string, empty when absent.
pub open spec fn option_text(s: Option<String>) -> Seq<char> {
    match s {
        Some(v) => v@,
        None => Seq::<char>::empty(),
    }
}

/// The recipient column text of an outbound entry: its accounts joined
/// with commas, empty when absent.
pub open spec fn accounts_text(accounts: Option<Vec<String>>) -> Seq<char> {
    match accounts {
        Some(v) => joined_with(string_views(v@), ","@),
        None => Seq::<char>::empty(),
    }
}

/// The plan of a DESC SHARE statement: the share to describe.
pub struct DescSharePlan {
    pub share: String,
}

/// The plan of a SHOW SHARES statement.
pub struct ShowSharesPlan {}

/// The output columns of DESC SHARE: one row per granted object.
pub struct DescShareRows {
    pub kinds: Vec<String>,
    pub names: Vec<String>,
    pub shared_ons: Vec<String>,
}

/// The interpreter of a DESC SHARE statement.
pub struct DescShareInterpreter {
    pub tenant: String,
    pub plan: DescSharePlan,
}

impl DescShareInterpreter {
    /// Build the interpreter for one tenant and plan.
    pub fn try_create(tenant: String, plan: DescSharePlan) -> (r: Result<
        DescShareInterpreter,
        crate::functions::ErrorCode,
    >)
        ensures
            match r {
                Ok(i) => i.tenant@ == tenant@ && i.plan.share@ == plan.share@,
                Err(_) => false,
            },
    {
        Ok(DescShareInterpreter { tenant, plan })
    }

    /// The interpreter's name.
    pub fn name(&self) -> (r: &'static str)
        ensures
            r@ == "DescShareInterpreter"@,
    {
        "DescShareInterpreter"
    }

    /// The share identity whose granted objects are to be fetched.
    pub fn share_ident(&self) -> (r: ShareNameIdent)
        ensures
            r.tenant@ == self.tenant@,
            r.share_name@ == self.plan.share@,
    {
        let mut tenant = String::new();
        tenant.append(self.tenant.as_str());
        let mut share_name = String::new();
        share_name.append(self.plan.share.as_str());
        ShareNameIdent { tenant, share_name }
    }

    /// Turn the fetched grant entries into the output columns: the object
    /// kind, the object name and the grant time of each entry, in order.
    pub fn build_rows(&self, objects: &Vec<ShareGrantReplyObject>) -> (r: DescShareRows)
        ensures
            r.kinds@.len() == objects@.len(),
            r.names@.len() == objects@.len(),
            r.shared_ons@.len() == objects@.len(),
            forall|i: int|
                0 <= i < objects@.len() ==> r.kinds@[i]@ == grant_kind_text(
                    #[trigger] objects@[i].object,
                ),
            forall|i: int|
                0 <= i < objects@.len() ==> r.names@[i]@ == grant_name_text(
                    #[trigger] objects@[i].object,
                ),
            forall|i: int| 0 <= i < objects@.len() ==> #[trigger] r.shared_ons@[i]@
                == objects@[i].grant_on@,
    {
        let mut kinds: Vec<String> = Vec::new();
        let mut names: Vec<String> = Vec::new();
        let mut shared_ons: Vec<String> = Vec::new();
        let mut i: usize = 0;
        while i < objects.len()
            invariant
                i <= objects@.len(),
                kinds@.len() == i,
                names@.len() == i,
                shared_ons@.len() == i,
                forall|j: int|
                    0 <= j < i ==> kinds@[j]@ == grant_kind_text(#[trigger] objects@[j].object),
                forall|j: int|
                    0 <= j < i ==> names@[j]@ == grant_name_text(#[trigger] objects@[j].object),
                forall|j: int| 0 <= j < i ==> #[trigger] shared_ons@[j]@ == objects@[j].grant_on@,
            decreases objects@.len() - i,
        {
            let entry = &objects[i];
            match &entry.object {
                ShareGrantObjectName::Database(db) => {
                    let mut kind = String::new();
                    kind.append("DATABASE");
                    kinds.push(kind);
                    let mut name = String::new();
                    name.append(db.as_str());
                    names.push(name);
                }
                ShareGrantObjectName::Table(db, table) => {
                    let mut kind = String::new();
                    kind.append("TABLE");
                    kinds.push(kind);
                    let mut name = String::new();
                    name.append(db.as_str());
                    name.append(".");
                    name.append(table.as_str());
                    names.push(name);
                }
            }
            let mut shared_on = String::new();
            shared_on.append(entry.grant_on.as_str());
            shared_ons.push(shared_on);
            i = i + 1;
        }
        DescShareRows { kinds, names, shared_ons }
    }
}

/// The output columns of SHOW SHARES: one row per inbound entry, then one
/// per outbound entry.
pub struct ShowSharesRows {
    pub names: Vec<String>,
    pub kinds: Vec<String>,
    pub created_ons: Vec<String>,
    pub database_names: Vec<String>,
    pub from: Vec<String>,
    pub to: Vec<String>,
    pub comments: Vec<String>,
}

/// The interpreter of a SHOW SHARES statement.
pub struct ShowSharesInterpreter {
    pub tenant: String,
    pub plan: ShowSharesPlan,
}

/// What one output row of SHOW SHARES holds for an entry: its name, kind
/// text, creation time, database, sharing tenant, recipient text and
/// comment.
pub open spec fn share_row_ok(
    rows: ShowSharesRows,
    i: int,
    entry: ShareAccountReply,
    kind: Seq<char>,
    to: Seq<char>,
) -> bool {
    &&& rows.names@[i]@ == entry.share_name.share_name@
    &&& rows.kinds@[i]@ == kind
    &&& rows.created_ons@[i]@ == entry.create_on@
    &&& rows.database_names@[i]@ == option_text(entry.database_name)
    &&& rows.from@[i]@ == entry.share_name.tenant@
    &&& rows.to@[i]@ == to
    &&& rows.comments@[i]@ == option_text(entry.comment)
}

impl ShowSharesInterpreter {
    /// Build the interpreter for one tenant and plan.
    pub fn try_create(tenant: String, plan: ShowSharesPlan) -> (r: Result<
        ShowSharesInterpreter,
        crate::functions::ErrorCode,
    >)
        ensures
            match r {
                Ok(i) => i.tenant@ == tenant@,
                Err(_) => false,
            },
    {
        Ok(ShowSharesInterpreter { tenant, plan })
    }

    /// The interpreter's name.
    pub fn name(&self) -> (r: &'static str)
        ensures
            r@ == "ShowSharesInterpreter"@,
    {
        "ShowSharesInterpreter"
    }

    /// Turn the fetched inbound and outbound entries into the output
    /// columns: inbound entries first, marked INBOUND and addressed to
    /// this tenant; then outbound entries, marked OUTBOUND and addressed
    /// to their accounts joined with commas.
    pub fn build_rows(
        &self,
        inbound: &Vec<ShareAccountReply>,
        outbound: &Vec<ShareAccountReply>,
    ) -> (r: ShowSharesRows)
        ensures
            r.names@.len() == inbound@.len() + outbound@.len(),
            r.kinds@.len() == inbound@.len() + outbound@.len(),
            r.created_ons@.len() == inbound@.len() + outbound@.len(),
            r.database_names@.len() == inbound@.len() + outbound@.len(),
            r.from@.len() == inbound@.len() + outbound@.len(),
            r.to@.len() == inbound@.len() + outbound@.len(),
            r.comments@.len() == inbound@.len() + outbound@.len(),
            forall|i: int|
                0 <= i < inbound@.len() ==> share_row_ok(
                    r,
                    i,
                    #[trigger] inbound@[i],
                    "INBOUND"@,
                    self.tenant@,
                ),
            forall|i: int|
                0 <= i < outbound@.len() ==> share_row_ok(
                    r,
                    inbound@.len() + i,
                    #[trigger] outbound@[i],
                    "OUTBOUND"@,
                    accounts_text(outbound@[i].accounts),
                ),
    {
        let mut rows = ShowSharesRows {
            names: Vec::new(),
            kinds: Vec::new(),
            created_ons: Vec::new(),
            database_names: Vec::new(),
            from: Vec::new(),
            to: Vec::new(),
            comments: Vec::new(),
        };
        let mut i: usize = 0;
        while i < inbound.len()
            invariant
                i <= inbound@.len(),
                rows.names@.len() == i,
                rows.kinds@.len() == i,
                rows.created_ons@.len() == i,
                rows.database_names@.len() == i,
                rows.from@.len() == i,
                rows.to@.len() == i,
                rows.comments@.len() == i,
                forall|j: int|
                    0 <= j < i ==> share_row_ok(rows, j, #[trigger] inbound@[j], "INBOUND"@, self.tenant@),
            decreases inbound@.len() - i,
        {
            let entry = &inbound[i];
            rows.names.push(clone_string(&entry.share_name.share_name));
            let mut kind = String::new();
            kind.append("INBOUND");
            rows.kinds.push(kind);
            rows.created_ons.push(clone_string(&entry.create_on));
            rows.database_names.push(option_string_or_empty(&entry.database_name));
            rows.from.push(clone_string(&entry.share_name.tenant));
            rows.to.push(clone_string(&self.tenant));
            rows.comments.push(option_string_or_empty(&entry.comment));
            i = i + 1;
        }
        let ghost n = inbound@.len() as int;
        let mut k: usize = 0;
        while k < outbound.len()
            invariant
                k <= outbound@.len(),
                n == inbound@.len(),
                rows.names@.len() == n + k,
                rows.kinds@.len() == n + k,
                rows.created_ons@.len() == n + k,
                rows.database_names@.len() == n + k,
                rows.from@.len() == n + k,
                rows.to@.len() == n + k,
                rows.comments@.len() == n + k,
                forall|j: int|
                    0 <= j < n ==> share_row_ok(rows, j, #[trigger] inbound@[j], "INBOUND"@, self.tenant@),
                forall|j: int|
                    0 <= j < k ==> share_row_ok(
                        rows,
                        n + j,
                        #[trigger] outbound@[j],
                        "OUTBOUND"@,
                        accounts_text(outbound@[j].accounts),
                    ),
            decreases outbound@.len() - k,
        {
            let entry = &outbound[k];
            rows.names.push(clone_string(&entry.share_name.share_name));
            let mut kind = String::new();
            kind.append("OUTBOUND");
            rows.kinds.push(kind);
            rows.created_ons.push(clone_string(&entry.create_on));
            rows.database_names.push(option_string_or_empty(&entry.database_name));
            rows.from.push(clone_string(&entry.share_name.tenant));
            let to = match &entry.accounts {
                Some(accounts) => crate::strings::join_strings(accounts, ","),
                None => String::new(),
            };
            rows.to.push(to);
            rows.comments.push(option_string_or_empty(&entry.comment));
            k = k + 1;
        }
        rows
    }
}

/// A copy of a string with the same characters.
fn clone_string(s: &String) -> (r: String)
    ensures
        r@ == s@,
{
    let mut out = String::new();
    out.append(s.as_str());
    out
}

/// The string itself when present, the empty string when absent.
fn option_string_or_empty(s: &Option<String>) -> (r: String)
    ensures
        r@ == option_text(*s),
{
    match s {
        Some(v) => clone_string(v),
        None => String::new(),
    }
}

} // verus!
