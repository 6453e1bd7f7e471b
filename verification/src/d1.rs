//! The D1 key/value core: SQL statement building and request planning
//! for the Cloudflare D1 query endpoint.

use vstd::prelude::*;

use crate::backend::HttpClient;
use crate::error::Error;
use crate::error::ErrorKind;
use crate::text::format_i64;
use crate::text::percent_encode_path;
use crate::text::spec_all_seven_bit;
use crate::text::spec_percent_encode;
use crate::text::spec_renders_i64;

verus! {

/// One bound parameter of a D1 statement.
#[derive(Clone, Debug, PartialEq, Eq)]
pub enum D1Param {
    Text(String),
    Blob(Vec<u8>),
}

/// A planned D1 query request: the endpoint URL, the bearer
/// authorization to attach, and the statement with its parameters.
#[derive(Clone, Debug, PartialEq, Eq)]
pub struct D1RequestPlan {
    pub url: String,
    pub authorization: Option<String>,
    pub sql: String,
    pub params: Vec<D1Param>,
}

/// A D1-backed key/value table: coordinates of the database and the
/// columns holding keys and values.
pub struct D1Core {
    pub authorization: Option<String>,
    pub account_id: String,
    pub database_id: String,
    pub client: HttpClient,
    pub table: String,
    pub key_field: String,
    pub value_field: String,
}

impl D1Core {
    /// Plan a query request: the account and database ride
    /// percent-encoded in the endpoint path. Identifiers beyond
    /// seven-bit text are refused before any request exists.
    pub fn create_d1_query_request(&self, sql: &str, params: Vec<D1Param>) -> (r: Result<
        D1RequestPlan,
        Error,
    >)
        ensures
            ({
                let p = "/accounts/"@ + self.account_id@ + "/d1/database/"@ + self.database_id@
                    + "/query"@;
                if spec_all_seven_bit(p) {
                    r matches Ok(plan) && plan.url@ == "https://api.cloudflare.com/client/v4"@
                        + spec_percent_encode(p) && (match (plan.authorization, self.authorization) {
                        (Some(a), Some(b)) => a@ == b@,
                        (None, None) => true,
                        _ => false,
                    }) && plan.sql@ == sql@ && plan.params == params
                } else {
                    r matches Err(e) && e.kind == ErrorKind::ConfigInvalid
                }
            }),
    {
        let mut p = "/accounts/".to_owned();
        p.append(self.account_id.as_str());
        p.append("/d1/database/");
        p.append(self.database_id.as_str());
        p.append("/query");
        let encoded = match percent_encode_path(p.as_str()) {
            Some(encoded) => encoded,
            None => {
                return Err(
                    Error::new(
                        ErrorKind::ConfigInvalid,
                        "account or database identifier is not seven-bit text".to_owned(),
                    ),
                );
            },
        };
        let mut url = "https://api.cloudflare.com/client/v4".to_owned();
        url.append(encoded.as_str());
        let authorization = match &self.authorization {
            Some(a) => Some(a.clone()),
            None => None,
        };
        Ok(D1RequestPlan { url, authorization, sql: sql.to_owned(), params })
    }

    /// The statement that reads one value by key.
    pub fn get_query(&self) -> (r: String)
        ensures
            r@ == "SELECT "@ + self.value_field@ + " FROM "@ + self.table@ + " WHERE "@
                + self.key_field@ + " = ? LIMIT 1"@,
    {
        let mut q = "SELECT ".to_owned();
        q.append(self.value_field.as_str());
        q.append(" FROM ");
        q.append(self.table.as_str());
        q.append(" WHERE ");
        q.append(self.key_field.as_str());
        q.append(" = ? LIMIT 1");
        q
    }

    /// The statement that reads a bounded slice of values by key; the
    /// bounds ride as signed decimal text.
    pub fn get_range_query(&self, start: i64, limit: i64) -> (r: String)
        ensures
            ({
                exists|ls: Seq<char>, ss: Seq<char>|
                    {
                        &&& r@ == "SELECT "@ + self.value_field@ + " FROM "@ + self.table@
                            + " WHERE "@ + self.key_field@ + " = ? LIMIT "@ + ls + " OFFSET "@
                            + ss
                        &&& spec_renders_i64(ls, limit as int)
                        &&& spec_renders_i64(ss, start as int)
                    }
            }),
    {
        let limit_text = format_i64(limit);
        let start_text = format_i64(start);
        let mut q = "SELECT ".to_owned();
        q.append(self.value_field.as_str());
        q.append(" FROM ");
        q.append(self.table.as_str());
        q.append(" WHERE ");
        q.append(self.key_field.as_str());
        q.append(" = ? LIMIT ");
        q.append(limit_text.as_str());
        q.append(" OFFSET ");
        q.append(start_text.as_str());
        proof {
            assert(spec_renders_i64(limit_text@, limit as int));
            assert(spec_renders_i64(start_text@, start as int));
        }
        q
    }

    /// The statement that stores one value under a key, replacing a
    /// previous one.
    pub fn set_query(&self) -> (r: String)
        ensures
            r@ == "INSERT INTO "@ + self.table@ + " ("@ + self.key_field@ + ", "@
                + self.value_field@ + ") VALUES (?, ?) ON CONFLICT ("@ + self.key_field@
                + ") DO UPDATE SET "@ + self.value_field@ + " = EXCLUDED."@ + self.value_field@,
    {
        let mut q = "INSERT INTO ".to_owned();
        q.append(self.table.as_str());
        q.append(" (");
        q.append(self.key_field.as_str());
        q.append(", ");
        q.append(self.value_field.as_str());
        q.append(") VALUES (?, ?) ON CONFLICT (");
        q.append(self.key_field.as_str());
        q.append(") DO UPDATE SET ");
        q.append(self.value_field.as_str());
        q.append(" = EXCLUDED.");
        q.append(self.value_field.as_str());
        q
    }

    /// The statement that removes one key.
    pub fn delete_query(&self) -> (r: String)
        ensures
            r@ == "DELETE FROM "@ + self.table@ + " WHERE "@ + self.key_field@ + " = ?"@,
    {
        let mut q = "DELETE FROM ".to_owned();
        q.append(self.table.as_str());
        q.append(" WHERE ");
        q.append(self.key_field.as_str());
        q.append(" = ?");
        q
    }
}

/// One column of a decoded D1 result row: the column name and its
/// value as bytes.
#[derive(Clone, Debug, PartialEq, Eq)]
pub struct D1Field {
    pub name: String,
    pub value: Vec<u8>,
}

/// One decoded D1 result row.
#[derive(Clone, Debug, PartialEq, Eq)]
pub struct D1Row {
    pub entries: Vec<D1Field>,
}

/// The value stored under a column name, first match first.
pub open spec fn spec_field_lookup(entries: Seq<D1Field>, name: Seq<char>) -> Option<Seq<u8>>
    decreases entries.len(),
{
    if entries.len() == 0 {
        None
    } else if entries[0].name@ == name {
        Some(entries[0].value@)
    } else {
        spec_field_lookup(entries.drop_first(), name)
    }
}

impl D1Core {
    /// Extract the stored value from a decoded query reply: the
    /// configured value column of the first result row, nothing when
    /// the reply has no row or the row no such column.
    pub fn extract_value<'a>(&self, rows: &'a Vec<D1Row>) -> (r: Option<&'a Vec<u8>>)
        ensures
            rows@.len() == 0 ==> r is None,
            rows@.len() > 0 ==> match spec_field_lookup(rows@[0].entries@, self.value_field@) {
                Some(v) => r matches Some(b) && b@ == v,
                None => r is None,
            },
    {
        if rows.len() == 0 {
            return None;
        }
        let row = &rows[0];
        let mut i: usize = 0;
        while i < row.entries.len()
            invariant
                i <= row.entries@.len(),
                rows@.len() > 0,
                row == &rows@[0],
                forall|k: int|
                    0 <= k < i ==> (#[trigger] row.entries@[k]).name@ != self.value_field@,
        decreases row.entries@.len() - i,
        {
            if row.entries[i].name.eq(&self.value_field) {
                proof {
                    lemma_field_lookup_at(row.entries@, self.value_field@, i as int);
                }
                return Some(&row.entries[i].value);
            }
            i = i + 1;
        }
        proof {
            lemma_field_lookup_absent(row.entries@, self.value_field@);
        }
        None
    }
}

proof fn lemma_field_lookup_at(entries: Seq<D1Field>, name: Seq<char>, i: int)
    requires
        0 <= i < entries.len(),
        entries[i].name@ == name,
        forall|k: int| 0 <= k < i ==> (#[trigger] entries[k]).name@ != name,
    ensures
        spec_field_lookup(entries, name) == Some(entries[i].value@),
    decreases i,
{
    if i > 0 {
        lemma_field_lookup_at(entries.drop_first(), name, i - 1);
    }
}

proof fn lemma_field_lookup_absent(entries: Seq<D1Field>, name: Seq<char>)
    requires
        forall|k: int| 0 <= k < entries.len() ==> (#[trigger] entries[k]).name@ != name,
    ensures
        spec_field_lookup(entries, name) is None,
    decreases entries.len(),
{
    if entries.len() > 0 {
        lemma_field_lookup_absent(entries.drop_first(), name);
    }
}

/// Whether a D1 reply status counts as success: OK and partial
/// content, nothing else.
pub fn d1_status_ok(status: u16) -> (r: bool)
    ensures
        r == (status == 200 || status == 206),
{
    status == 200 || status == 206
}

} // verus!
