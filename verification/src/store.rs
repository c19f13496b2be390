//! The steps at which a conversation with the store can fail, and the
//! declaration of the store's enumerations.

use vstd::prelude::*;
use vstd::string::*;
use crate::types::label_views;

verus! {

/// The step of a conversation with the store at which it failed.
#[derive(Debug, Copy, Clone, PartialEq, Eq)]
pub enum StoreFailure {
    /// The pool of sessions was never set up.
    Pool,
    /// No session could be had from the pool.
    Session,
    /// The transaction could not be opened.
    Transaction,
    /// A statement could not be prepared.
    Prepare,
    /// A statement could not be executed.
    Execute,
    /// A row that came back could not be read.
    Decode,
    /// The transaction could not be committed.
    Commit,
}


/// The labels of `labels`, each between single quotes, with a comma and a
/// blank between one and the next; the first `n` of them.
pub open spec fn quoted_list(labels: Seq<Seq<char>>, n: int) -> Seq<char>
    decreases n,
{
    if n <= 0 {
        Seq::empty()
    } else if n == 1 {
        "'"@ + labels[0] + "'"@
    } else {
        quoted_list(labels, n - 1) + ", "@ + "'"@ + labels[n - 1] + "'"@
    }
}

/// The statement that declares the enumeration `name` with `labels`, unless
/// the store knows a type of that name.
pub open spec fn enum_declaration(name: Seq<char>, labels: Seq<Seq<char>>) -> Seq<char> {
    "DO $$ BEGIN IF to_regtype('"@ + name + "') IS NULL THEN CREATE TYPE "@ + name
        + " AS ENUM ("@ + quoted_list(labels, labels.len() as int) + "); END IF; END $$;"@
}

/// Builds the statement that declares an enumeration of the store. Running
/// it on a store that knows the type changes nothing.
pub fn psql_enum_declaration(enum_name: &str, labels: &Vec<String>) -> (statement: String)
    ensures
        statement@ == enum_declaration(enum_name@, label_views(labels@)),
{
    let ghost views = label_views(labels@);
    let mut list: String = String::new();
    let mut i: usize = 0;
    while i < labels.len()
        invariant
            i <= labels@.len(),
            views == label_views(labels@),
            list@ == quoted_list(views, i as int),
        decreases labels@.len() - i,
    {
        if i > 0 {
            list.append(", ");
        }
        list.append("'");
        list.append(labels[i].as_str());
        list.append("'");
        proof {
            if i > 0 {
                assert(list@ =~= quoted_list(views, i as int) + ", "@ + "'"@ + views[i as int]
                    + "'"@);
            }
        }
        i += 1;
    }
    let mut statement: String = String::from_str("DO $$ BEGIN IF to_regtype('");
    statement.append(enum_name);
    statement.append("') IS NULL THEN CREATE TYPE ");
    statement.append(enum_name);
    statement.append(" AS ENUM (");
    statement.append(list.as_str());
    statement.append("); END IF; END $$;");
    statement
}

} // verus!
