//! The five sovereign operations — the complete verb set. SQL keywords
//! are rejected by design.

use vstd::prelude::*;
use crate::text::{ascii_upper, upper_chars, chars_eq_str, string_from_chars};

verus! {

/// The five — and only — sovereign operations.
#[derive(Debug, Clone, Copy, PartialEq, Eq, Hash, Structural)]
pub enum Operation {
    Orbit,
    Emit,
    Prove,
    Sync,
    Witness,
}

impl DeepView for Operation {
    type V = Operation;

    open spec fn deep_view(&self) -> Operation {
        *self
    }
}

impl Default for Operation {
    fn default() -> (op: Self)
        ensures
            op == Operation::Orbit,
    {
        Operation::Orbit
    }
}

/// The keyword of each operation.
pub open spec fn verb_text(op: Operation) -> Seq<char> {
    match op {
        Operation::Orbit => "ORBIT"@,
        Operation::Emit => "EMIT"@,
        Operation::Prove => "PROVE"@,
        Operation::Sync => "SYNC"@,
        Operation::Witness => "WITNESS"@,
    }
}

/// The operation an upper-cased keyword names, if any.
pub open spec fn verb_of(u: Seq<char>) -> Option<Operation> {
    if u == "ORBIT"@ {
        Some(Operation::Orbit)
    } else if u == "EMIT"@ {
        Some(Operation::Emit)
    } else if u == "PROVE"@ {
        Some(Operation::Prove)
    } else if u == "SYNC"@ {
        Some(Operation::Sync)
    } else if u == "WITNESS"@ {
        Some(Operation::Witness)
    } else {
        None
    }
}

/// The SQL keywords that are forbidden, upper-cased.
pub open spec fn is_sql_keyword(u: Seq<char>) -> bool {
    u == "SELECT"@ || u == "INSERT"@ || u == "UPDATE"@ || u == "DELETE"@ || u == "FROM"@
        || u == "WHERE"@ || u == "JOIN"@ || u == "GROUP"@ || u == "ORDER"@ || u == "TABLE"@
        || u == "VIEW"@
}

/// Why a token is not a sovereign verb.
#[derive(Debug, Clone, PartialEq, Eq)]
pub enum OperationError {
    /// A SQL keyword was used — absolutely forbidden in Triple-O.
    SqlForbidden(String),
    Unknown(String),
}

/// The display text of an operation error.
pub open spec fn operation_error_text(e: OperationError) -> Seq<char> {
    match e {
        OperationError::SqlForbidden(t) => "SQL is forbidden in BahyWay v4.0: '"@ + t@
            + "' — use ORBIT/EMIT/PROVE/SYNC/WITNESS"@,
        OperationError::Unknown(t) => "unknown sovereign verb: '"@ + t@ + "'"@,
    }
}

impl OperationError {
    /// The display text: SQL errors point to the sovereign verbs.
    pub fn to_string(&self) -> (s: String)
        ensures
            s@ == operation_error_text(*self),
    {
        match self {
            OperationError::SqlForbidden(t) => {
                let mut s = "SQL is forbidden in BahyWay v4.0: '".to_owned();
                s.append(t.as_str());
                s.append("' — use ORBIT/EMIT/PROVE/SYNC/WITNESS");
                s
            },
            OperationError::Unknown(t) => {
                let mut s = "unknown sovereign verb: '".to_owned();
                s.append(t.as_str());
                s.append("'");
                s
            },
        }
    }
}

/// What `Operation::parse` answers for a token.
pub open spec fn parse_outcome(token: Seq<char>, r: Result<Operation, OperationError>) -> bool {
    let u = ascii_upper(token);
    match verb_of(u) {
        Some(op) => r == Ok::<Operation, OperationError>(op),
        None => if is_sql_keyword(u) {
            r matches Err(OperationError::SqlForbidden(s)) && s@ == token
        } else {
            r matches Err(OperationError::Unknown(s)) && s@ == u
        },
    }
}

impl Operation {
    /// All five operations, in canonical order.
    pub const ALL: [Operation; 5] = [
        Operation::Orbit,
        Operation::Emit,
        Operation::Prove,
        Operation::Sync,
        Operation::Witness,
    ];

    /// The keyword: "ORBIT", "EMIT", "PROVE", "SYNC" or "WITNESS".
    pub fn verb(&self) -> (s: &'static str)
        ensures
            s@ == verb_text(*self),
    {
        match self {
            Operation::Orbit => "ORBIT",
            Operation::Emit => "EMIT",
            Operation::Prove => "PROVE",
            Operation::Sync => "SYNC",
            Operation::Witness => "WITNESS",
        }
    }

    /// Parse a sovereign verb, ignoring ASCII case. SQL keywords are
    /// rejected with the token as given; any other token is unknown and
    /// reported upper-cased.
    pub fn parse(token: &str) -> (r: Result<Operation, OperationError>)
        ensures
            parse_outcome(token@, r),
    {
        let u = upper_chars(token);
        if chars_eq_str(&u, "ORBIT") {
            Ok(Operation::Orbit)
        } else if chars_eq_str(&u, "EMIT") {
            Ok(Operation::Emit)
        } else if chars_eq_str(&u, "PROVE") {
            Ok(Operation::Prove)
        } else if chars_eq_str(&u, "SYNC") {
            Ok(Operation::Sync)
        } else if chars_eq_str(&u, "WITNESS") {
            Ok(Operation::Witness)
        } else if chars_eq_str(&u, "SELECT") || chars_eq_str(&u, "INSERT") || chars_eq_str(
            &u,
            "UPDATE",
        ) || chars_eq_str(&u, "DELETE") || chars_eq_str(&u, "FROM") || chars_eq_str(&u, "WHERE")
            || chars_eq_str(&u, "JOIN") || chars_eq_str(&u, "GROUP") || chars_eq_str(&u, "ORDER")
            || chars_eq_str(&u, "TABLE") || chars_eq_str(&u, "VIEW") {
            Err(OperationError::SqlForbidden(token.to_owned()))
        } else {
            Err(OperationError::Unknown(string_from_chars(&u)))
        }
    }

    /// Only EMIT mints new identity.
    pub fn births_particles(&self) -> (b: bool)
        ensures
            b == (*self == Operation::Emit),
    {
        matches!(self, Operation::Emit)
    }

    /// ORBIT and PROVE are the read-only operations.
    pub fn is_read_only(&self) -> (b: bool)
        ensures
            b == (*self == Operation::Orbit || *self == Operation::Prove),
    {
        matches!(self, Operation::Orbit | Operation::Prove)
    }
}

/// Reveals the characters of every keyword this module compares against.
proof fn reveal_keywords()
    ensures
        "ORBIT"@ == seq!['O', 'R', 'B', 'I', 'T'],
        "EMIT"@ == seq!['E', 'M', 'I', 'T'],
        "PROVE"@ == seq!['P', 'R', 'O', 'V', 'E'],
        "SYNC"@ == seq!['S', 'Y', 'N', 'C'],
        "WITNESS"@ == seq!['W', 'I', 'T', 'N', 'E', 'S', 'S'],
        "SELECT"@ == seq!['S', 'E', 'L', 'E', 'C', 'T'],
        "INSERT"@ == seq!['I', 'N', 'S', 'E', 'R', 'T'],
        "UPDATE"@ == seq!['U', 'P', 'D', 'A', 'T', 'E'],
        "DELETE"@ == seq!['D', 'E', 'L', 'E', 'T', 'E'],
        "FROM"@ == seq!['F', 'R', 'O', 'M'],
        "WHERE"@ == seq!['W', 'H', 'E', 'R', 'E'],
        "JOIN"@ == seq!['J', 'O', 'I', 'N'],
        "GROUP"@ == seq!['G', 'R', 'O', 'U', 'P'],
        "ORDER"@ == seq!['O', 'R', 'D', 'E', 'R'],
        "TABLE"@ == seq!['T', 'A', 'B', 'L', 'E'],
        "VIEW"@ == seq!['V', 'I', 'E', 'W'],
{
    reveal_strlit("ORBIT");
    reveal_strlit("EMIT");
    reveal_strlit("PROVE");
    reveal_strlit("SYNC");
    reveal_strlit("WITNESS");
    reveal_strlit("SELECT");
    reveal_strlit("INSERT");
    reveal_strlit("UPDATE");
    reveal_strlit("DELETE");
    reveal_strlit("FROM");
    reveal_strlit("WHERE");
    reveal_strlit("JOIN");
    reveal_strlit("GROUP");
    reveal_strlit("ORDER");
    reveal_strlit("TABLE");
    reveal_strlit("VIEW");
    assert("ORBIT"@ =~= seq!['O', 'R', 'B', 'I', 'T']);
    assert("EMIT"@ =~= seq!['E', 'M', 'I', 'T']);
    assert("PROVE"@ =~= seq!['P', 'R', 'O', 'V', 'E']);
    assert("SYNC"@ =~= seq!['S', 'Y', 'N', 'C']);
    assert("WITNESS"@ =~= seq!['W', 'I', 'T', 'N', 'E', 'S', 'S']);
    assert("SELECT"@ =~= seq!['S', 'E', 'L', 'E', 'C', 'T']);
    assert("INSERT"@ =~= seq!['I', 'N', 'S', 'E', 'R', 'T']);
    assert("UPDATE"@ =~= seq!['U', 'P', 'D', 'A', 'T', 'E']);
    assert("DELETE"@ =~= seq!['D', 'E', 'L', 'E', 'T', 'E']);
    assert("FROM"@ =~= seq!['F', 'R', 'O', 'M']);
    assert("WHERE"@ =~= seq!['W', 'H', 'E', 'R', 'E']);
    assert("JOIN"@ =~= seq!['J', 'O', 'I', 'N']);
    assert("GROUP"@ =~= seq!['G', 'R', 'O', 'U', 'P']);
    assert("ORDER"@ =~= seq!['O', 'R', 'D', 'E', 'R']);
    assert("TABLE"@ =~= seq!['T', 'A', 'B', 'L', 'E']);
    assert("VIEW"@ =~= seq!['V', 'I', 'E', 'W']);
}

/// A keyword made only of upper-case letters is its own upper-casing.
proof fn lemma_upper_fixed(s: Seq<char>)
    requires
        forall|i: int| 0 <= i < s.len() ==> 'A' <= #[trigger] s[i] <= 'Z',
    ensures
        ascii_upper(s) == s,
{
    assert(ascii_upper(s) =~= s);
}

/// Every operation parses back from its own keyword.
pub proof fn law_parse_of_verb(op: Operation, r: Result<Operation, OperationError>)
    requires
        parse_outcome(verb_text(op), r),
    ensures
        r == Ok::<Operation, OperationError>(op),
{
    reveal_keywords();
    lemma_upper_fixed(verb_text(op));
    let t = verb_text(op);
    match op {
        Operation::Orbit => {}
        Operation::Emit => { assert(t[0] != "ORBIT"@[0]); }
        Operation::Prove => {
            assert(t[0] != "ORBIT"@[0]);
            assert(t[0] != "EMIT"@[0]);
        }
        Operation::Sync => {
            assert(t[0] != "ORBIT"@[0]);
            assert(t[0] != "EMIT"@[0]);
            assert(t[0] != "PROVE"@[0]);
        }
        Operation::Witness => {
            assert(t[0] != "ORBIT"@[0]);
            assert(t[0] != "EMIT"@[0]);
            assert(t[0] != "PROVE"@[0]);
            assert(t[0] != "SYNC"@[0]);
        }
    }
}

/// No SQL keyword names a sovereign verb, so every SQL keyword, in any
/// ASCII case, is answered with `SqlForbidden` carrying the token.
pub proof fn law_sql_keywords_forbidden(token: Seq<char>, r: Result<Operation, OperationError>)
    requires
        is_sql_keyword(ascii_upper(token)),
        parse_outcome(token, r),
    ensures
        r matches Err(OperationError::SqlForbidden(s)) && s@ == token,
{
    reveal_keywords();
    let u = ascii_upper(token);
    assert(verb_of(u) is None) by {
        if u.len() > 0 {
            let c0 = u[0];
            if u.len() > 2 {
                let c2 = u[2];
            }
        }
    }
}

} // verus!
