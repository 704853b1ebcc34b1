//! Sovereign orbit objects — Triple-O equivalents of database objects,
//! declared with a W5H2 body and never with SQL syntax.

use vstd::prelude::*;
use crate::text::{ascii_upper, upper_chars, str_chars, contains_chars, contains_seq};

verus! {

/// The six sovereign object kinds (replacing SQL objects).
#[derive(Debug, Clone, Copy, PartialEq, Eq, Structural)]
pub enum OrbitObjectKind {
    /// Replaces VIEW — an orbit materialized from a constraint.
    MaterializedOrbit,
    /// Replaces TYPE — a tribe's schema definition.
    TribeDefinition,
    /// Replaces TRIGGER — fires on an orbital transition.
    OrbitReaction,
    /// Replaces UDF — a pure function over particles.
    ParticleTransformer,
    /// Replaces STORED PROCEDURE — an ordered transformer chain.
    OrbitSequence,
    /// Replaces SNAP-IN — packaged cross-tribe logic.
    CrossTribeModule,
}

/// The sovereign name of each kind.
pub open spec fn sovereign_name_text(k: OrbitObjectKind) -> Seq<char> {
    match k {
        OrbitObjectKind::MaterializedOrbit => "MATERIALIZED_ORBIT"@,
        OrbitObjectKind::TribeDefinition => "TRIBE_DEFINITION"@,
        OrbitObjectKind::OrbitReaction => "ORBIT_REACTION"@,
        OrbitObjectKind::ParticleTransformer => "PARTICLE_TRANSFORMER"@,
        OrbitObjectKind::OrbitSequence => "ORBIT_SEQUENCE"@,
        OrbitObjectKind::CrossTribeModule => "CROSSTRIBE_MODULE"@,
    }
}

/// The SQL object each kind replaces.
pub open spec fn replaces_text(k: OrbitObjectKind) -> Seq<char> {
    match k {
        OrbitObjectKind::MaterializedOrbit => "view"@,
        OrbitObjectKind::TribeDefinition => "type"@,
        OrbitObjectKind::OrbitReaction => "trigger"@,
        OrbitObjectKind::ParticleTransformer => "udf"@,
        OrbitObjectKind::OrbitSequence => "procedure"@,
        OrbitObjectKind::CrossTribeModule => "snap-in"@,
    }
}

impl OrbitObjectKind {
    /// All six kinds.
    pub const ALL: [OrbitObjectKind; 6] = [
        OrbitObjectKind::MaterializedOrbit,
        OrbitObjectKind::TribeDefinition,
        OrbitObjectKind::OrbitReaction,
        OrbitObjectKind::ParticleTransformer,
        OrbitObjectKind::OrbitSequence,
        OrbitObjectKind::CrossTribeModule,
    ];

    /// The sovereign name, e.g. "MATERIALIZED_ORBIT".
    pub fn sovereign_name(&self) -> (s: &'static str)
        ensures
            s@ == sovereign_name_text(*self),
    {
        match self {
            OrbitObjectKind::MaterializedOrbit => "MATERIALIZED_ORBIT",
            OrbitObjectKind::TribeDefinition => "TRIBE_DEFINITION",
            OrbitObjectKind::OrbitReaction => "ORBIT_REACTION",
            OrbitObjectKind::ParticleTransformer => "PARTICLE_TRANSFORMER",
            OrbitObjectKind::OrbitSequence => "ORBIT_SEQUENCE",
            OrbitObjectKind::CrossTribeModule => "CROSSTRIBE_MODULE",
        }
    }

    /// The SQL object this kind replaces, e.g. "view".
    pub fn replaces(&self) -> (s: &'static str)
        ensures
            s@ == replaces_text(*self),
    {
        match self {
            OrbitObjectKind::MaterializedOrbit => "view",
            OrbitObjectKind::TribeDefinition => "type",
            OrbitObjectKind::OrbitReaction => "trigger",
            OrbitObjectKind::ParticleTransformer => "udf",
            OrbitObjectKind::OrbitSequence => "procedure",
            OrbitObjectKind::CrossTribeModule => "snap-in",
        }
    }

    /// Only a materialized orbit is refreshed by the Aged Recognition Service.
    pub fn ars_refreshed(&self) -> (b: bool)
        ensures
            b == (*self == OrbitObjectKind::MaterializedOrbit),
    {
        matches!(self, OrbitObjectKind::MaterializedOrbit)
    }
}

/// A declared sovereign object (name + kind + the W5H2 body text).
#[derive(Debug, Clone)]
pub struct OrbitObject {
    pub kind: OrbitObjectKind,
    pub name: String,
    pub w5h2_body: String,
}

/// The forbidden SQL constructs, in the order they are checked.
pub open spec fn sql_constructs() -> Seq<Seq<char>> {
    seq![
        "SELECT "@,
        "INSERT INTO"@,
        "UPDATE "@,
        "DELETE FROM"@,
        " FROM "@,
        " JOIN "@,
        " INNER JOIN"@,
        " LEFT JOIN"@,
    ]
}

/// The forbidden constructs without surrounding spaces, as reported.
pub open spec fn sql_construct_names() -> Seq<Seq<char>> {
    seq![
        "SELECT"@,
        "INSERT INTO"@,
        "UPDATE"@,
        "DELETE FROM"@,
        "FROM"@,
        "JOIN"@,
        "INNER JOIN"@,
        "LEFT JOIN"@,
    ]
}

/// The index of the first forbidden construct occurring in `u`, if any.
pub open spec fn first_sql_construct(u: Seq<char>) -> Option<int> {
    if exists|i: int| 0 <= i < 8 && contains_seq(u, #[trigger] sql_constructs()[i]) {
        Some(choose|i: int|
            0 <= i < 8 && contains_seq(u, #[trigger] sql_constructs()[i]) && forall|j: int|
                0 <= j < i ==> !contains_seq(u, #[trigger] sql_constructs()[j]))
    } else {
        None
    }
}

/// The rejection message naming a construct.
pub open spec fn sql_rejection(name: Seq<char>) -> Seq<char> {
    "SQL construct '"@ + name + "' forbidden in orbit object body"@
}

/// The `k`-th forbidden construct, as written and as reported.
fn sql_construct(k: usize) -> (r: (&'static str, &'static str))
    requires
        k < 8,
    ensures
        r.0@ == sql_constructs()[k as int],
        r.1@ == sql_construct_names()[k as int],
{
    match k {
        0 => ("SELECT ", "SELECT"),
        1 => ("INSERT INTO", "INSERT INTO"),
        2 => ("UPDATE ", "UPDATE"),
        3 => ("DELETE FROM", "DELETE FROM"),
        4 => (" FROM ", "FROM"),
        5 => (" JOIN ", "JOIN"),
        6 => (" INNER JOIN", "INNER JOIN"),
        _ => (" LEFT JOIN", "LEFT JOIN"),
    }
}

impl OrbitObject {
    /// Declare an object. The body is rejected when its ASCII upper-casing
    /// holds a SQL construct; the message names the first one, in the
    /// order SELECT, INSERT INTO, UPDATE, DELETE FROM, FROM, JOIN,
    /// INNER JOIN, LEFT JOIN.
    pub fn new(kind: OrbitObjectKind, name: &str, body: &str) -> (r: Result<Self, String>)
        ensures
            match first_sql_construct(ascii_upper(body@)) {
                None => r matches Ok(o) && o.kind == kind && o.name@ == name@ && o.w5h2_body@
                    == body@,
                Some(k) => r matches Err(m) && m@ == sql_rejection(sql_construct_names()[k]),
            },
    {
        let upper = upper_chars(body);
        let mut k: usize = 0;
        while k < 8
            invariant
                upper@ == ascii_upper(body@),
                0 <= k <= 8,
                forall|j: int| 0 <= j < k ==> !contains_seq(upper@, #[trigger] sql_constructs()[j]),
            decreases 8 - k,
        {
            let (kw, shown) = sql_construct(k);
            let kw_chars = str_chars(kw);
            if contains_chars(&upper, &kw_chars) {
                proof {
                    let u = upper@;
                    assert(contains_seq(u, sql_constructs()[k as int]));
                    let f = first_sql_construct(u);
                    assert(f == Some(k as int)) by {
                        let c = f->0;
                        assert(0 <= c < 8 && contains_seq(u, sql_constructs()[c]));
                        if c < k {
                        } else if c > k {
                        }
                    }
                }
                let mut m = "SQL construct '".to_owned();
                m.append(shown);
                m.append("' forbidden in orbit object body");
                return Err(m);
            }
            k = k + 1;
        }
        Ok(OrbitObject { kind, name: name.to_owned(), w5h2_body: body.to_owned() })
    }
}

} // verus!
