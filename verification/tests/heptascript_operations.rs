use bahyway::heptascript::operations::{Operation, OperationError};
use bahyway::heptascript::orbit_objects::{OrbitObject, OrbitObjectKind};

#[test]
fn exactly_five_operations() {
    assert_eq!(Operation::ALL.len(), 5);
}

#[test]
fn all_sovereign_verbs_parse() {
    for op in Operation::ALL {
        assert_eq!(Operation::parse(op.verb()), Ok(op));
    }
}

#[test]
fn every_sql_keyword_is_rejected() {
    for kw in [
        "SELECT", "INSERT", "UPDATE", "DELETE", "FROM", "WHERE", "JOIN", "GROUP", "ORDER",
        "TABLE", "VIEW", "select", "Join",
    ] {
        match Operation::parse(kw) {
            Err(OperationError::SqlForbidden(_)) => {}
            other => panic!("SQL keyword {} not rejected: {:?}", kw, other),
        }
    }
}

#[test]
fn only_emit_births_particles() {
    assert!(Operation::Emit.births_particles());
    for op in [
        Operation::Orbit,
        Operation::Prove,
        Operation::Sync,
        Operation::Witness,
    ] {
        assert!(!op.births_particles());
    }
}

#[test]
fn read_only_set_is_orbit_and_prove() {
    assert!(Operation::Orbit.is_read_only());
    assert!(Operation::Prove.is_read_only());
    assert!(!Operation::Emit.is_read_only());
    assert!(!Operation::Sync.is_read_only());
    assert!(!Operation::Witness.is_read_only());
}

#[test]
fn error_message_guides_to_sovereign_verbs() {
    let e = Operation::parse("SELECT").unwrap_err();
    assert!(e.to_string().contains("ORBIT/EMIT/PROVE/SYNC/WITNESS"));
}

#[test]
fn six_sovereign_object_kinds() {
    assert_eq!(OrbitObjectKind::ALL.len(), 6);
}

#[test]
fn each_kind_names_its_sql_replacement() {
    assert_eq!(OrbitObjectKind::MaterializedOrbit.replaces(), "view");
    assert_eq!(OrbitObjectKind::OrbitReaction.replaces(), "trigger");
    assert_eq!(OrbitObjectKind::OrbitSequence.replaces(), "procedure");
}

#[test]
fn only_materialized_orbit_is_ars_refreshed() {
    assert!(OrbitObjectKind::MaterializedOrbit.ars_refreshed());
    assert!(!OrbitObjectKind::TribeDefinition.ars_refreshed());
}

#[test]
fn valid_w5h2_body_accepted() {
    let o = OrbitObject::new(
        OrbitObjectKind::MaterializedOrbit,
        "golden_customers",
        "WHO customer WHAT golden WHEN active WHERE tribe=root PRESENT identity",
    );
    assert!(o.is_ok());
}

#[test]
fn sql_body_rejected() {
    let o = OrbitObject::new(
        OrbitObjectKind::MaterializedOrbit,
        "bad",
        "SELECT * FROM customers",
    );
    assert!(o.is_err());
}

// ── Additional checks ──────────────────────────────────────────────────────

#[test]
fn parse_is_case_insensitive_and_reports_unknown_upper_cased() {
    assert_eq!(Operation::parse("witness"), Ok(Operation::Witness));
    assert_eq!(Operation::parse("eMiT"), Ok(Operation::Emit));
    assert_eq!(
        Operation::parse("orbits"),
        Err(OperationError::Unknown("ORBITS".to_string()))
    );
    assert_eq!(
        Operation::parse("Join"),
        Err(OperationError::SqlForbidden("Join".to_string()))
    );
    assert_eq!(
        Operation::parse("").unwrap_err().to_string(),
        "unknown sovereign verb: ''"
    );
}

#[test]
fn default_operation_is_orbit() {
    assert_eq!(Operation::default(), Operation::Orbit);
}

#[test]
fn rejection_names_first_construct_in_check_order() {
    let e = OrbitObject::new(OrbitObjectKind::OrbitSequence, "x", "a left join b").unwrap_err();
    assert_eq!(e, "SQL construct 'JOIN' forbidden in orbit object body");
    let e = OrbitObject::new(OrbitObjectKind::OrbitSequence, "x", "select a from b").unwrap_err();
    assert_eq!(e, "SQL construct 'SELECT' forbidden in orbit object body");
    let o = OrbitObject::new(OrbitObjectKind::TribeDefinition, "t", "WHERE x FROMAGE").unwrap();
    assert_eq!(o.name, "t");
    assert_eq!(o.w5h2_body, "WHERE x FROMAGE");
    assert_eq!(OrbitObjectKind::CrossTribeModule.sovereign_name(), "CROSSTRIBE_MODULE");
}
