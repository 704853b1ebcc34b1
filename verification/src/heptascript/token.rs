//! The HeptaScript lexer: W5H2 clause keywords, the sovereign verbs,
//! v2 clause keywords and values, operators, punctuation and literals.
//! Comments run from `--` to the end of the line.

use vstd::prelude::*;
use crate::text::{
    alphabetic, char_debug, char_debug_of, chars_eq_str, is_alphabetic_char, is_alphanumeric_char,
    is_white_space, numeric, str_chars, string_from_chars, string_push, white_space,
};

verus! {

/// The keywords, operators and punctuation of HeptaScript.
#[derive(Debug, Clone, Copy, PartialEq, Eq, Structural)]
pub enum Keyword {
    Who,
    What,
    Where,
    When,
    Why,
    How,
    HowMuch,
    VerbOrbit,
    VerbEmit,
    VerbProve,
    VerbSync,
    VerbWitness,
    Node,
    Across,
    Tier,
    State,
    Nash,
    Pattern,
    Lineage,
    Gate,
    Satamu,
    NodeAll,
    DbEnkiDb,
    DbEnkiDw,
    DbEnkiSdb,
    DbEnkiOdb,
    DbEnkiQdb,
    DbEnkiMdb,
    DbEnkiDdb,
    DbNarudu,
    DbEnkiPattern,
    Pipe,
    Bigring,
    TierHot,
    TierWarm,
    TierCold,
    TierCrystallized,
    StateEmerging,
    StateStable,
    StateCanonical,
    StateDeprecated,
    NashScore,
    NashBreaking,
    PatternType,
    PatternConfidence,
    PatternConstituents,
    PtCrowdFlow,
    PtAviationCorridor,
    PtAviationHolding,
    PtIndoorHallway,
    PtIndoorRoom,
    PtIndoorTransition,
    PtWaterFlow,
    PtCustom,
    LineageDepth,
    LineageFull,
    SatamuRequired,
    SatamuBypass,
    Orbital,
    DotDot,
    Anchor,
    AnchorAuto,
    AnchorSurrogateTime,
    AnchorStateStation,
    AnchorE7First,
    AnchorFullScan,
    Stream,
    DeriveStation,
    AbortScan,
    FilterOrder,
    FsSurrogateRange,
    FsOrbitalRange,
    FsState,
    FsDeriveStation,
    FsLane,
    FsQualityByte,
    FsEavAttr,
    FsE7Region,
    BoundTo,
    At,
    Epoch,
    Before,
    After,
    Now,
    Lane,
    QualityByte,
    By,
    Asc,
    Desc,
    Limit,
    Top,
    Measure,
    Dense,
    Flux,
    RotorMean,
    Gravity,
    Band,
    MaxGroups,
    And,
    Or,
    Not,
    Exists,
    Eq,
    Neq,
    Gt,
    Lt,
    Gte,
    Lte,
    Dot,
    Comma,
    Star,
    LBracket,
    RBracket,
    Route,
    Index,
    Modular,
    AttrWeight,
    AttrLevel,
    AttrSignature,
    AttrTotalMass,
    AttrPeakCost,
}

/// Keywords of table part 0.
pub open spec fn keyword_part_0(w: Seq<char>) -> Option<Keyword> {
    if w == "WHO"@ || w == "who"@ {
        Some(Keyword::Who)
    } else if w == "WHAT"@ || w == "what"@ {
        Some(Keyword::What)
    } else if w == "WHERE"@ || w == "where"@ {
        Some(Keyword::Where)
    } else if w == "WHEN"@ || w == "when"@ {
        Some(Keyword::When)
    } else if w == "WHY"@ || w == "why"@ {
        Some(Keyword::Why)
    } else if w == "HOW"@ || w == "how"@ {
        Some(Keyword::How)
    } else if w == "HOW_MUCH"@ || w == "how_much"@ {
        Some(Keyword::HowMuch)
    } else if w == "ORBIT"@ || w == "orbit"@ {
        Some(Keyword::VerbOrbit)
    } else if w == "EMIT"@ || w == "emit"@ {
        Some(Keyword::VerbEmit)
    } else if w == "PROVE"@ || w == "prove"@ {
        Some(Keyword::VerbProve)
    } else if w == "SYNC"@ || w == "sync"@ {
        Some(Keyword::VerbSync)
    } else if w == "WITNESS"@ || w == "witness"@ {
        Some(Keyword::VerbWitness)
    } else if w == "NODE"@ || w == "node"@ {
        Some(Keyword::Node)
    } else if w == "ACROSS"@ || w == "across"@ {
        Some(Keyword::Across)
    } else if w == "TIER"@ || w == "tier"@ {
        Some(Keyword::Tier)
    } else if w == "STATE"@ || w == "state"@ {
        Some(Keyword::State)
    } else if w == "NASH"@ || w == "nash"@ {
        Some(Keyword::Nash)
    } else if w == "PATTERN"@ || w == "pattern"@ {
        Some(Keyword::Pattern)
    } else {
        None
    }
}

/// Keywords of table part 1.
pub open spec fn keyword_part_1(w: Seq<char>) -> Option<Keyword> {
    if w == "LINEAGE"@ || w == "lineage"@ {
        Some(Keyword::Lineage)
    } else if w == "GATE"@ || w == "gate"@ {
        Some(Keyword::Gate)
    } else if w == "SATAMU"@ || w == "satamu"@ {
        Some(Keyword::Satamu)
    } else if w == "ORBITAL"@ || w == "orbital"@ {
        Some(Keyword::Orbital)
    } else if w == "ALL"@ || w == "all"@ {
        Some(Keyword::NodeAll)
    } else if w == "EnkiDB"@ || w == "ENKIDB"@ {
        Some(Keyword::DbEnkiDb)
    } else if w == "EnkiDW"@ || w == "ENKIDW"@ {
        Some(Keyword::DbEnkiDw)
    } else if w == "EnkiSDB"@ || w == "ENKISDB"@ {
        Some(Keyword::DbEnkiSdb)
    } else if w == "EnkiODB"@ || w == "ENKIODB"@ {
        Some(Keyword::DbEnkiOdb)
    } else if w == "EnkiQDB"@ || w == "ENKIQDB"@ {
        Some(Keyword::DbEnkiQdb)
    } else if w == "EnkiMDB"@ || w == "ENKIMDB"@ {
        Some(Keyword::DbEnkiMdb)
    } else if w == "EnkiDDB"@ || w == "ENKIDDB"@ {
        Some(Keyword::DbEnkiDdb)
    } else if w == "NARUDU"@ || w == "narudu"@ {
        Some(Keyword::DbNarudu)
    } else if w == "ENKI_PATTERN"@ || w == "enki_pattern"@ {
        Some(Keyword::DbEnkiPattern)
    } else if w == "BIGRING"@ || w == "bigring"@ {
        Some(Keyword::Bigring)
    } else if w == "HOT"@ || w == "hot"@ {
        Some(Keyword::TierHot)
    } else if w == "WARM"@ || w == "warm"@ {
        Some(Keyword::TierWarm)
    } else if w == "COLD"@ || w == "cold"@ {
        Some(Keyword::TierCold)
    } else {
        None
    }
}

/// Keywords of table part 2.
pub open spec fn keyword_part_2(w: Seq<char>) -> Option<Keyword> {
    if w == "CRYSTALLIZED"@ || w == "crystallized"@ {
        Some(Keyword::TierCrystallized)
    } else if w == "EMERGING"@ || w == "emerging"@ {
        Some(Keyword::StateEmerging)
    } else if w == "STABLE"@ || w == "stable"@ {
        Some(Keyword::StateStable)
    } else if w == "CANONICAL"@ || w == "canonical"@ {
        Some(Keyword::StateCanonical)
    } else if w == "DEPRECATED"@ || w == "deprecated"@ {
        Some(Keyword::StateDeprecated)
    } else if w == "SCORE"@ || w == "score"@ {
        Some(Keyword::NashScore)
    } else if w == "BREAKING"@ || w == "breaking"@ {
        Some(Keyword::NashBreaking)
    } else if w == "TYPE"@ || w == "type"@ {
        Some(Keyword::PatternType)
    } else if w == "CONFIDENCE"@ || w == "confidence"@ {
        Some(Keyword::PatternConfidence)
    } else if w == "MAX_CONSTITUENTS"@ || w == "max_constituents"@ {
        Some(Keyword::PatternConstituents)
    } else if w == "CrowdFlow"@ || w == "CROWDFLOW"@ {
        Some(Keyword::PtCrowdFlow)
    } else if w == "AviationCorridor"@ || w == "AVIATIONCORRIDOR"@ {
        Some(Keyword::PtAviationCorridor)
    } else if w == "AviationHolding"@ || w == "AVIATIONHOLDING"@ {
        Some(Keyword::PtAviationHolding)
    } else if w == "IndoorHallway"@ || w == "INDOORHALLWAY"@ {
        Some(Keyword::PtIndoorHallway)
    } else if w == "IndoorRoom"@ || w == "INDOORROOM"@ {
        Some(Keyword::PtIndoorRoom)
    } else if w == "IndoorTransition"@ || w == "INDOORTRANSITION"@ {
        Some(Keyword::PtIndoorTransition)
    } else if w == "WaterFlow"@ || w == "WATERFLOW"@ {
        Some(Keyword::PtWaterFlow)
    } else if w == "Custom"@ || w == "CUSTOM"@ {
        Some(Keyword::PtCustom)
    } else {
        None
    }
}

/// Keywords of table part 3.
pub open spec fn keyword_part_3(w: Seq<char>) -> Option<Keyword> {
    if w == "DEPTH"@ || w == "depth"@ {
        Some(Keyword::LineageDepth)
    } else if w == "FULL"@ || w == "full"@ {
        Some(Keyword::LineageFull)
    } else if w == "REQUIRED"@ || w == "required"@ {
        Some(Keyword::SatamuRequired)
    } else if w == "BYPASS"@ || w == "bypass"@ {
        Some(Keyword::SatamuBypass)
    } else if w == "BOUND_TO"@ || w == "bound_to"@ {
        Some(Keyword::BoundTo)
    } else if w == "AT"@ || w == "at"@ {
        Some(Keyword::At)
    } else if w == "EPOCH"@ || w == "epoch"@ {
        Some(Keyword::Epoch)
    } else if w == "BEFORE"@ || w == "before"@ {
        Some(Keyword::Before)
    } else if w == "AFTER"@ || w == "after"@ {
        Some(Keyword::After)
    } else if w == "NOW"@ || w == "now"@ {
        Some(Keyword::Now)
    } else if w == "LANE"@ || w == "lane"@ {
        Some(Keyword::Lane)
    } else if w == "QUALITY_BYTE"@ || w == "quality_byte"@ {
        Some(Keyword::QualityByte)
    } else if w == "BY"@ || w == "by"@ {
        Some(Keyword::By)
    } else if w == "ASC"@ || w == "asc"@ {
        Some(Keyword::Asc)
    } else if w == "DESC"@ || w == "desc"@ {
        Some(Keyword::Desc)
    } else if w == "LIMIT"@ || w == "limit"@ {
        Some(Keyword::Limit)
    } else if w == "TOP"@ || w == "top"@ {
        Some(Keyword::Top)
    } else if w == "MEASURE"@ || w == "measure"@ {
        Some(Keyword::Measure)
    } else {
        None
    }
}

/// Keywords of table part 4.
pub open spec fn keyword_part_4(w: Seq<char>) -> Option<Keyword> {
    if w == "DENSE"@ || w == "dense"@ {
        Some(Keyword::Dense)
    } else if w == "FLUX"@ || w == "flux"@ {
        Some(Keyword::Flux)
    } else if w == "ROTOR_MEAN"@ || w == "rotor_mean"@ {
        Some(Keyword::RotorMean)
    } else if w == "GRAVITY"@ || w == "gravity"@ {
        Some(Keyword::Gravity)
    } else if w == "BAND"@ || w == "band"@ {
        Some(Keyword::Band)
    } else if w == "MAX_GROUPS"@ || w == "max_groups"@ {
        Some(Keyword::MaxGroups)
    } else if w == "AND"@ || w == "and"@ {
        Some(Keyword::And)
    } else if w == "OR"@ || w == "or"@ {
        Some(Keyword::Or)
    } else if w == "NOT"@ || w == "not"@ {
        Some(Keyword::Not)
    } else if w == "EXISTS"@ || w == "exists"@ {
        Some(Keyword::Exists)
    } else if w == "ANCHOR"@ || w == "anchor"@ {
        Some(Keyword::Anchor)
    } else if w == "AUTO"@ || w == "auto"@ {
        Some(Keyword::AnchorAuto)
    } else if w == "SURROGATE_TIME"@ || w == "surrogate_time"@ {
        Some(Keyword::AnchorSurrogateTime)
    } else if w == "STATE_STATION"@ || w == "state_station"@ {
        Some(Keyword::AnchorStateStation)
    } else if w == "E7_FIRST"@ || w == "e7_first"@ {
        Some(Keyword::AnchorE7First)
    } else if w == "FULL_SCAN"@ || w == "full_scan"@ {
        Some(Keyword::AnchorFullScan)
    } else if w == "STREAM"@ || w == "stream"@ {
        Some(Keyword::Stream)
    } else if w == "DERIVE_STATION"@ || w == "derive_station"@ {
        Some(Keyword::DeriveStation)
    } else {
        None
    }
}

/// Keywords of table part 5.
pub open spec fn keyword_part_5(w: Seq<char>) -> Option<Keyword> {
    if w == "ABORT_SCAN"@ || w == "abort_scan"@ {
        Some(Keyword::AbortScan)
    } else if w == "FILTER_ORDER"@ || w == "filter_order"@ {
        Some(Keyword::FilterOrder)
    } else if w == "SURROGATE_RANGE"@ || w == "surrogate_range"@ {
        Some(Keyword::FsSurrogateRange)
    } else if w == "ORBITAL_RANGE"@ || w == "orbital_range"@ {
        Some(Keyword::FsOrbitalRange)
    } else if w == "STATE_FILTER"@ || w == "state_filter"@ {
        Some(Keyword::FsState)
    } else if w == "DERIVE_STATION_FILTER"@ || w == "derive_station_filter"@ {
        Some(Keyword::FsDeriveStation)
    } else if w == "LANE_FILTER"@ || w == "lane_filter"@ {
        Some(Keyword::FsLane)
    } else if w == "QUALITY_BYTE_FILTER"@ || w == "quality_byte_filter"@ {
        Some(Keyword::FsQualityByte)
    } else if w == "EAV_ATTR"@ || w == "eav_attr"@ {
        Some(Keyword::FsEavAttr)
    } else if w == "E7_REGION"@ || w == "e7_region"@ {
        Some(Keyword::FsE7Region)
    } else if w == "ROUTE"@ || w == "route"@ {
        Some(Keyword::Route)
    } else if w == "INDEX"@ || w == "index"@ {
        Some(Keyword::Index)
    } else if w == "MODULAR"@ || w == "modular"@ {
        Some(Keyword::Modular)
    } else if w == "weight"@ {
        Some(Keyword::AttrWeight)
    } else if w == "level"@ {
        Some(Keyword::AttrLevel)
    } else if w == "signature"@ {
        Some(Keyword::AttrSignature)
    } else if w == "total_mass"@ {
        Some(Keyword::AttrTotalMass)
    } else if w == "peak_cost"@ {
        Some(Keyword::AttrPeakCost)
    } else {
        None
    }
}

/// The keyword a word spells, if any; every other word is an identifier.
pub open spec fn keyword_of(w: Seq<char>) -> Option<Keyword> {
    if keyword_part_0(w) is Some { keyword_part_0(w) } else { if keyword_part_1(w) is Some { keyword_part_1(w) } else { if keyword_part_2(w) is Some { keyword_part_2(w) } else { if keyword_part_3(w) is Some { keyword_part_3(w) } else { if keyword_part_4(w) is Some { keyword_part_4(w) } else { keyword_part_5(w) } } } } }
}

/// Looks a word up in table part 0.
fn lookup_part_0(w: &Vec<char>) -> (k: Option<Keyword>)
    ensures
        k == keyword_part_0(w@),
{
    if chars_eq_str(w, "WHO") || chars_eq_str(w, "who") {
        return Some(Keyword::Who);
    }
    if chars_eq_str(w, "WHAT") || chars_eq_str(w, "what") {
        return Some(Keyword::What);
    }
    if chars_eq_str(w, "WHERE") || chars_eq_str(w, "where") {
        return Some(Keyword::Where);
    }
    if chars_eq_str(w, "WHEN") || chars_eq_str(w, "when") {
        return Some(Keyword::When);
    }
    if chars_eq_str(w, "WHY") || chars_eq_str(w, "why") {
        return Some(Keyword::Why);
    }
    if chars_eq_str(w, "HOW") || chars_eq_str(w, "how") {
        return Some(Keyword::How);
    }
    if chars_eq_str(w, "HOW_MUCH") || chars_eq_str(w, "how_much") {
        return Some(Keyword::HowMuch);
    }
    if chars_eq_str(w, "ORBIT") || chars_eq_str(w, "orbit") {
        return Some(Keyword::VerbOrbit);
    }
    if chars_eq_str(w, "EMIT") || chars_eq_str(w, "emit") {
        return Some(Keyword::VerbEmit);
    }
    if chars_eq_str(w, "PROVE") || chars_eq_str(w, "prove") {
        return Some(Keyword::VerbProve);
    }
    if chars_eq_str(w, "SYNC") || chars_eq_str(w, "sync") {
        return Some(Keyword::VerbSync);
    }
    if chars_eq_str(w, "WITNESS") || chars_eq_str(w, "witness") {
        return Some(Keyword::VerbWitness);
    }
    if chars_eq_str(w, "NODE") || chars_eq_str(w, "node") {
        return Some(Keyword::Node);
    }
    if chars_eq_str(w, "ACROSS") || chars_eq_str(w, "across") {
        return Some(Keyword::Across);
    }
    if chars_eq_str(w, "TIER") || chars_eq_str(w, "tier") {
        return Some(Keyword::Tier);
    }
    if chars_eq_str(w, "STATE") || chars_eq_str(w, "state") {
        return Some(Keyword::State);
    }
    if chars_eq_str(w, "NASH") || chars_eq_str(w, "nash") {
        return Some(Keyword::Nash);
    }
    if chars_eq_str(w, "PATTERN") || chars_eq_str(w, "pattern") {
        return Some(Keyword::Pattern);
    }
    None
}

/// Looks a word up in table part 1.
fn lookup_part_1(w: &Vec<char>) -> (k: Option<Keyword>)
    ensures
        k == keyword_part_1(w@),
{
    if chars_eq_str(w, "LINEAGE") || chars_eq_str(w, "lineage") {
        return Some(Keyword::Lineage);
    }
    if chars_eq_str(w, "GATE") || chars_eq_str(w, "gate") {
        return Some(Keyword::Gate);
    }
    if chars_eq_str(w, "SATAMU") || chars_eq_str(w, "satamu") {
        return Some(Keyword::Satamu);
    }
    if chars_eq_str(w, "ORBITAL") || chars_eq_str(w, "orbital") {
        return Some(Keyword::Orbital);
    }
    if chars_eq_str(w, "ALL") || chars_eq_str(w, "all") {
        return Some(Keyword::NodeAll);
    }
    if chars_eq_str(w, "EnkiDB") || chars_eq_str(w, "ENKIDB") {
        return Some(Keyword::DbEnkiDb);
    }
    if chars_eq_str(w, "EnkiDW") || chars_eq_str(w, "ENKIDW") {
        return Some(Keyword::DbEnkiDw);
    }
    if chars_eq_str(w, "EnkiSDB") || chars_eq_str(w, "ENKISDB") {
        return Some(Keyword::DbEnkiSdb);
    }
    if chars_eq_str(w, "EnkiODB") || chars_eq_str(w, "ENKIODB") {
        return Some(Keyword::DbEnkiOdb);
    }
    if chars_eq_str(w, "EnkiQDB") || chars_eq_str(w, "ENKIQDB") {
        return Some(Keyword::DbEnkiQdb);
    }
    if chars_eq_str(w, "EnkiMDB") || chars_eq_str(w, "ENKIMDB") {
        return Some(Keyword::DbEnkiMdb);
    }
    if chars_eq_str(w, "EnkiDDB") || chars_eq_str(w, "ENKIDDB") {
        return Some(Keyword::DbEnkiDdb);
    }
    if chars_eq_str(w, "NARUDU") || chars_eq_str(w, "narudu") {
        return Some(Keyword::DbNarudu);
    }
    if chars_eq_str(w, "ENKI_PATTERN") || chars_eq_str(w, "enki_pattern") {
        return Some(Keyword::DbEnkiPattern);
    }
    if chars_eq_str(w, "BIGRING") || chars_eq_str(w, "bigring") {
        return Some(Keyword::Bigring);
    }
    if chars_eq_str(w, "HOT") || chars_eq_str(w, "hot") {
        return Some(Keyword::TierHot);
    }
    if chars_eq_str(w, "WARM") || chars_eq_str(w, "warm") {
        return Some(Keyword::TierWarm);
    }
    if chars_eq_str(w, "COLD") || chars_eq_str(w, "cold") {
        return Some(Keyword::TierCold);
    }
    None
}

/// Looks a word up in table part 2.
fn lookup_part_2(w: &Vec<char>) -> (k: Option<Keyword>)
    ensures
        k == keyword_part_2(w@),
{
    if chars_eq_str(w, "CRYSTALLIZED") || chars_eq_str(w, "crystallized") {
        return Some(Keyword::TierCrystallized);
    }
    if chars_eq_str(w, "EMERGING") || chars_eq_str(w, "emerging") {
        return Some(Keyword::StateEmerging);
    }
    if chars_eq_str(w, "STABLE") || chars_eq_str(w, "stable") {
        return Some(Keyword::StateStable);
    }
    if chars_eq_str(w, "CANONICAL") || chars_eq_str(w, "canonical") {
        return Some(Keyword::StateCanonical);
    }
    if chars_eq_str(w, "DEPRECATED") || chars_eq_str(w, "deprecated") {
        return Some(Keyword::StateDeprecated);
    }
    if chars_eq_str(w, "SCORE") || chars_eq_str(w, "score") {
        return Some(Keyword::NashScore);
    }
    if chars_eq_str(w, "BREAKING") || chars_eq_str(w, "breaking") {
        return Some(Keyword::NashBreaking);
    }
    if chars_eq_str(w, "TYPE") || chars_eq_str(w, "type") {
        return Some(Keyword::PatternType);
    }
    if chars_eq_str(w, "CONFIDENCE") || chars_eq_str(w, "confidence") {
        return Some(Keyword::PatternConfidence);
    }
    if chars_eq_str(w, "MAX_CONSTITUENTS") || chars_eq_str(w, "max_constituents") {
        return Some(Keyword::PatternConstituents);
    }
    if chars_eq_str(w, "CrowdFlow") || chars_eq_str(w, "CROWDFLOW") {
        return Some(Keyword::PtCrowdFlow);
    }
    if chars_eq_str(w, "AviationCorridor") || chars_eq_str(w, "AVIATIONCORRIDOR") {
        return Some(Keyword::PtAviationCorridor);
    }
    if chars_eq_str(w, "AviationHolding") || chars_eq_str(w, "AVIATIONHOLDING") {
        return Some(Keyword::PtAviationHolding);
    }
    if chars_eq_str(w, "IndoorHallway") || chars_eq_str(w, "INDOORHALLWAY") {
        return Some(Keyword::PtIndoorHallway);
    }
    if chars_eq_str(w, "IndoorRoom") || chars_eq_str(w, "INDOORROOM") {
        return Some(Keyword::PtIndoorRoom);
    }
    if chars_eq_str(w, "IndoorTransition") || chars_eq_str(w, "INDOORTRANSITION") {
        return Some(Keyword::PtIndoorTransition);
    }
    if chars_eq_str(w, "WaterFlow") || chars_eq_str(w, "WATERFLOW") {
        return Some(Keyword::PtWaterFlow);
    }
    if chars_eq_str(w, "Custom") || chars_eq_str(w, "CUSTOM") {
        return Some(Keyword::PtCustom);
    }
    None
}

/// Looks a word up in table part 3.
fn lookup_part_3(w: &Vec<char>) -> (k: Option<Keyword>)
    ensures
        k == keyword_part_3(w@),
{
    if chars_eq_str(w, "DEPTH") || chars_eq_str(w, "depth") {
        return Some(Keyword::LineageDepth);
    }
    if chars_eq_str(w, "FULL") || chars_eq_str(w, "full") {
        return Some(Keyword::LineageFull);
    }
    if chars_eq_str(w, "REQUIRED") || chars_eq_str(w, "required") {
        return Some(Keyword::SatamuRequired);
    }
    if chars_eq_str(w, "BYPASS") || chars_eq_str(w, "bypass") {
        return Some(Keyword::SatamuBypass);
    }
    if chars_eq_str(w, "BOUND_TO") || chars_eq_str(w, "bound_to") {
        return Some(Keyword::BoundTo);
    }
    if chars_eq_str(w, "AT") || chars_eq_str(w, "at") {
        return Some(Keyword::At);
    }
    if chars_eq_str(w, "EPOCH") || chars_eq_str(w, "epoch") {
        return Some(Keyword::Epoch);
    }
    if chars_eq_str(w, "BEFORE") || chars_eq_str(w, "before") {
        return Some(Keyword::Before);
    }
    if chars_eq_str(w, "AFTER") || chars_eq_str(w, "after") {
        return Some(Keyword::After);
    }
    if chars_eq_str(w, "NOW") || chars_eq_str(w, "now") {
        return Some(Keyword::Now);
    }
    if chars_eq_str(w, "LANE") || chars_eq_str(w, "lane") {
        return Some(Keyword::Lane);
    }
    if chars_eq_str(w, "QUALITY_BYTE") || chars_eq_str(w, "quality_byte") {
        return Some(Keyword::QualityByte);
    }
    if chars_eq_str(w, "BY") || chars_eq_str(w, "by") {
        return Some(Keyword::By);
    }
    if chars_eq_str(w, "ASC") || chars_eq_str(w, "asc") {
        return Some(Keyword::Asc);
    }
    if chars_eq_str(w, "DESC") || chars_eq_str(w, "desc") {
        return Some(Keyword::Desc);
    }
    if chars_eq_str(w, "LIMIT") || chars_eq_str(w, "limit") {
        return Some(Keyword::Limit);
    }
    if chars_eq_str(w, "TOP") || chars_eq_str(w, "top") {
        return Some(Keyword::Top);
    }
    if chars_eq_str(w, "MEASURE") || chars_eq_str(w, "measure") {
        return Some(Keyword::Measure);
    }
    None
}

/// Looks a word up in table part 4.
fn lookup_part_4(w: &Vec<char>) -> (k: Option<Keyword>)
    ensures
        k == keyword_part_4(w@),
{
    if chars_eq_str(w, "DENSE") || chars_eq_str(w, "dense") {
        return Some(Keyword::Dense);
    }
    if chars_eq_str(w, "FLUX") || chars_eq_str(w, "flux") {
        return Some(Keyword::Flux);
    }
    if chars_eq_str(w, "ROTOR_MEAN") || chars_eq_str(w, "rotor_mean") {
        return Some(Keyword::RotorMean);
    }
    if chars_eq_str(w, "GRAVITY") || chars_eq_str(w, "gravity") {
        return Some(Keyword::Gravity);
    }
    if chars_eq_str(w, "BAND") || chars_eq_str(w, "band") {
        return Some(Keyword::Band);
    }
    if chars_eq_str(w, "MAX_GROUPS") || chars_eq_str(w, "max_groups") {
        return Some(Keyword::MaxGroups);
    }
    if chars_eq_str(w, "AND") || chars_eq_str(w, "and") {
        return Some(Keyword::And);
    }
    if chars_eq_str(w, "OR") || chars_eq_str(w, "or") {
        return Some(Keyword::Or);
    }
    if chars_eq_str(w, "NOT") || chars_eq_str(w, "not") {
        return Some(Keyword::Not);
    }
    if chars_eq_str(w, "EXISTS") || chars_eq_str(w, "exists") {
        return Some(Keyword::Exists);
    }
    if chars_eq_str(w, "ANCHOR") || chars_eq_str(w, "anchor") {
        return Some(Keyword::Anchor);
    }
    if chars_eq_str(w, "AUTO") || chars_eq_str(w, "auto") {
        return Some(Keyword::AnchorAuto);
    }
    if chars_eq_str(w, "SURROGATE_TIME") || chars_eq_str(w, "surrogate_time") {
        return Some(Keyword::AnchorSurrogateTime);
    }
    if chars_eq_str(w, "STATE_STATION") || chars_eq_str(w, "state_station") {
        return Some(Keyword::AnchorStateStation);
    }
    if chars_eq_str(w, "E7_FIRST") || chars_eq_str(w, "e7_first") {
        return Some(Keyword::AnchorE7First);
    }
    if chars_eq_str(w, "FULL_SCAN") || chars_eq_str(w, "full_scan") {
        return Some(Keyword::AnchorFullScan);
    }
    if chars_eq_str(w, "STREAM") || chars_eq_str(w, "stream") {
        return Some(Keyword::Stream);
    }
    if chars_eq_str(w, "DERIVE_STATION") || chars_eq_str(w, "derive_station") {
        return Some(Keyword::DeriveStation);
    }
    None
}

/// Looks a word up in table part 5.
fn lookup_part_5(w: &Vec<char>) -> (k: Option<Keyword>)
    ensures
        k == keyword_part_5(w@),
{
    if chars_eq_str(w, "ABORT_SCAN") || chars_eq_str(w, "abort_scan") {
        return Some(Keyword::AbortScan);
    }
    if chars_eq_str(w, "FILTER_ORDER") || chars_eq_str(w, "filter_order") {
        return Some(Keyword::FilterOrder);
    }
    if chars_eq_str(w, "SURROGATE_RANGE") || chars_eq_str(w, "surrogate_range") {
        return Some(Keyword::FsSurrogateRange);
    }
    if chars_eq_str(w, "ORBITAL_RANGE") || chars_eq_str(w, "orbital_range") {
        return Some(Keyword::FsOrbitalRange);
    }
    if chars_eq_str(w, "STATE_FILTER") || chars_eq_str(w, "state_filter") {
        return Some(Keyword::FsState);
    }
    if chars_eq_str(w, "DERIVE_STATION_FILTER") || chars_eq_str(w, "derive_station_filter") {
        return Some(Keyword::FsDeriveStation);
    }
    if chars_eq_str(w, "LANE_FILTER") || chars_eq_str(w, "lane_filter") {
        return Some(Keyword::FsLane);
    }
    if chars_eq_str(w, "QUALITY_BYTE_FILTER") || chars_eq_str(w, "quality_byte_filter") {
        return Some(Keyword::FsQualityByte);
    }
    if chars_eq_str(w, "EAV_ATTR") || chars_eq_str(w, "eav_attr") {
        return Some(Keyword::FsEavAttr);
    }
    if chars_eq_str(w, "E7_REGION") || chars_eq_str(w, "e7_region") {
        return Some(Keyword::FsE7Region);
    }
    if chars_eq_str(w, "ROUTE") || chars_eq_str(w, "route") {
        return Some(Keyword::Route);
    }
    if chars_eq_str(w, "INDEX") || chars_eq_str(w, "index") {
        return Some(Keyword::Index);
    }
    if chars_eq_str(w, "MODULAR") || chars_eq_str(w, "modular") {
        return Some(Keyword::Modular);
    }
    if chars_eq_str(w, "weight") {
        return Some(Keyword::AttrWeight);
    }
    if chars_eq_str(w, "level") {
        return Some(Keyword::AttrLevel);
    }
    if chars_eq_str(w, "signature") {
        return Some(Keyword::AttrSignature);
    }
    if chars_eq_str(w, "total_mass") {
        return Some(Keyword::AttrTotalMass);
    }
    if chars_eq_str(w, "peak_cost") {
        return Some(Keyword::AttrPeakCost);
    }
    None
}

/// Looks a word up in the keyword table.
fn lookup_keyword(w: &Vec<char>) -> (k: Option<Keyword>)
    ensures
        k == keyword_of(w@),
{
    let k0 = lookup_part_0(w);
    if k0.is_some() {
        return k0;
    }
    let k1 = lookup_part_1(w);
    if k1.is_some() {
        return k1;
    }
    let k2 = lookup_part_2(w);
    if k2.is_some() {
        return k2;
    }
    let k3 = lookup_part_3(w);
    if k3.is_some() {
        return k3;
    }
    let k4 = lookup_part_4(w);
    if k4.is_some() {
        return k4;
    }
    let k5 = lookup_part_5(w);
    if k5.is_some() {
        return k5;
    }
    None
}

/// A lexical token. Float literals keep their decimal text.
#[derive(Debug, Clone, PartialEq)]
pub enum Token {
    Kw(Keyword),
    Ident(String),
    Str(String),
    Int(i64),
    Float(String),
    Eof,
}

/// A token as a value.
pub enum TokenView {
    Kw(Keyword),
    Ident(Seq<char>),
    Str(Seq<char>),
    Int(i64),
    Float(Seq<char>),
    Eof,
}

impl View for Token {
    type V = TokenView;

    open spec fn view(&self) -> TokenView {
        match self {
            Token::Kw(k) => TokenView::Kw(*k),
            Token::Ident(s) => TokenView::Ident(s@),
            Token::Str(s) => TokenView::Str(s@),
            Token::Int(v) => TokenView::Int(*v),
            Token::Float(s) => TokenView::Float(s@),
            Token::Eof => TokenView::Eof,
        }
    }
}

/// An ASCII decimal digit.
pub open spec fn is_ascii_digit(c: char) -> bool {
    '0' <= c && c <= '9'
}

/// A character that may start an identifier.
pub open spec fn ident_start(c: char) -> bool {
    alphabetic(c) || c == '_'
}

/// A character that may continue an identifier.
pub open spec fn ident_char(c: char) -> bool {
    alphabetic(c) || numeric(c) || c == '_'
}

/// The end of the run of digits starting at `i`.
pub open spec fn digits_end(c: Seq<char>, i: int) -> int
    decreases c.len() - i,
{
    if 0 <= i < c.len() && is_ascii_digit(c[i]) {
        digits_end(c, i + 1)
    } else {
        i
    }
}

/// The end of the identifier characters starting at `i`.
pub open spec fn word_end(c: Seq<char>, i: int) -> int
    decreases c.len() - i,
{
    if 0 <= i < c.len() && ident_char(c[i]) {
        word_end(c, i + 1)
    } else {
        i
    }
}

/// The index of the first newline at or after `i` (the length if none).
pub open spec fn line_end(c: Seq<char>, i: int) -> int
    decreases c.len() - i,
{
    if 0 <= i < c.len() && c[i] != '\n' {
        line_end(c, i + 1)
    } else {
        i
    }
}

/// The value of a string of decimal digits.
pub open spec fn digits_value(d: Seq<char>) -> nat
    decreases d.len(),
{
    if d.len() == 0 {
        0
    } else {
        digits_value(d.drop_last()) * 10 + ((d.last() as int - 48) as nat)
    }
}

/// The contents of a quoted string whose body starts at `i` (a doubled
/// quote stands for one quote), and the index after its closing quote;
/// an unterminated string runs to the end.
pub open spec fn quoted(c: Seq<char>, i: int) -> (Seq<char>, int)
    decreases c.len() - i,
{
    if i < 0 || i >= c.len() {
        (Seq::empty(), c.len() as int)
    } else if c[i] == '"' {
        if i + 1 < c.len() && c[i + 1] == '"' {
            let r = quoted(c, i + 2);
            (seq!['"'] + r.0, r.1)
        } else {
            (Seq::empty(), i + 1)
        }
    } else {
        let r = quoted(c, i + 1);
        (seq![c[i]] + r.0, r.1)
    }
}

/// Character `k` exists and is `x`.
pub open spec fn char_at(c: Seq<char>, k: int, x: char) -> bool {
    0 <= k < c.len() && c[k] == x
}

/// What the lexer does at index `i`.
pub enum LexStep {
    /// Skip to this index.
    Skip(int),
    /// Emit a token and continue at this index.
    Emit(TokenView, int),
    /// Fail with this message.
    Fail(Seq<char>),
}

/// The operator or punctuation a single character stands for.
pub open spec fn single_char_keyword(ch: char) -> Option<Keyword> {
    if ch == '|' {
        Some(Keyword::Pipe)
    } else if ch == '=' {
        Some(Keyword::Eq)
    } else if ch == '>' {
        Some(Keyword::Gt)
    } else if ch == '<' {
        Some(Keyword::Lt)
    } else if ch == '.' {
        Some(Keyword::Dot)
    } else if ch == ',' {
        Some(Keyword::Comma)
    } else if ch == '*' {
        Some(Keyword::Star)
    } else if ch == '[' {
        Some(Keyword::LBracket)
    } else if ch == ']' {
        Some(Keyword::RBracket)
    } else {
        None
    }
}

/// The two-character operator starting at `i`, if any.
pub open spec fn two_char_keyword(c: Seq<char>, i: int) -> Option<Keyword> {
    if c[i] == '!' && char_at(c, i + 1, '=') {
        Some(Keyword::Neq)
    } else if c[i] == '>' && char_at(c, i + 1, '=') {
        Some(Keyword::Gte)
    } else if c[i] == '<' && char_at(c, i + 1, '=') {
        Some(Keyword::Lte)
    } else if c[i] == '.' && char_at(c, i + 1, '.') {
        Some(Keyword::DotDot)
    } else {
        None
    }
}

/// The lexer's rule at index `i`, in order: whitespace, `--` comments,
/// negative integers, two-character operators, single-character
/// operators and punctuation, quoted strings, numbers, words; anything
/// else is an unexpected character.
pub open spec fn lex_step(c: Seq<char>, i: int) -> LexStep {
    let ch = c[i];
    if white_space(ch) {
        LexStep::Skip(i + 1)
    } else if ch == '-' && char_at(c, i + 1, '-') {
        LexStep::Skip(line_end(c, i))
    } else if ch == '-' && i + 1 < c.len() && is_ascii_digit(c[i + 1]) {
        let e = digits_end(c, i + 1);
        let d = c.subrange(i + 1, e);
        if digits_value(d) <= i64::MAX {
            LexStep::Emit(TokenView::Int((-(digits_value(d) as int)) as i64), e)
        } else {
            LexStep::Fail("Bad negative integer: -"@ + d)
        }
    } else if two_char_keyword(c, i) is Some {
        LexStep::Emit(TokenView::Kw(two_char_keyword(c, i)->0), i + 2)
    } else if single_char_keyword(ch) is Some {
        LexStep::Emit(TokenView::Kw(single_char_keyword(ch)->0), i + 1)
    } else if ch == '"' {
        let q = quoted(c, i + 1);
        LexStep::Emit(TokenView::Str(q.0), q.1)
    } else if is_ascii_digit(ch) {
        let e = digits_end(c, i);
        if e + 1 < c.len() && c[e] == '.' && is_ascii_digit(c[e + 1]) {
            let f = digits_end(c, e + 1);
            LexStep::Emit(TokenView::Float(c.subrange(i, f)), f)
        } else {
            let d = c.subrange(i, e);
            if digits_value(d) <= i64::MAX {
                LexStep::Emit(TokenView::Int(digits_value(d) as i64), e)
            } else {
                LexStep::Fail("Bad int: "@ + d)
            }
        }
    } else if ident_start(ch) {
        let e = word_end(c, i);
        let w = c.subrange(i, e);
        match keyword_of(w) {
            Some(k) => LexStep::Emit(TokenView::Kw(k), e),
            None => LexStep::Emit(TokenView::Ident(w), e),
        }
    } else {
        LexStep::Fail("Unexpected character: "@ + char_debug_of(ch))
    }
}

/// The tokens of `c` from index `i` on, ending with `Eof`, or the first
/// error.
pub open spec fn lex_from(c: Seq<char>, i: int) -> Result<Seq<TokenView>, Seq<char>>
    decreases c.len() - i,
{
    if i < 0 || i >= c.len() {
        Ok(seq![TokenView::Eof])
    } else {
        match lex_step(c, i) {
            LexStep::Skip(j) => if i < j <= c.len() {
                lex_from(c, j)
            } else {
                Err(Seq::empty())
            },
            LexStep::Emit(t, j) => if i < j <= c.len() {
                match lex_from(c, j) {
                    Ok(ts) => Ok(seq![t] + ts),
                    Err(e) => Err(e),
                }
            } else {
                Err(Seq::empty())
            },
            LexStep::Fail(m) => Err(m),
        }
    }
}

/// The tokens of a source text.
pub open spec fn lex(source: Seq<char>) -> Result<Seq<TokenView>, Seq<char>> {
    lex_from(source, 0)
}

/// `ts` in front of a lexing outcome.
pub open spec fn prepend(ts: Seq<TokenView>, r: Result<Seq<TokenView>, Seq<char>>) -> Result<Seq<TokenView>, Seq<char>> {
    match r {
        Ok(rest) => Ok(ts + rest),
        Err(e) => Err(e),
    }
}

/// The views of a list of tokens.
pub open spec fn token_views(ts: Seq<Token>) -> Seq<TokenView> {
    ts.map_values(|t: Token| t@)
}

/// Runs of digits, words and lines stay inside the text and past `i`.
proof fn lemma_runs(c: Seq<char>, i: int)
    requires
        0 <= i <= c.len(),
    ensures
        i <= digits_end(c, i) <= c.len(),
        i <= word_end(c, i) <= c.len(),
        i <= line_end(c, i) <= c.len(),
        forall|k: int| i <= k < digits_end(c, i) ==> is_ascii_digit(#[trigger] c[k]),
        digits_end(c, i) < c.len() ==> !is_ascii_digit(c[digits_end(c, i)]),
        forall|k: int| i <= k < word_end(c, i) ==> ident_char(#[trigger] c[k]),
        word_end(c, i) < c.len() ==> !ident_char(c[word_end(c, i)]),
        line_end(c, i) < c.len() ==> c[line_end(c, i)] == '\n',
    decreases c.len() - i,
{
    if i < c.len() {
        lemma_runs(c, i + 1);
    }
}

/// A quoted string ends inside the text, past its start.
proof fn lemma_quoted(c: Seq<char>, i: int)
    requires
        0 <= i <= c.len(),
    ensures
        i <= quoted(c, i).1 <= c.len(),
    decreases c.len() - i,
{
    if i < c.len() {
        if c[i] == '"' {
            if i + 1 < c.len() && c[i + 1] == '"' {
                lemma_quoted(c, i + 2);
            }
        } else {
            lemma_quoted(c, i + 1);
        }
    }
}

/// A longer run of digits has at least the value of its prefix.
proof fn lemma_digits_value_grows(d: Seq<char>, k: int)
    requires
        0 <= k <= d.len(),
        forall|j: int| 0 <= j < d.len() ==> is_ascii_digit(#[trigger] d[j]),
    ensures
        digits_value(d.subrange(0, k)) <= digits_value(d),
    decreases d.len(),
{
    if k < d.len() {
        let init = d.drop_last();
        assert forall|j: int| 0 <= j < init.len() implies is_ascii_digit(#[trigger] init[j]) by {
            assert(init[j] == d[j]);
        }
        lemma_digits_value_grows(init, k);
        assert(init.subrange(0, k) =~= d.subrange(0, k));
    } else {
        assert(d.subrange(0, k) =~= d);
    }
}

/// The end of the digit run starting at `i`.
fn scan_digits(c: &Vec<char>, i: usize) -> (e: usize)
    requires
        i <= c@.len(),
    ensures
        e == digits_end(c@, i as int),
{
    let mut j = i;
    proof {
        lemma_runs(c@, i as int);
    }
    while j < c.len() && '0' <= c[j] && c[j] <= '9'
        invariant
            i <= j <= c@.len(),
            digits_end(c@, j as int) == digits_end(c@, i as int),
        decreases c@.len() - j,
    {
        j = j + 1;
    }
    j
}

/// The end of the identifier run starting at `i`.
fn scan_word(c: &Vec<char>, i: usize) -> (e: usize)
    requires
        i <= c@.len(),
    ensures
        e == word_end(c@, i as int),
{
    let mut j = i;
    while j < c.len() && (is_alphanumeric_char(c[j]) || c[j] == '_')
        invariant
            i <= j <= c@.len(),
            word_end(c@, j as int) == word_end(c@, i as int),
        decreases c@.len() - j,
    {
        j = j + 1;
    }
    j
}

/// The index of the first newline at or after `i`.
fn scan_line(c: &Vec<char>, i: usize) -> (e: usize)
    requires
        i <= c@.len(),
    ensures
        e == line_end(c@, i as int),
{
    let mut j = i;
    while j < c.len() && c[j] != '\n'
        invariant
            i <= j <= c@.len(),
            line_end(c@, j as int) == line_end(c@, i as int),
        decreases c@.len() - j,
    {
        j = j + 1;
    }
    j
}

/// The value of the digits in `[i, e)` when it fits an `i64`.
fn digits_to_i64(c: &Vec<char>, i: usize, e: usize) -> (v: Option<i64>)
    requires
        i <= e <= c@.len(),
        forall|k: int| i <= k < e ==> is_ascii_digit(#[trigger] c@[k]),
    ensures
        match v {
            Some(x) => digits_value(c@.subrange(i as int, e as int)) <= i64::MAX && x == digits_value(
                c@.subrange(i as int, e as int),
            ),
            None => digits_value(c@.subrange(i as int, e as int)) > i64::MAX,
        },
{
    let ghost d = c@.subrange(i as int, e as int);
    let mut acc: u64 = 0;
    let mut j = i;
    while j < e
        invariant
            i <= j <= e <= c@.len(),
            d == c@.subrange(i as int, e as int),
            forall|k: int| i <= k < e ==> is_ascii_digit(#[trigger] c@[k]),
            acc == digits_value(c@.subrange(i as int, j as int)),
            acc <= i64::MAX,
        decreases e - j,
    {
        let digit: u64 = (c[j] as u32 - 48) as u64;
        let next: u128 = acc as u128 * 10 + digit as u128;
        proof {
            let p = c@.subrange(i as int, j + 1);
            assert(p.drop_last() =~= c@.subrange(i as int, j as int));
            assert(p.last() == c@[j as int]);
        }
        if next > 0x7FFF_FFFF_FFFF_FFFF {
            proof {
                assert forall|k: int| 0 <= k < d.len() implies is_ascii_digit(#[trigger] d[k]) by {
                    assert(d[k] == c@[i + k]);
                }
                lemma_digits_value_grows(d, j + 1 - i);
                assert(d.subrange(0, j + 1 - i) =~= c@.subrange(i as int, j + 1));
            }
            return None;
        }
        acc = next as u64;
        j = j + 1;
    }
    Some(acc as i64)
}

/// What the lexer does at one index, computed.
enum Step {
    Skip(usize),
    Emit(Token, usize),
    Fail(String),
}

/// The step as a value.
spec fn step_view(s: Step) -> LexStep {
    match s {
        Step::Skip(j) => LexStep::Skip(j as int),
        Step::Emit(t, j) => LexStep::Emit(t@, j as int),
        Step::Fail(m) => LexStep::Fail(m@),
    }
}

/// The quoted string whose body starts at `i`.
fn scan_quoted(c: &Vec<char>, i: usize) -> (r: (String, usize))
    requires
        i <= c@.len(),
    ensures
        r.0@ == quoted(c@, i as int).0,
        r.1 == quoted(c@, i as int).1,
{
    let mut s = String::new();
    let mut j = i;
    proof {
        lemma_quoted(c@, i as int);
    }
    while j < c.len()
        invariant
            i <= j <= c@.len(),
            s@ + quoted(c@, j as int).0 == quoted(c@, i as int).0,
            quoted(c@, j as int).1 == quoted(c@, i as int).1,
        decreases c@.len() - j,
    {
        let ghost prev = s@;
        if c[j] == '"' {
            if j + 1 < c.len() && c[j + 1] == '"' {
                string_push(&mut s, '"');
                assert(s@ + quoted(c@, j + 2).0 =~= prev + quoted(c@, j as int).0);
                j = j + 2;
            } else {
                assert(s@ + quoted(c@, j as int).0 =~= s@);
                return (s, j + 1);
            }
        } else {
            string_push(&mut s, c[j]);
            assert(s@ + quoted(c@, j + 1).0 =~= prev + quoted(c@, j as int).0);
            j = j + 1;
        }
    }
    assert(s@ + quoted(c@, j as int).0 =~= s@);
    (s, j)
}

/// The lexer's step at index `i`.
fn lex_step_exec(c: &Vec<char>, i: usize) -> (r: Step)
    requires
        i < c@.len(),
    ensures
        step_view(r) == lex_step(c@, i as int),
        r matches Step::Skip(j) ==> i < j <= c@.len(),
        r matches Step::Emit(_, j) ==> i < j <= c@.len(),
{
    let n = c.len();
    let ch = c[i];
    proof {
        lemma_runs(c@, i as int);
        lemma_runs(c@, i + 1);
    }
    if is_white_space(ch) {
        return Step::Skip(i + 1);
    }
    if ch == '-' && i + 1 < n && c[i + 1] == '-' {
        return Step::Skip(scan_line(c, i));
    }
    if ch == '-' && i + 1 < n && '0' <= c[i + 1] && c[i + 1] <= '9' {
        let e = scan_digits(c, i + 1);
        match digits_to_i64(c, i + 1, e) {
            Some(v) => {
                return Step::Emit(Token::Int(-v), e);
            },
            None => {
                let d: Vec<char> = vstd::slice::slice_to_vec(vstd::slice::slice_subrange(c.as_slice(), i + 1, e));
                let mut m = "Bad negative integer: -".to_owned();
                let ds = string_from_chars(&d);
                m.append(ds.as_str());
                return Step::Fail(m);
            },
        }
    }
    if i + 1 < n {
        let nx = c[i + 1];
        if ch == '!' && nx == '=' {
            return Step::Emit(Token::Kw(Keyword::Neq), i + 2);
        }
        if ch == '>' && nx == '=' {
            return Step::Emit(Token::Kw(Keyword::Gte), i + 2);
        }
        if ch == '<' && nx == '=' {
            return Step::Emit(Token::Kw(Keyword::Lte), i + 2);
        }
        if ch == '.' && nx == '.' {
            return Step::Emit(Token::Kw(Keyword::DotDot), i + 2);
        }
    }
    let single = if ch == '|' {
        Some(Keyword::Pipe)
    } else if ch == '=' {
        Some(Keyword::Eq)
    } else if ch == '>' {
        Some(Keyword::Gt)
    } else if ch == '<' {
        Some(Keyword::Lt)
    } else if ch == '.' {
        Some(Keyword::Dot)
    } else if ch == ',' {
        Some(Keyword::Comma)
    } else if ch == '*' {
        Some(Keyword::Star)
    } else if ch == '[' {
        Some(Keyword::LBracket)
    } else if ch == ']' {
        Some(Keyword::RBracket)
    } else {
        None
    };
    match single {
        Some(k) => {
            return Step::Emit(Token::Kw(k), i + 1);
        },
        None => {},
    }
    if ch == '"' {
        proof {
            lemma_quoted(c@, i + 1);
        }
        let (s, j) = scan_quoted(c, i + 1);
        return Step::Emit(Token::Str(s), j);
    }
    if '0' <= ch && ch <= '9' {
        let e = scan_digits(c, i);
        if e < n - 1 && c[e] == '.' && '0' <= c[e + 1] && c[e + 1] <= '9' {
            proof {
                lemma_runs(c@, e + 1);
            }
            let f = scan_digits(c, e + 1);
            let t: Vec<char> = vstd::slice::slice_to_vec(vstd::slice::slice_subrange(c.as_slice(), i, f));
            return Step::Emit(Token::Float(string_from_chars(&t)), f);
        }
        match digits_to_i64(c, i, e) {
            Some(v) => {
                return Step::Emit(Token::Int(v), e);
            },
            None => {
                let d: Vec<char> = vstd::slice::slice_to_vec(vstd::slice::slice_subrange(c.as_slice(), i, e));
                let mut m = "Bad int: ".to_owned();
                let ds = string_from_chars(&d);
                m.append(ds.as_str());
                return Step::Fail(m);
            },
        }
    }
    if is_alphabetic_char(ch) || ch == '_' {
        let e = scan_word(c, i);
        let w: Vec<char> = vstd::slice::slice_to_vec(vstd::slice::slice_subrange(c.as_slice(), i, e));
        match lookup_keyword(&w) {
            Some(k) => {
                return Step::Emit(Token::Kw(k), e);
            },
            None => {
                return Step::Emit(Token::Ident(string_from_chars(&w)), e);
            },
        }
    }
    let mut m = "Unexpected character: ".to_owned();
    let dbg = char_debug(ch);
    m.append(dbg.as_str());
    Step::Fail(m)
}

/// Tokenizes a HeptaScript source text (see `lex`); the tokens end with
/// `Eof`.
pub fn tokenize(source: &str) -> (r: Result<Vec<Token>, String>)
    ensures
        match r {
            Ok(v) => lex(source@) == Ok::<Seq<TokenView>, Seq<char>>(token_views(v@)),
            Err(m) => lex(source@) == Err::<Seq<TokenView>, Seq<char>>(m@),
        },
{
    let c = str_chars(source);
    let n = c.len();
    let mut tokens: Vec<Token> = Vec::new();
    let mut i: usize = 0;
    while i < n
        invariant
            0 <= i <= n,
            n == c@.len(),
            c@ == source@,
            lex_from(c@, 0) == prepend(token_views(tokens@), lex_from(c@, i as int)),
        decreases n - i,
    {
        let st = lex_step_exec(&c, i);
        match st {
            Step::Skip(j) => {
                i = j;
            },
            Step::Emit(t, j) => {
                proof {
                    assert(token_views(tokens@.push(t)) =~= token_views(tokens@).push(t@));
                    match lex_from(c@, j as int) {
                        Ok(rest) => {
                            assert(token_views(tokens@) + (seq![t@] + rest) =~= token_views(tokens@).push(t@)
                                + rest);
                        },
                        Err(_) => {},
                    }
                }
                tokens.push(t);
                i = j;
            },
            Step::Fail(m) => {
                return Err(m);
            },
        }
    }
    proof {
        assert(token_views(tokens@.push(Token::Eof)) =~= token_views(tokens@) + seq![TokenView::Eof]);
    }
    tokens.push(Token::Eof);
    Ok(tokens)
}


/// The tokens of `c` from `i` are `t` followed by the tokens from `j`.
pub open spec fn emits_then(c: Seq<char>, i: int, t: TokenView, j: int) -> bool {
    lex_from(c, i) == prepend(seq![t], lex_from(c, j))
}

/// Each operator text lexes to its own keyword, and lexing goes on right
/// after it: `<=`, `>=`, `!=` and `..` are read as one two-character
/// operator; `<`, `>` and `.` not followed by `=` (or `.` for the dot)
/// are read alone, as are `=`, `|`, `,`, `*`, `[` and `]`.
pub proof fn law_operator_tokens(c: Seq<char>, i: int)
    requires
        0 <= i < c.len(),
    ensures
        c[i] == '<' && char_at(c, i + 1, '=') ==> emits_then(c, i, TokenView::Kw(Keyword::Lte), i + 2),
        c[i] == '>' && char_at(c, i + 1, '=') ==> emits_then(c, i, TokenView::Kw(Keyword::Gte), i + 2),
        c[i] == '!' && char_at(c, i + 1, '=') ==> emits_then(c, i, TokenView::Kw(Keyword::Neq), i + 2),
        c[i] == '.' && char_at(c, i + 1, '.') ==> emits_then(c, i, TokenView::Kw(Keyword::DotDot), i + 2),
        c[i] == '<' && !char_at(c, i + 1, '=') ==> emits_then(c, i, TokenView::Kw(Keyword::Lt), i + 1),
        c[i] == '>' && !char_at(c, i + 1, '=') ==> emits_then(c, i, TokenView::Kw(Keyword::Gt), i + 1),
        c[i] == '.' && !char_at(c, i + 1, '.') ==> emits_then(c, i, TokenView::Kw(Keyword::Dot), i + 1),
        c[i] == '=' ==> emits_then(c, i, TokenView::Kw(Keyword::Eq), i + 1),
        c[i] == '|' ==> emits_then(c, i, TokenView::Kw(Keyword::Pipe), i + 1),
        c[i] == ',' ==> emits_then(c, i, TokenView::Kw(Keyword::Comma), i + 1),
        c[i] == '*' ==> emits_then(c, i, TokenView::Kw(Keyword::Star), i + 1),
        c[i] == '[' ==> emits_then(c, i, TokenView::Kw(Keyword::LBracket), i + 1),
        c[i] == ']' ==> emits_then(c, i, TokenView::Kw(Keyword::RBracket), i + 1),
{
    let ch = c[i];
    if ch == '<' || ch == '>' || ch == '!' || ch == '.' || ch == '=' || ch == '|' || ch == ',' || ch == '*' || ch == '[' || ch == ']' {
        assert(!white_space(ch));
        assert(ch != '-');
    }
    assert(lex_from(c, i) == match lex_step(c, i) {
        LexStep::Skip(j) => if i < j <= c.len() {
            lex_from(c, j)
        } else {
            Err(Seq::empty())
        },
        LexStep::Emit(t, j) => if i < j <= c.len() {
            match lex_from(c, j) {
                Ok(ts) => Ok(seq![t] + ts),
                Err(e) => Err(e),
            }
        } else {
            Err(Seq::empty())
        },
        LexStep::Fail(m) => Err(m),
    });
}

} // verus!
