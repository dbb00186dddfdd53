//! The typed bags of optional filter parameters, one per record kind.
//! An absent field places no constraint on the records.

use vstd::prelude::*;

verus! {

/// The optional per-field constraints a caller may put on monster records.
#[derive(Debug)]
pub struct MonsterQuery {
    pub type_: Option<String>,
    pub cr: Option<String>,
    pub size: Option<String>,
    pub alignment: Option<String>,
    pub ac: Option<String>,
    pub hp: Option<String>,
    pub speed: Option<String>,
    pub environment: Option<String>,
    /// Which movement mode the `speed` constraint reads; "walk" when absent.
    pub speed_type: Option<String>,
}

impl MonsterQuery {
    /// No field is constrained: such a query matches every record.
    pub open spec fn is_empty(self) -> bool {
        &&& self.type_ is None
        &&& self.cr is None
        &&& self.size is None
        &&& self.alignment is None
        &&& self.ac is None
        &&& self.hp is None
        &&& self.speed is None
        &&& self.environment is None
    }

    /// A query with every field absent.
    pub fn empty() -> (q: Self)
        ensures
            q.is_empty(),
            q.speed_type is None,
    {
        MonsterQuery {
            type_: None,
            cr: None,
            size: None,
            alignment: None,
            ac: None,
            hp: None,
            speed: None,
            environment: None,
            speed_type: None,
        }
    }
}

/// The optional per-field constraints a caller may put on spell records.
#[derive(Debug)]
pub struct SpellQuery {
    pub level: Option<u8>,
    pub school: Option<String>,
    pub casting_time: Option<String>,
    pub range: Option<String>,
    pub component_v: Option<bool>,
    pub component_s: Option<bool>,
    pub component_m: Option<bool>,
    pub duration: Option<String>,
    pub concentration: Option<bool>,
    pub ritual: Option<bool>,
}

impl SpellQuery {
    /// No field is constrained: such a query matches every record.
    pub open spec fn is_empty(self) -> bool {
        &&& self.level is None
        &&& self.school is None
        &&& self.casting_time is None
        &&& self.range is None
        &&& self.component_v is None
        &&& self.component_s is None
        &&& self.component_m is None
        &&& self.duration is None
        &&& self.concentration is None
        &&& self.ritual is None
    }

    /// A query with every field absent.
    pub fn empty() -> (q: Self)
        ensures
            q.is_empty(),
    {
        SpellQuery {
            level: None,
            school: None,
            casting_time: None,
            range: None,
            component_v: None,
            component_s: None,
            component_m: None,
            duration: None,
            concentration: None,
            ritual: None,
        }
    }
}

} // verus!
