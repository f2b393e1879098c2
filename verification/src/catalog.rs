//! The catalog, as far as the sequencer reads it: the columns of each
//! relation and the system's configuration.

use crate::error::CatalogError;
use crate::repr::{GlobalId, RelationDesc};
use vstd::prelude::*;

verus! {

/// The system's configuration.
#[derive(Debug)]
pub struct SystemConfig {
    /// The most bytes that the rows of one result may take.
    pub max_result_size: u32,
    /// Whether access control is switched on for every session.
    pub enable_rbac_checks: bool,
    /// Whether access control may be switched on at all.
    pub enable_ld_rbac_checks: bool,
}

/// One object of the catalog.
#[derive(Debug)]
pub struct CatalogEntry {
    pub id: GlobalId,
    /// The columns of the object; `None` where it is no relation.
    pub desc: Option<RelationDesc>,
}

impl CatalogEntry {
    /// The columns of the object, or the error that says it has none.
    pub fn desc(&self) -> (r: Result<&RelationDesc, CatalogError>)
        ensures
            match r {
                Ok(desc) => self.desc == Some(*desc),
                Err(e) => self.desc is None && e == CatalogError::InvalidDependency(self.id),
            },
    {
        match &self.desc {
            Some(desc) => Ok(desc),
            None => Err(CatalogError::InvalidDependency(self.id)),
        }
    }
}

/// The catalog at one revision.
#[derive(Debug)]
pub struct Catalog {
    /// The objects. Where two carry one identifier, the first counts.
    pub entries: Vec<CatalogEntry>,
    pub system_config: SystemConfig,
    /// The revision, which rises with every change.
    pub transient_revision: u64,
}

impl Catalog {
    /// The place of the first object with the identifier `id`, or the
    /// number of objects where none has it.
    pub open spec fn position(&self, id: GlobalId) -> int {
        position_in(self.entries@, id)
    }

    /// Whether an object has the identifier `id`.
    pub open spec fn contains(&self, id: GlobalId) -> bool {
        self.position(id) < self.entries@.len()
    }

    /// The object with the identifier `id`.
    pub fn try_get_entry(&self, id: &GlobalId) -> (entry: Option<&CatalogEntry>)
        ensures
            match entry {
                Some(entry) => self.contains(*id) && *entry == self.entries@[self.position(*id)]
                    && entry.id == *id,
                None => !self.contains(*id),
            },
    {
        let mut i: usize = 0;
        assert(self.entries@.skip(0) =~= self.entries@);
        while i < self.entries.len()
            invariant
                i <= self.entries@.len(),
                position_in(self.entries@, *id) == i + position_in(
                    self.entries@.skip(i as int),
                    *id,
                ),
            decreases self.entries.len() - i,
        {
            proof {
                assert(self.entries@.skip(i as int).skip(1) =~= self.entries@.skip(i + 1));
            }
            if self.entries[i].id == *id {
                return Some(&self.entries[i]);
            }
            i = i + 1;
        }
        None
    }

    pub fn system_config(&self) -> (config: &SystemConfig)
        ensures
            *config == self.system_config,
    {
        &self.system_config
    }

    pub fn transient_revision(&self) -> (revision: u64)
        ensures
            revision == self.transient_revision,
    {
        self.transient_revision
    }
}

/// The place of the first of `entries` with the identifier `id`, or their
/// number where none has it.
pub open spec fn position_in(entries: Seq<CatalogEntry>, id: GlobalId) -> int
    decreases entries.len(),
{
    if entries.len() == 0 {
        0
    } else if entries[0].id == id {
        0
    } else {
        1 + position_in(entries.skip(1), id)
    }
}

} // verus!
