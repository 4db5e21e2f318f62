//! What the catalog asks of the authorities it holds.

use vstd::prelude::*;

use crate::dump::Walk;
use crate::name::ZoneName;

verus! {

/// The role a server plays for a zone.
#[derive(Debug, Clone, Copy, PartialEq, Eq, Structural)]
pub enum ZoneType {
    /// The zone's data is edited here.
    Primary,
    /// Former name of `Primary`.
    Master,
    /// The zone's data is copied from a primary.
    Secondary,
    /// Former name of `Secondary`.
    Slave,
    /// The zone only points at the root servers.
    Hint,
    /// Queries for the zone are passed on to other resolvers.
    Forward,
}

/// True for the zone types whose data this server holds itself.
pub open spec fn spec_is_authoritative(zone_type: ZoneType) -> bool {
    match zone_type {
        ZoneType::Primary | ZoneType::Master | ZoneType::Secondary | ZoneType::Slave => true,
        ZoneType::Hint | ZoneType::Forward => false,
    }
}

impl ZoneType {
    /// True when this server answers for the zone with data of its own.
    pub fn is_authoritative(&self) -> (r: bool)
        ensures
            r == spec_is_authoritative(*self),
            r <==> !(*self == ZoneType::Hint || *self == ZoneType::Forward),
    {
        match self {
            ZoneType::Primary | ZoneType::Master | ZoneType::Secondary | ZoneType::Slave => true,
            ZoneType::Hint | ZoneType::Forward => false,
        }
    }
}

/// The server answers from its own data for every zone it holds a copy of, primary or
/// secondary under either name; only hint and forward zones are not its own.
pub proof fn law_held_zones_are_authoritative(zone_type: ZoneType)
    ensures
        spec_is_authoritative(zone_type) <==> (zone_type == ZoneType::Primary || zone_type
            == ZoneType::Master || zone_type == ZoneType::Secondary || zone_type == ZoneType::Slave),
        !spec_is_authoritative(zone_type) <==> (zone_type == ZoneType::Hint || zone_type
            == ZoneType::Forward),
{
}

/// How a lookup is to be made.
#[derive(Debug, Clone, Copy, PartialEq, Eq, Structural)]
pub struct LookupOptions {
    /// Signatures and denial-of-existence records are wanted.
    pub dnssec_ok: bool,
}

/// An authority for one zone, as the catalog holds it.
pub trait AuthorityObject: Walk {
    /// The type of the zone, as `zone_type` reports it.
    spec fn zone_kind(&self) -> ZoneType;

    /// True when `out` is what a dump of the authority itself may append.
    spec fn authority_dump_appends(&self, out: Seq<u8>) -> bool;

    /// Writes the entry of the authority itself.
    fn dump(&self, f: &mut Vec<u8>)
        ensures
            exists|out: Seq<u8>| #[trigger] self.authority_dump_appends(out) && final(f)@ == old(f)@ + out,
    ;

    /// What type is this zone
    fn zone_type(&self) -> (r: ZoneType)
        ensures
            r == self.zone_kind(),
    ;

    /// Return true if AXFR is allowed
    fn is_axfr_allowed(&self) -> bool;

    /// Get the origin of this zone, i.e. example.com is the origin for www.example.com
    fn origin(&self) -> &ZoneName;
}

/// The records found by a lookup.
pub trait LookupObject: Sized {
    /// Returns true if either the associated Records are empty, or this is a NameExists or NxDomain
    fn is_empty(&self) -> bool;

    /// The additional set of lookup records that `take_additionals` hands out now.
    spec fn pending_additionals(&self) -> Option<Self>;

    /// For CNAME and similar records, this is an additional set of lookup records
    ///
    /// it is acceptable for this to return None after the first call.
    fn take_additionals(&mut self) -> (r: Option<Self>)
        ensures
            r == old(self).pending_additionals(),
    ;
}

/// A lookup that returns no records
#[derive(Clone, Copy, Debug)]
pub struct EmptyLookup;

impl LookupObject for EmptyLookup {
    /// An empty lookup has no additional records.
    open spec fn pending_additionals(&self) -> Option<Self> {
        None
    }

    fn is_empty(&self) -> (r: bool)
        ensures
            r,
    {
        true
    }

    fn take_additionals(&mut self) -> (r: Option<Self>) {
        None
    }
}

} // verus!
