//! Per-table statistics collection for a table-building storage engine.
//!
//! Collectors are plugged into the build pipeline through a factory; the
//! engine drives each collector through a fixed lifecycle, and the
//! properties it emits are later read back from the finished tables.
use vstd::prelude::*;

pub mod bytes_order;
pub mod collector;
pub mod entry_type;
pub mod property_map;
pub mod put_stats;
pub mod table_properties;

pub use collector::{
    BuildPhase, CollectorHandle, FactoryHandle, TablePropertiesCollector,
    TablePropertiesCollectorFactory, TablePropertiesCollectorFactoryContext,
};
pub use entry_type::EntryType;
pub use property_map::PropertyMap;
pub use put_stats::{PutStatsCollector, PutStatsCollectorFactory};
pub use table_properties::{TableProperties, TablePropertiesCollection, TablePropertiesCursor};

verus! {

/// Properties round-trip byte for byte: what a collector's
/// `finish_properties` returns, handed to an empty sink by
/// `CollectorHandle::finish_properties`, stored as a table's user-collected
/// properties by `TableProperties::from_raw` and read back by
/// `TableProperties::user_collected_properties`, is exactly what the
/// collector returned. Each requirement is the contract of one of those calls.
pub proof fn lemma_properties_round_trip<C: TablePropertiesCollector>(
    before: CollectorHandle<C>,
    sink_before: PropertyMap,
    sink_after: PropertyMap,
    table: TableProperties,
    read_back: PropertyMap,
)
    requires
        sink_before@ == Map::<Seq<u8>, Seq<u8>>::empty(),
        sink_after@ == sink_before@.union_prefer_right(before.collector().finished()),
        table.user_collected_view() == sink_after@,
        read_back@ == table.user_collected_view(),
    ensures
        read_back@ == before.collector().finished(),
{
    assert(sink_after@ =~= before.collector().finished());
}

} // verus!
