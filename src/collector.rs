use vstd::prelude::*;
use crate::entry_type::{entry_type_of, is_valid_raw_entry_type, EntryType};
use crate::property_map::PropertyMap;

verus! {

/// What the engine tells a factory when it asks for a collector.
pub struct TablePropertiesCollectorFactoryContext {
    /// The level at creating the SST file (i.e, table), of which the properties are being collected.
    pub level_at_creation: i32,
}

impl TablePropertiesCollectorFactoryContext {
    /// The context for a table built at level `level_at_creation`.
    pub fn from_raw(level_at_creation: i32) -> (r: TablePropertiesCollectorFactoryContext)
        ensures
            r.level_at_creation == level_at_creation,
    {
        TablePropertiesCollectorFactoryContext { level_at_creation }
    }
}

/// A collector of statistics over the records of one table being built.
///
/// Its spec functions say what each method does to the collector's state and
/// what it returns, so that the engine's calls can be followed through it.
pub trait TablePropertiesCollector: Sized {
    /// The name that `name` returns.
    spec fn name_spec(&self) -> Seq<char>;

    /// The state after one record has been added.
    spec fn after_add(
        self,
        key: Seq<u8>,
        value: Seq<u8>,
        entry_type: EntryType,
        seq: u64,
        file_size: u64,
    ) -> Self;

    /// The state after one data block has been added; unchanged unless overridden.
    open spec fn after_block(self, uncomp: u64, fast: u64, slow: u64) -> Self {
        self
    }

    /// The properties that `finish_properties` returns in this state.
    spec fn finished(self) -> Map<Seq<u8>, Seq<u8>>;

    /// The readable properties that `get_readable_properties` returns in this
    /// state; empty unless overridden.
    open spec fn readable_of(self) -> Map<Seq<u8>, Seq<u8>> {
        Map::empty()
    }

    /// A name that stays the same for the collector's whole life.
    fn name(&self) -> (r: &str)
        ensures
            r@ == self.name_spec(),
    ;

    /// Called once for each record written to the table, in write order.
    fn add_user_key(
        &mut self,
        key: &[u8],
        value: &[u8],
        entry_type: EntryType,
        seq: u64,
        file_size: u64,
    )
        ensures
            *final(self) == old(self).after_add(key@, value@, entry_type, seq, file_size),
    ;

    /// Called once for each data block written. An implementation that keeps
    /// the default `after_block` leaves the collector as it was.
    fn block_add(
        &mut self,
        block_uncomp_bytes: u64,
        block_compressed_bytes_fast: u64,
        block_compressed_bytes_slow: u64,
    )
        ensures
            *final(self) == old(self).after_block(
                block_uncomp_bytes,
                block_compressed_bytes_fast,
                block_compressed_bytes_slow,
            ),
    ;

    /// Called once, after every record and block: the properties stored with the table.
    fn finish_properties(&mut self) -> (r: PropertyMap)
        ensures
            r@ == old(self).finished(),
    ;

    /// A human-oriented form of the statistics. An implementation that keeps
    /// the default `readable_of` returns an empty map.
    fn get_readable_properties(&mut self) -> (r: PropertyMap)
        ensures
            r@ == old(self).readable_of(),
    ;
}

/// A long-lived template that makes one collector for each table build.
pub trait TablePropertiesCollectorFactory: Sized {
    type Collector: TablePropertiesCollector;

    /// The name that `name` returns.
    spec fn name_spec(&self) -> Seq<char>;

    /// The collector that `create` makes in this state for a table built at `level`.
    spec fn created(self, level: i32) -> Self::Collector;

    /// The factory's state after making a collector for a table built at `level`.
    spec fn after_create(self, level: i32) -> Self;

    /// Makes a fresh collector for a table about to be built.
    fn create(&mut self, ctx: TablePropertiesCollectorFactoryContext) -> (r: Self::Collector)
        ensures
            r == old(self).created(ctx.level_at_creation),
            *final(self) == old(self).after_create(ctx.level_at_creation),
    ;

    /// A name that stays the same for the factory's whole life.
    fn name(&self) -> (r: &str)
        ensures
            r@ == self.name_spec(),
    ;
}

/// One record as the engine delivered it to a collector.
pub struct UserKeyRecord {
    pub key: Seq<u8>,
    pub value: Seq<u8>,
    pub entry_type: EntryType,
    pub seq: u64,
    pub file_size: u64,
}

/// Where a collector stands in the build of its table.
#[derive(Debug, PartialEq, Eq, Structural, Clone, Copy)]
pub enum BuildPhase {
    /// Records and blocks are being delivered.
    Collecting,
    /// The table's properties have been emitted.
    Finished,
    /// The readable properties have been emitted too.
    Reported,
}

/// The engine's handle on one collector during one table build. It forwards
/// the engine's calls to the collector in the order the build allows: records
/// and blocks, then the properties once, then the readable properties at most
/// once. Dropping it disposes of the collector.
pub struct CollectorHandle<C: TablePropertiesCollector> {
    collector: C,
    phase: BuildPhase,
    records: Ghost<Seq<UserKeyRecord>>,
    records_at_finish: Ghost<Seq<UserKeyRecord>>,
    emitted: Ghost<Map<Seq<u8>, Seq<u8>>>,
    readable: Ghost<Map<Seq<u8>, Seq<u8>>>,
}

impl<C: TablePropertiesCollector> CollectorHandle<C> {
    /// The collector in its current state.
    pub closed spec fn collector(&self) -> C {
        self.collector
    }

    /// The build phase.
    pub closed spec fn phase(&self) -> BuildPhase {
        self.phase
    }

    /// The records delivered to the collector so far, in order.
    pub closed spec fn records(&self) -> Seq<UserKeyRecord> {
        self.records@
    }

    /// The records the collector had seen when it emitted its properties.
    pub closed spec fn records_at_finish(&self) -> Seq<UserKeyRecord> {
        self.records_at_finish@
    }

    /// The properties the collector emitted, once finished.
    pub closed spec fn emitted(&self) -> Map<Seq<u8>, Seq<u8>> {
        self.emitted@
    }

    /// The readable properties the collector emitted, once reported.
    pub closed spec fn readable(&self) -> Map<Seq<u8>, Seq<u8>> {
        self.readable@
    }

    /// Once the properties are emitted, no further record has been delivered.
    pub closed spec fn wf(&self) -> bool {
        self.phase != BuildPhase::Collecting ==> self.records@ == self.records_at_finish@
    }

    /// A handle on a fresh collector, before any record.
    pub fn new(collector: C) -> (r: Self)
        ensures
            r.wf(),
            r.collector() == collector,
            r.phase() == BuildPhase::Collecting,
            r.records() == Seq::<UserKeyRecord>::empty(),
    {
        CollectorHandle {
            collector,
            phase: BuildPhase::Collecting,
            records: Ghost(Seq::empty()),
            records_at_finish: Ghost(Seq::empty()),
            emitted: Ghost(Map::empty()),
            readable: Ghost(Map::empty()),
        }
    }

    /// The collector's name.
    pub fn name(&self) -> (r: &str)
        ensures
            r@ == self.collector().name_spec(),
    {
        self.collector.name()
    }

    /// Delivers one record, its kind given as the engine's raw tag. A tag
    /// outside `0..=9` breaks the engine's contract: it is excluded here, and
    /// an unchecked caller that passes one panics before the collector is
    /// called.
    pub fn add_user_key(
        &mut self,
        key: &[u8],
        value: &[u8],
        entry_type: i32,
        seq: u64,
        file_size: u64,
    )
        requires
            old(self).wf(),
            old(self).phase() == BuildPhase::Collecting,
            is_valid_raw_entry_type(entry_type as int),
        ensures
            final(self).wf(),
            final(self).phase() == BuildPhase::Collecting,
            final(self).collector() == old(self).collector().after_add(
                key@,
                value@,
                entry_type_of(entry_type as int),
                seq,
                file_size,
            ),
            final(self).records() == old(self).records().push(
                UserKeyRecord {
                    key: key@,
                    value: value@,
                    entry_type: entry_type_of(entry_type as int),
                    seq,
                    file_size,
                },
            ),
    {
        let t = EntryType::from_raw(entry_type).unwrap();
        self.collector.add_user_key(key, value, t, seq, file_size);
        self.records = Ghost(
            self.records@.push(
                UserKeyRecord { key: key@, value: value@, entry_type: t, seq, file_size },
            ),
        );
    }

    /// Delivers the sizes of one data block.
    pub fn block_add(
        &mut self,
        block_uncomp_bytes: u64,
        block_compressed_bytes_fast: u64,
        block_compressed_bytes_slow: u64,
    )
        requires
            old(self).wf(),
            old(self).phase() == BuildPhase::Collecting,
        ensures
            final(self).wf(),
            final(self).phase() == BuildPhase::Collecting,
            final(self).collector() == old(self).collector().after_block(
                block_uncomp_bytes,
                block_compressed_bytes_fast,
                block_compressed_bytes_slow,
            ),
            final(self).records() == old(self).records(),
    {
        self.collector.block_add(
            block_uncomp_bytes,
            block_compressed_bytes_fast,
            block_compressed_bytes_slow,
        );
    }

    /// Asks the collector for its properties and hands each of them to `sink`.
    pub fn finish_properties(&mut self, sink: &mut PropertyMap)
        requires
            old(self).wf(),
            old(self).phase() == BuildPhase::Collecting,
        ensures
            final(self).wf(),
            final(self).phase() == BuildPhase::Finished,
            final(self).records() == old(self).records(),
            final(self).records_at_finish() == old(self).records(),
            final(self).emitted() == old(self).collector().finished(),
            final(sink)@ == old(sink)@.union_prefer_right(old(self).collector().finished()),
    {
        let properties = self.collector.finish_properties();
        properties.add_all_to(sink);
        self.emitted = Ghost(properties@);
        self.records_at_finish = Ghost(self.records@);
        self.phase = BuildPhase::Finished;
    }

    /// Asks the collector for its readable properties and hands each of them
    /// to `sink`. The properties emitted before stay as they were.
    pub fn get_readable_properties(&mut self, sink: &mut PropertyMap)
        requires
            old(self).wf(),
            old(self).phase() == BuildPhase::Finished,
        ensures
            final(self).wf(),
            final(self).phase() == BuildPhase::Reported,
            final(self).records() == old(self).records(),
            final(self).records_at_finish() == old(self).records_at_finish(),
            final(self).emitted() == old(self).emitted(),
            final(self).readable() == old(self).collector().readable_of(),
            final(sink)@ == old(sink)@.union_prefer_right(old(self).collector().readable_of()),
    {
        let properties = self.collector.get_readable_properties();
        properties.add_all_to(sink);
        self.readable = Ghost(properties@);
        self.phase = BuildPhase::Reported;
    }
}

/// The records a collector's properties are made from are those delivered
/// before the properties were emitted: once finished, a handle has delivered
/// no further record.
pub proof fn lemma_no_record_after_finish<C: TablePropertiesCollector>(h: CollectorHandle<C>)
    requires
        h.wf(),
        h.phase() != BuildPhase::Collecting,
    ensures
        h.records() == h.records_at_finish(),
{
}

/// The engine's handle on a registered factory: it names the factory and
/// makes a collector handle for each table build. Dropping it disposes of
/// the factory.
pub struct FactoryHandle<F: TablePropertiesCollectorFactory> {
    factory: F,
}

impl<F: TablePropertiesCollectorFactory> FactoryHandle<F> {
    /// The registered factory in its current state.
    pub closed spec fn factory(&self) -> F {
        self.factory
    }

    /// Registers `factory`.
    pub fn new(factory: F) -> (r: Self)
        ensures
            r.factory() == factory,
    {
        FactoryHandle { factory }
    }

    /// The factory's name; the same on every call, since asking for it does
    /// not change the factory.
    pub fn name(&self) -> (r: &str)
        ensures
            r@ == self.factory().name_spec(),
    {
        self.factory.name()
    }

    /// Makes the collector for a table built at `level_at_creation`, ready
    /// for its first record.
    pub fn create_collector(&mut self, level_at_creation: i32) -> (r: CollectorHandle<F::Collector>)
        ensures
            r.wf(),
            r.collector() == old(self).factory().created(level_at_creation),
            final(self).factory() == old(self).factory().after_create(level_at_creation),
            r.phase() == BuildPhase::Collecting,
            r.records() == Seq::<UserKeyRecord>::empty(),
    {
        let ctx = TablePropertiesCollectorFactoryContext::from_raw(level_at_creation);
        let collector = self.factory.create(ctx);
        CollectorHandle::new(collector)
    }
}

} // verus!
