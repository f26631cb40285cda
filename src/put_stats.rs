use vstd::prelude::*;
use crate::collector::{
    TablePropertiesCollector, TablePropertiesCollectorFactory,
    TablePropertiesCollectorFactoryContext,
};
use crate::entry_type::EntryType;
use crate::property_map::PropertyMap;
use vstd::string::StringSliceAdditionalSpecFns;

verus! {

/// The ASCII decimal digits of `n`, without leading zeros.
pub open spec fn decimal(n: nat) -> Seq<u8>
    decreases n,
{
    if n < 10 {
        seq![(48 + n) as u8]
    } else {
        decimal(n / 10).push((48 + n % 10) as u8)
    }
}

/// `n` written in ASCII decimal digits.
pub fn decimal_bytes(n: u64) -> (r: Vec<u8>)
    ensures
        r@ == decimal(n as nat),
    decreases n,
{
    if n < 10 {
        let d: u8 = (48 + n) as u8;
        let mut v: Vec<u8> = Vec::new();
        v.push(d);
        assert(v@ =~= seq![d]);
        v
    } else {
        let mut v = decimal_bytes(n / 10);
        v.push((48 + n % 10) as u8);
        v
    }
}

/// `a + b`, or `u64::MAX` where the sum does not fit.
pub open spec fn saturating_sum(a: int, b: int) -> u64 {
    if a + b <= u64::MAX {
        (a + b) as u64
    } else {
        u64::MAX
    }
}

/// A collector that counts the `Put` records of a table and sums the byte
/// lengths of their keys and values; both counts saturate at `u64::MAX`.
/// It reports them as `num-keys` and `total-bytes`, in decimal.
pub struct PutStatsCollector {
    pub num_keys: u64,
    pub total_bytes: u64,
}

impl TablePropertiesCollector for PutStatsCollector {
    open spec fn name_spec(&self) -> Seq<char> {
        "table-properties-collector"@
    }

    open spec fn after_add(
        self,
        key: Seq<u8>,
        value: Seq<u8>,
        entry_type: EntryType,
        seq: u64,
        file_size: u64,
    ) -> Self {
        if entry_type == EntryType::Put {
            PutStatsCollector {
                num_keys: saturating_sum(self.num_keys as int, 1),
                total_bytes: saturating_sum(self.total_bytes as int, (key.len() + value.len()) as int),
            }
        } else {
            self
        }
    }

    open spec fn finished(self) -> Map<Seq<u8>, Seq<u8>> {
        Map::empty().insert("num-keys".spec_bytes(), decimal(self.num_keys as nat)).insert(
            "total-bytes".spec_bytes(),
            decimal(self.total_bytes as nat),
        )
    }

    fn name(&self) -> (r: &str) {
        "table-properties-collector"
    }

    fn add_user_key(
        &mut self,
        key: &[u8],
        value: &[u8],
        entry_type: EntryType,
        seq: u64,
        file_size: u64,
    ) {
        if entry_type == EntryType::Put {
            let keys: u128 = self.num_keys as u128 + 1;
            self.num_keys = if keys > u64::MAX as u128 {
                u64::MAX
            } else {
                keys as u64
            };
            let bytes: u128 = self.total_bytes as u128 + key.len() as u128 + value.len() as u128;
            self.total_bytes = if bytes > u64::MAX as u128 {
                u64::MAX
            } else {
                bytes as u64
            };
        }
    }

    fn block_add(
        &mut self,
        block_uncomp_bytes: u64,
        block_compressed_bytes_fast: u64,
        block_compressed_bytes_slow: u64,
    ) {
    }

    fn finish_properties(&mut self) -> (r: PropertyMap) {
        let mut map = PropertyMap::new();
        let keys = decimal_bytes(self.num_keys);
        let bytes = decimal_bytes(self.total_bytes);
        map.insert("num-keys".as_bytes(), keys.as_slice());
        map.insert("total-bytes".as_bytes(), bytes.as_slice());
        map
    }

    fn get_readable_properties(&mut self) -> (r: PropertyMap) {
        PropertyMap::new()
    }
}

/// Makes a fresh `PutStatsCollector`, with both counts at zero, for every
/// table build, whatever its level.
pub struct PutStatsCollectorFactory {}

impl PutStatsCollectorFactory {
    pub fn new() -> Self {
        PutStatsCollectorFactory {  }
    }
}

impl TablePropertiesCollectorFactory for PutStatsCollectorFactory {
    type Collector = PutStatsCollector;

    open spec fn name_spec(&self) -> Seq<char> {
        "table-properties-collector-factory"@
    }

    open spec fn created(self, level: i32) -> PutStatsCollector {
        PutStatsCollector { num_keys: 0, total_bytes: 0 }
    }

    open spec fn after_create(self, level: i32) -> Self {
        self
    }

    fn create(&mut self, ctx: TablePropertiesCollectorFactoryContext) -> (r: PutStatsCollector) {
        PutStatsCollector { num_keys: 0, total_bytes: 0 }
    }

    fn name(&self) -> (r: &str) {
        "table-properties-collector-factory"
    }
}

} // verus!
