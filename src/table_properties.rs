use vstd::prelude::*;
use crate::property_map::PropertyMap;

verus! {

/// The recorded metadata of one built table: its name and the two property
/// maps its collectors emitted. Each value owns its data, so it is disposed
/// of exactly once, when it is dropped.
pub struct TableProperties {
    name: String,
    user_collected: PropertyMap,
    readable: PropertyMap,
}

impl TableProperties {
    /// The table's name.
    pub closed spec fn name_view(&self) -> Seq<char> {
        self.name@
    }

    /// The properties the table's collectors emitted.
    pub closed spec fn user_collected_view(&self) -> Map<Seq<u8>, Seq<u8>> {
        self.user_collected@
    }

    /// The readable properties the table's collectors emitted.
    pub closed spec fn readable_view(&self) -> Map<Seq<u8>, Seq<u8>> {
        self.readable@
    }

    /// The metadata the engine recorded for a finished table.
    pub fn from_raw(name: String, user_collected: PropertyMap, readable: PropertyMap) -> (r: Self)
        ensures
            r.name_view() == name@,
            r.user_collected_view() == user_collected@,
            r.readable_view() == readable@,
    {
        TableProperties { name, user_collected, readable }
    }

    /// The table's name, borrowed for as long as the metadata lives.
    pub fn name(&self) -> (r: &str)
        ensures
            r@ == self.name_view(),
    {
        self.name.as_str()
    }

    /// An independently owned copy of the user-collected properties.
    pub fn user_collected_properties(&self) -> (r: PropertyMap)
        ensures
            r@ == self.user_collected_view(),
    {
        self.user_collected.copied()
    }

    /// An independently owned copy of the readable properties.
    pub fn readable_properties(&self) -> (r: PropertyMap)
        ensures
            r@ == self.readable_view(),
    {
        self.readable.copied()
    }
}

/// The engine's enumeration of table metadata, handed out one at a time.
pub struct TablePropertiesCursor {
    remaining: Vec<TableProperties>,
}

impl TablePropertiesCursor {
    /// What `next` has yet to hand out, in order.
    pub closed spec fn remaining(&self) -> Seq<TableProperties> {
        self.remaining@
    }

    /// An enumeration of `tables`, in the order given.
    pub fn new(tables: Vec<TableProperties>) -> (r: Self)
        ensures
            r.remaining() == tables@,
    {
        TablePropertiesCursor { remaining: tables }
    }

    /// The next table, or `None` once all have been handed out; past the end
    /// it keeps returning `None`.
    pub fn next(&mut self) -> (r: Option<TableProperties>)
        ensures
            old(self).remaining().len() == 0 ==> r.is_none() && final(self).remaining()
                == old(self).remaining(),
            old(self).remaining().len() > 0 ==> r == Some(old(self).remaining()[0])
                && final(self).remaining() == old(self).remaining().drop_first(),
    {
        if self.remaining.len() == 0 {
            None
        } else {
            let t = self.remaining.remove(0);
            assert(self.remaining@ =~= old(self).remaining@.drop_first());
            Some(t)
        }
    }
}

/// The metadata of every table of an enumeration, in the order reported.
pub struct TablePropertiesCollection {
    pub tables: Vec<TableProperties>,
}

impl TablePropertiesCollection {
    /// Drains `cursor` until it reports no more tables.
    pub fn from_raw(cursor: TablePropertiesCursor) -> (r: Self)
        ensures
            r.tables@ == cursor.remaining(),
    {
        let ghost all = cursor.remaining();
        let mut cursor = cursor;
        let mut tables: Vec<TableProperties> = Vec::new();
        loop
            invariant
                tables@ + cursor.remaining() == all,
            ensures
                tables@ == all,
            decreases cursor.remaining().len(),
        {
            match cursor.next() {
                Some(t) => {
                    tables.push(t);
                    assert(tables@ + cursor.remaining() =~= all);
                },
                None => {
                    assert(cursor.remaining() =~= Seq::<TableProperties>::empty());
                    assert(tables@ =~= all);
                    break;
                },
            }
        }
        TablePropertiesCollection { tables }
    }
}

} // verus!
