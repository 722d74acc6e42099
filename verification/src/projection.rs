//! The downstream projection of emitted state-change events into
//! read-optimized views: current status by device, current status by
//! `connection::device` pair, and a bootstrap entry of editable details for
//! every device seen. Consumed events may be redelivered, and folding the
//! same event again leaves every view unchanged.
//!
//! Each view is an append-only log of `(key, value)` writes whose meaning is
//! the map where the last write per key wins, which is how the backing
//! key/value store reads it.

use crate::data_model::{DeviceDetails, StateChange};
use crate::strutil::{clone_opt_string, str_eq};
use vstd::prelude::*;
use vstd::string::*;

verus! {

/// The map a write log denotes: later writes to a key supersede earlier
/// ones.
pub open spec fn spec_assoc<V>(entries: Seq<(String, V)>) -> Map<Seq<char>, V>
    decreases entries.len(),
{
    if entries.len() == 0 {
        Map::empty()
    } else {
        spec_assoc(entries.drop_last()).insert(entries.last().0@, entries.last().1)
    }
}

/// Appends one write, which updates the denoted map at that key.
fn put<V>(entries: &mut Vec<(String, V)>, key: String, value: V)
    ensures
        spec_assoc(final(entries)@) == spec_assoc(old(entries)@).insert(key@, value),
{
    let ghost k = key@;
    let ghost v = value;
    entries.push((key, value));
    proof {
        assert(entries@.drop_last() =~= old(entries)@);
        assert(entries@.last().0@ == k);
    }
}

/// Looks a key up in the denoted map: the value of the last write to that
/// key, if there was one.
fn lookup<'a, V>(entries: &'a Vec<(String, V)>, key: &str) -> (r: Option<&'a V>)
    ensures
        (r matches Some(v) ==> spec_assoc(entries@).contains_key(key@) && *v == spec_assoc(
            entries@,
        )[key@]),
        (r is None ==> !spec_assoc(entries@).contains_key(key@)),
{
    let mut i: usize = entries.len();
    proof {
        assert(entries@.take(i as int) =~= entries@);
    }
    while i > 0
        invariant
            0 <= i <= entries@.len(),
            spec_assoc(entries@).contains_key(key@) <==> spec_assoc(
                entries@.take(i as int),
            ).contains_key(key@),
            spec_assoc(entries@).contains_key(key@) ==> spec_assoc(entries@)[key@] == spec_assoc(
                entries@.take(i as int),
            )[key@],
        decreases i,
    {
        proof {
            assert(entries@.take(i as int).drop_last() =~= entries@.take(i - 1));
            assert(entries@.take(i as int).last() == entries@[i - 1]);
        }
        if str_eq(entries[i - 1].0.as_str(), key) {
            return Some(&entries[i - 1].1);
        }
        i = i - 1;
    }
    proof {
        assert(entries@.take(0) =~= Seq::<(String, V)>::empty());
    }
    None
}

/// The key under which a device's status is filed for one connection.
pub open spec fn spec_connection_key(connection: Seq<char>, id: Seq<char>) -> Seq<char> {
    connection + "::"@ + id
}

/// Builds the `connection::device` key.
pub fn connection_key(connection: &str, id: &str) -> (r: String)
    ensures
        r@ == spec_connection_key(connection@, id@),
{
    let mut r = connection.to_owned();
    r.append("::");
    r.append(id);
    r
}

/// The first position in `key`, at or after `from`, where the `::` separator
/// of a `connection::device` key starts.
pub open spec fn spec_sep_pos(key: Seq<char>, from: int) -> Option<int>
    decreases key.len() + 1 - from when 0 <= from
{
    if from + 2 > key.len() {
        None
    } else if key[from] == ':' && key[from + 1] == ':' {
        Some(from)
    } else {
        spec_sep_pos(key, from + 1)
    }
}

/// Splits a `connection::device` key at the first `::`, as the connection
/// status page does; none where the key holds no separator.
pub fn split_connection_key(key: &str) -> (r: Option<(String, String)>)
    ensures
        (r matches Some(pair) ==> (spec_sep_pos(key@, 0) matches Some(p) && pair.0@ == key@.take(p)
            && pair.1@ == key@.skip(p + 2))),
        (r is None <==> spec_sep_pos(key@, 0) is None),
{
    let len = key.unicode_len();
    if len < 2 {
        return None;
    }
    let mut i: usize = 0;
    while i < len - 1
        invariant
            0 <= i <= len - 1,
            2 <= len == key@.len(),
            spec_sep_pos(key@, 0) == spec_sep_pos(key@, i as int),
        decreases len - i,
    {
        if key.get_char(i) == ':' && key.get_char(i + 1) == ':' {
            let connection = key.substring_char(0, i).to_owned();
            let device = key.substring_char(i + 2, len).to_owned();
            proof {
                assert(spec_sep_pos(key@, i as int) == Some(i as int));
                assert(connection@ =~= key@.take(i as int));
                assert(device@ =~= key@.skip(i + 2));
            }
            return Some((connection, device));
        }
        i = i + 1;
    }
    None
}

/// The two halves of a `connection::device` key, split at the first `::`;
/// none where the key holds no separator.
pub open spec fn spec_key_parts(key: String) -> Option<(Seq<char>, Seq<char>)> {
    match spec_sep_pos(key@, 0) {
        None => None,
        Some(p) => Some((key@.take(p), key@.skip(p + 2))),
    }
}

/// The devices a key list files under one connection, in order: how the
/// connection status page groups the `connection::device` keys it lists.
pub open spec fn spec_connection_devices(keys: Seq<String>, connection: Seq<char>) -> Seq<
    Seq<char>,
>
    decreases keys.len(),
{
    if keys.len() == 0 {
        Seq::empty()
    } else {
        let rest = spec_connection_devices(keys.skip(1), connection);
        match spec_key_parts(keys[0]) {
            Some(parts) => if parts.0 == connection {
                seq![parts.1] + rest
            } else {
                rest
            },
            None => rest,
        }
    }
}

/// Selects the devices filed under one connection out of a list of
/// `connection::device` keys, exactly as `spec_connection_devices` describes.
pub fn devices_for_connection(keys: &Vec<String>, connection: &str) -> (r: Vec<String>)
    ensures
        r.deep_view() == spec_connection_devices(keys@, connection@),
{
    let mut r: Vec<String> = Vec::new();
    let mut i: usize = 0;
    proof {
        assert(keys@.skip(0) =~= keys@);
        assert(r.deep_view() =~~= Seq::<Seq<char>>::empty());
    }
    while i < keys.len()
        invariant
            0 <= i <= keys@.len(),
            spec_connection_devices(keys@, connection@) =~~= r.deep_view()
                + spec_connection_devices(keys@.skip(i as int), connection@),
        decreases keys@.len() - i,
    {
        let ghost before = r.deep_view();
        proof {
            assert(keys@.skip(i as int)[0] == keys@[i as int]);
            assert(keys@.skip(i as int).skip(1) =~= keys@.skip(i + 1));
        }
        match split_connection_key(keys[i].as_str()) {
            Some(pair) => {
                if str_eq(pair.0.as_str(), connection) {
                    let ghost dev = pair.1@;
                    r.push(pair.1);
                    proof {
                        assert(r.deep_view() =~~= before.push(dev));
                        assert(before.push(dev) + spec_connection_devices(
                            keys@.skip(i + 1),
                            connection@,
                        ) =~~= before + (seq![dev] + spec_connection_devices(
                            keys@.skip(i + 1),
                            connection@,
                        )));
                    }
                }
            },
            None => {},
        }
        i = i + 1;
    }
    proof {
        assert(spec_connection_devices(keys@.skip(i as int), connection@) =~~= Seq::<
            Seq<char>,
        >::empty());
        assert(r.deep_view() + Seq::<Seq<char>>::empty() =~~= r.deep_view());
    }
    r
}

/// The devices a status list names with one given status, in order: how the
/// device status page groups its list.
pub open spec fn spec_devices_with_status(
    list: Seq<(String, String)>,
    status: Seq<char>,
) -> Seq<String>
    decreases list.len(),
{
    if list.len() == 0 {
        Seq::empty()
    } else {
        let rest = spec_devices_with_status(list.skip(1), status);
        if list[0].1@ == status {
            seq![list[0].0] + rest
        } else {
            rest
        }
    }
}

/// Selects the devices with the given status out of a `(device, status)`
/// list, exactly as `spec_devices_with_status` describes.
pub fn devices_with_status(list: &Vec<(String, String)>, status: &str) -> (r: Vec<String>)
    ensures
        r@ == spec_devices_with_status(list@, status@),
{
    let mut r: Vec<String> = Vec::new();
    let mut i: usize = 0;
    proof {
        assert(list@.skip(0) =~= list@);
        assert(r@ + spec_devices_with_status(list@, status@) =~= spec_devices_with_status(
            list@,
            status@,
        ));
    }
    while i < list.len()
        invariant
            0 <= i <= list@.len(),
            spec_devices_with_status(list@, status@) == r@ + spec_devices_with_status(
                list@.skip(i as int),
                status@,
            ),
        decreases list@.len() - i,
    {
        let ghost before = r@;
        if str_eq(list[i].1.as_str(), status) {
            r.push(list[i].0.clone());
        }
        proof {
            assert(list@.skip(i as int)[0] == list@[i as int]);
            assert(list@.skip(i as int).skip(1) =~= list@.skip(i + 1));
            if list@[i as int].1@ == status@ {
                assert(before.push(list@[i as int].0) + spec_devices_with_status(
                    list@.skip(i + 1),
                    status@,
                ) =~= before + spec_devices_with_status(list@.skip(i as int), status@));
            }
        }
        i = i + 1;
    }
    proof {
        assert(spec_devices_with_status(list@.skip(i as int), status@) =~= Seq::<String>::empty());
        assert(r@ + Seq::<String>::empty() =~= r@);
    }
    r
}

/// The mathematical value of the read models: three maps.
#[verifier::ext_equal]
pub ghost struct ViewsModel {
    pub device_status: Map<Seq<char>, StateChange>,
    pub connection_device_status: Map<Seq<char>, StateChange>,
    pub device_details: Map<Seq<char>, DeviceDetails>,
}

/// What folding one delivered event into the read models means: the device's
/// status is upserted; where the event names a connection, the status is also
/// upserted under the `connection::device` key; and a device without a
/// details entry gets a default one.
pub open spec fn spec_apply(m: ViewsModel, change: StateChange) -> ViewsModel {
    ViewsModel {
        device_status: m.device_status.insert(change.id@, change),
        connection_device_status: match change.connection {
            Some(c) => m.connection_device_status.insert(
                spec_connection_key(c@, change.id@),
                change,
            ),
            None => m.connection_device_status,
        },
        device_details: if m.device_details.contains_key(change.id@) {
            m.device_details
        } else {
            m.device_details.insert(change.id@, (DeviceDetails { friendly_name: None }))
        },
    }
}

/// The read models after folding a whole batch of delivered events, oldest
/// first.
pub open spec fn spec_apply_all(m: ViewsModel, changes: Seq<StateChange>) -> ViewsModel
    decreases changes.len(),
{
    if changes.len() == 0 {
        m
    } else {
        spec_apply_all(spec_apply(m, changes[0]), changes.skip(1))
    }
}

/// Consumers are idempotent under redelivery: the channel delivers each event
/// at least once, and folding the same event again leaves every view exactly
/// as it was.
pub proof fn lemma_redelivery_idempotent(m: ViewsModel, change: StateChange)
    ensures
        spec_apply(spec_apply(m, change), change) == spec_apply(m, change),
{
    assert(spec_apply(spec_apply(m, change), change) =~~= spec_apply(m, change));
}

/// The three read models downstream consumers fold emitted events into.
pub struct Projections {
    device_status: Vec<(String, StateChange)>,
    connection_device_status: Vec<(String, StateChange)>,
    device_details: Vec<(String, DeviceDetails)>,
}

impl View for Projections {
    type V = ViewsModel;

    closed spec fn view(&self) -> ViewsModel {
        ViewsModel {
            device_status: spec_assoc(self.device_status@),
            connection_device_status: spec_assoc(self.connection_device_status@),
            device_details: spec_assoc(self.device_details@),
        }
    }
}

impl Projections {
    /// Current status by device identity.
    pub open spec fn spec_device_status(&self) -> Map<Seq<char>, StateChange> {
        self@.device_status
    }

    /// Current status by `connection::device` pair.
    pub open spec fn spec_connection_device_status(&self) -> Map<Seq<char>, StateChange> {
        self@.connection_device_status
    }

    /// Editable details by device identity.
    pub open spec fn spec_device_details(&self) -> Map<Seq<char>, DeviceDetails> {
        self@.device_details
    }

    /// Empty read models.
    pub fn new() -> (r: Projections)
        ensures
            r.spec_device_status() == Map::<Seq<char>, StateChange>::empty(),
            r.spec_connection_device_status() == Map::<Seq<char>, StateChange>::empty(),
            r.spec_device_details() == Map::<Seq<char>, DeviceDetails>::empty(),
    {
        Projections {
            device_status: Vec::new(),
            connection_device_status: Vec::new(),
            device_details: Vec::new(),
        }
    }

    /// Folds one delivered state-change event into the read models, as
    /// `spec_apply` describes. Redelivering the same event leaves every view
    /// as it was (`lemma_redelivery_idempotent`).
    pub fn apply_state_change(&mut self, change: &StateChange)
        ensures
            final(self)@ == spec_apply(old(self)@, *change),
    {
        let copy = StateChange {
            id: change.id.clone(),
            state: change.state,
            connection: clone_opt_string(&change.connection),
            timestamp: change.timestamp,
        };
        put(&mut self.device_status, change.id.clone(), copy);
        match &change.connection {
            Some(con) => {
                let key = connection_key(con.as_str(), change.id.as_str());
                let copy = StateChange {
                    id: change.id.clone(),
                    state: change.state,
                    connection: clone_opt_string(&change.connection),
                    timestamp: change.timestamp,
                };
                put(&mut self.connection_device_status, key, copy);
            },
            None => {},
        }
        if lookup(&self.device_details, change.id.as_str()).is_none() {
            put(&mut self.device_details, change.id.clone(), DeviceDetails { friendly_name: None });
        }
        proof {
            assert(self@ =~~= spec_apply(old(self)@, *change));
        }
    }

    /// Consumes one delivered batch of state-change events, folding each into
    /// the read models in delivery order.
    pub fn apply_batch(&mut self, changes: &Vec<StateChange>)
        ensures
            final(self)@ == spec_apply_all(old(self)@, changes@),
    {
        let mut i: usize = 0;
        proof {
            assert(changes@.skip(0) =~= changes@);
        }
        while i < changes.len()
            invariant
                0 <= i <= changes@.len(),
                spec_apply_all(old(self)@, changes@) == spec_apply_all(
                    self@,
                    changes@.skip(i as int),
                ),
            decreases changes@.len() - i,
        {
            self.apply_state_change(&changes[i]);
            proof {
                assert(changes@.skip(i as int).skip(1) =~= changes@.skip(i + 1));
            }
            i = i + 1;
        }
        proof {
            assert(changes@.skip(i as int) =~= Seq::<StateChange>::empty());
        }
    }

    /// The current status of one device, if any event for it has been folded
    /// in.
    pub fn device_status(&self, id: &str) -> (r: Option<&StateChange>)
        ensures
            (r matches Some(c) ==> self.spec_device_status().contains_key(id@) && *c
                == self.spec_device_status()[id@]),
            (r is None ==> !self.spec_device_status().contains_key(id@)),
    {
        lookup(&self.device_status, id)
    }

    /// The current status filed under one `connection::device` key.
    pub fn connection_device_status(&self, connection: &str, id: &str) -> (r: Option<&StateChange>)
        ensures
            (r matches Some(c) ==> self.spec_connection_device_status().contains_key(
                spec_connection_key(connection@, id@),
            ) && *c == self.spec_connection_device_status()[spec_connection_key(connection@, id@)]),
            (r is None ==> !self.spec_connection_device_status().contains_key(
                spec_connection_key(connection@, id@),
            )),
    {
        let key = connection_key(connection, id);
        lookup(&self.connection_device_status, key.as_str())
    }

    /// The details entry of one device, if it has one.
    pub fn device_details(&self, id: &str) -> (r: Option<&DeviceDetails>)
        ensures
            (r matches Some(d) ==> self.spec_device_details().contains_key(id@) && *d
                == self.spec_device_details()[id@]),
            (r is None ==> !self.spec_device_details().contains_key(id@)),
    {
        lookup(&self.device_details, id)
    }
}

} // verus!
