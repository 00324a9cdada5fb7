//! Synchronous write: one broadcast frame that carries, for each device of
//! a group, the bytes to write into a register window common to all.
//!
//! The group keeps a table from device id to payload, in the order in which
//! the devices were added, and a parameter buffer that is rebuilt from the
//! table before a transmission whenever the table has changed since.

use vstd::prelude::*;
use crate::protocol_packet_handler::{sends, ProtocolPacketHandler};
use crate::scservo_def::COMM;
use crate::stream::join_bytes;

verus! {

/// Why a change to a group's table was refused.
#[derive(Debug, Clone, Copy, PartialEq, Eq, Structural)]
pub enum GroupError {
    /// The device is in the table already.
    DuplicateId,
    /// The payload is longer than the register window.
    PayloadTooLong,
    /// The device is not in the table.
    NotFound,
}

/// The records of a table one after the other: for each device its id, then
/// its payload.
pub open spec fn flattened(ids: Seq<u8>, payloads: Seq<Seq<u8>>) -> Seq<u8>
    decreases ids.len(),
{
    if ids.len() == 0 || payloads.len() == 0 {
        Seq::empty()
    } else {
        flattened(ids.drop_last(), payloads.drop_last()) + seq![ids.last()] + payloads.last()
    }
}

/// The parameter section of a synchronous write: the window, then the
/// records.
pub open spec fn sync_write_params(
    start_address: u8,
    data_length: u8,
    ids: Seq<u8>,
    payloads: Seq<Seq<u8>>,
) -> Seq<u8> {
    seq![start_address, data_length] + flattened(ids, payloads)
}

/// No id occurs twice in `ids`.
pub open spec fn distinct(ids: Seq<u8>) -> bool {
    forall|i: int, j: int| 0 <= i < j < ids.len() ==> ids[i] != ids[j]
}

/// A group of devices written to in one transaction.
#[derive(Debug)]
pub struct GroupSyncWrite {
    /// The protocol layer of the bus.
    pub ph: ProtocolPacketHandler,
    /// First register of the window.
    pub start_address: u8,
    data_length: u8,
    is_param_changed: bool,
    param: Vec<u8>,
    ids: Vec<u8>,
    payloads: Vec<Vec<u8>>,
}

impl GroupSyncWrite {
    /// The protocol layer of the bus.
    pub closed spec fn handler(&self) -> ProtocolPacketHandler {
        self.ph
    }

    /// First register of the window.
    pub closed spec fn start(&self) -> u8 {
        self.start_address
    }

    /// The devices of the table, in the order in which they were added.
    pub closed spec fn ids(&self) -> Seq<u8> {
        self.ids@
    }

    /// The payloads of the table, in the order of [`Self::ids`].
    pub closed spec fn payloads(&self) -> Seq<Seq<u8>> {
        Seq::new(self.payloads@.len(), |i: int| self.payloads@[i]@)
    }

    /// Size of the register window.
    pub closed spec fn data_length(&self) -> u8 {
        self.data_length
    }

    /// Whether the table has changed since the parameter buffer was built.
    pub closed spec fn dirty(&self) -> bool {
        self.is_param_changed
    }

    /// The parameter buffer.
    pub closed spec fn param(&self) -> Seq<u8> {
        self.param@
    }

    /// Whether device `id` is in the table.
    pub open spec fn contains(&self, id: u8) -> bool {
        self.ids().contains(id)
    }

    /// The payload of device `id`, which is in the table.
    pub open spec fn payload_of(&self, id: u8) -> Seq<u8> {
        self.payloads()[self.ids().index_of(id)]
    }

    /// What holds of every group: one payload for each device, no device
    /// twice, no payload longer than the window, and a parameter buffer that
    /// holds the flattened table unless the table has changed since.
    pub closed spec fn wf(&self) -> bool {
        &&& self.ids@.len() == self.payloads@.len()
        &&& distinct(self.ids@)
        &&& forall|i: int|
            0 <= i < self.payloads@.len() ==> (#[trigger] self.payloads@[i])@.len()
                <= self.data_length
        &&& !self.is_param_changed ==> self.param@ == flattened(self.ids(), self.payloads())
    }

    /// What [`Self::wf`] says, over the table.
    pub proof fn lemma_wf(&self)
        requires
            self.wf(),
        ensures
            self.ids().len() == self.payloads().len(),
            distinct(self.ids()),
            forall|i: int|
                0 <= i < self.payloads().len() ==> (#[trigger] self.payloads()[i]).len()
                    <= self.data_length(),
            !self.dirty() ==> self.param() == flattened(self.ids(), self.payloads()),
    {
    }

    /// An empty group for the window of `data_length` registers from
    /// `start_address`.
    pub fn new(ph: ProtocolPacketHandler, start_address: u8, data_length: u8) -> (g: Self)
        ensures
            g.wf(),
            g.handler() == ph,
            g.start() == start_address,
            g.data_length() == data_length,
            g.ids() == Seq::<u8>::empty(),
            g.payloads() == Seq::<Seq<u8>>::empty(),
            g.param() == Seq::<u8>::empty(),
            !g.dirty(),
    {
        let g = GroupSyncWrite {
            ph,
            start_address,
            data_length,
            is_param_changed: false,
            param: Vec::new(),
            ids: Vec::new(),
            payloads: Vec::new(),
        };
        assert(g.payloads() =~= Seq::<Seq<u8>>::empty());
        g
    }

    /// The protocol layer of the bus.
    pub fn get_handler(&self) -> (h: &ProtocolPacketHandler)
        ensures
            *h == self.handler(),
    {
        &self.ph
    }

    /// Hands the protocol layer of the bus out; the table stays as it is.
    pub fn get_handler_mut(&mut self) -> (h: &mut ProtocolPacketHandler)
        ensures
            *h == old(self).handler(),
            final(self).handler() == *final(h),
            final(self).wf() == old(self).wf(),
            final(self).ids() == old(self).ids(),
            final(self).payloads() == old(self).payloads(),
            final(self).param() == old(self).param(),
            final(self).dirty() == old(self).dirty(),
            final(self).start() == old(self).start(),
            final(self).data_length() == old(self).data_length(),
    {
        &mut self.ph
    }

    /// Position of device `scs_id` in the table.
    fn find(&self, scs_id: u8) -> (r: Option<usize>)
        ensures
            match r {
                Some(i) => i < self.ids().len() && self.ids()[i as int] == scs_id,
                None => !self.contains(scs_id),
            },
    {
        let n = self.ids.len();
        let mut i: usize = 0;
        while i < n
            invariant
                i <= n == self.ids@.len(),
                forall|j: int| 0 <= j < i ==> self.ids@[j] != scs_id,
            decreases n - i,
        {
            if self.ids[i] == scs_id {
                return Some(i);
            }
            i = i + 1;
        }
        None
    }

    /// Rebuilds the parameter buffer from the table.
    pub fn make_param(&mut self)
        requires
            old(self).wf(),
        ensures
            final(self).wf(),
            final(self).param() == flattened(old(self).ids(), old(self).payloads()),
            final(self).ids() == old(self).ids(),
            final(self).payloads() == old(self).payloads(),
            final(self).dirty() == old(self).dirty(),
            final(self).data_length() == old(self).data_length(),
            final(self).start() == old(self).start(),
            final(self).handler() == old(self).handler(),
    {
        let n = self.ids.len();
        let mut buffer: Vec<u8> = Vec::new();
        let mut i: usize = 0;
        while i < n
            invariant
                i <= n == self.ids@.len(),
                n == self.payloads@.len(),
                buffer@ == flattened(self.ids().subrange(0, i as int), self.payloads().subrange(
                    0,
                    i as int,
                )),
            decreases n - i,
        {
            proof {
                let ids = self.ids().subrange(0, i + 1);
                let payloads = self.payloads().subrange(0, i + 1);
                assert(ids.drop_last() =~= self.ids().subrange(0, i as int));
                assert(payloads.drop_last() =~= self.payloads().subrange(0, i as int));
            }
            buffer.push(self.ids[i]);
            let joined = join_bytes(buffer.as_slice(), self.payloads[i].as_slice());
            buffer = joined;
            i = i + 1;
        }
        proof {
            assert(self.ids().subrange(0, n as int) =~= self.ids());
            assert(self.payloads().subrange(0, n as int) =~= self.payloads());
        }
        self.param = buffer;
    }

    /// Adds device `scs_id` with payload `data` to the table.
    ///
    /// Refused with `DuplicateId` if the device is in the table, else with
    /// `PayloadTooLong` if `data` is longer than the window.
    pub fn add_param(&mut self, scs_id: u8, data: Vec<u8>) -> (r: Result<(), GroupError>)
        requires
            old(self).wf(),
        ensures
            final(self).wf(),
            final(self).data_length() == old(self).data_length(),
            final(self).start() == old(self).start(),
            final(self).handler() == old(self).handler(),
            r == if old(self).contains(scs_id) {
                Err::<(), GroupError>(GroupError::DuplicateId)
            } else if data@.len() > old(self).data_length() {
                Err(GroupError::PayloadTooLong)
            } else {
                Ok(())
            },
            r is Ok ==> {
                &&& final(self).ids() == old(self).ids().push(scs_id)
                &&& final(self).payloads() == old(self).payloads().push(data@)
                &&& final(self).dirty()
            },
            r is Err ==> {
                &&& final(self).ids() == old(self).ids()
                &&& final(self).payloads() == old(self).payloads()
                &&& final(self).dirty() == old(self).dirty()
                &&& final(self).param() == old(self).param()
            },
    {
        if self.find(scs_id).is_some() {
            return Err(GroupError::DuplicateId);
        }
        if data.len() > self.data_length as usize {
            return Err(GroupError::PayloadTooLong);
        }
        self.ids.push(scs_id);
        self.payloads.push(data);
        self.is_param_changed = true;
        proof {
            assert(final(self).payloads() =~= old(self).payloads().push(data@));
        }
        Ok(())
    }

    /// Takes device `scs_id` out of the table; refused with `NotFound` if it
    /// is not there.
    pub fn remove_param(&mut self, scs_id: u8) -> (r: Result<(), GroupError>)
        requires
            old(self).wf(),
        ensures
            final(self).wf(),
            final(self).data_length() == old(self).data_length(),
            final(self).start() == old(self).start(),
            final(self).handler() == old(self).handler(),
            r == if old(self).contains(scs_id) {
                Ok::<(), GroupError>(())
            } else {
                Err(GroupError::NotFound)
            },
            r is Ok ==> {
                let at = old(self).ids().index_of(scs_id);
                &&& final(self).ids() == old(self).ids().remove(at)
                &&& final(self).payloads() == old(self).payloads().remove(at)
                &&& !final(self).contains(scs_id)
                &&& final(self).dirty()
            },
            r is Err ==> {
                &&& final(self).ids() == old(self).ids()
                &&& final(self).payloads() == old(self).payloads()
                &&& final(self).dirty() == old(self).dirty()
                &&& final(self).param() == old(self).param()
            },
    {
        match self.find(scs_id) {
            None => Err(GroupError::NotFound),
            Some(at) => {
                proof {
                    lemma_index_of_distinct(self.ids@, at as int);
                }
                self.ids.remove(at);
                self.payloads.remove(at);
                self.is_param_changed = true;
                proof {
                    assert(final(self).payloads() =~= old(self).payloads().remove(at as int));
                    assert(final(self).ids() =~= old(self).ids().remove(at as int));
                }
                Ok(())
            },
        }
    }

    /// Replaces the payload of device `scs_id` by `data`.
    ///
    /// Refused with `NotFound` if the device is not in the table, else with
    /// `PayloadTooLong` if `data` is longer than the window.
    pub fn change_param(&mut self, scs_id: u8, data: Vec<u8>) -> (r: Result<(), GroupError>)
        requires
            old(self).wf(),
        ensures
            final(self).wf(),
            final(self).data_length() == old(self).data_length(),
            final(self).start() == old(self).start(),
            final(self).handler() == old(self).handler(),
            final(self).ids() == old(self).ids(),
            r == if !old(self).contains(scs_id) {
                Err::<(), GroupError>(GroupError::NotFound)
            } else if data@.len() > old(self).data_length() {
                Err(GroupError::PayloadTooLong)
            } else {
                Ok(())
            },
            r is Ok ==> {
                &&& final(self).payloads() == old(self).payloads().update(
                    old(self).ids().index_of(scs_id),
                    data@,
                )
                &&& final(self).dirty()
            },
            r is Err ==> {
                &&& final(self).payloads() == old(self).payloads()
                &&& final(self).dirty() == old(self).dirty()
                &&& final(self).param() == old(self).param()
            },
    {
        match self.find(scs_id) {
            None => Err(GroupError::NotFound),
            Some(at) => {
                if data.len() > self.data_length as usize {
                    return Err(GroupError::PayloadTooLong);
                }
                proof {
                    lemma_index_of_distinct(self.ids@, at as int);
                }
                self.payloads.set(at, data);
                self.is_param_changed = true;
                proof {
                    assert(final(self).payloads() =~= old(self).payloads().update(
                        at as int,
                        data@,
                    ));
                }
                Ok(())
            },
        }
    }

    /// Empties the table and the parameter buffer.
    pub fn clear_param(&mut self)
        ensures
            final(self).wf(),
            final(self).ids() == Seq::<u8>::empty(),
            final(self).payloads() == Seq::<Seq<u8>>::empty(),
            final(self).param() == Seq::<u8>::empty(),
            final(self).dirty(),
            final(self).data_length() == old(self).data_length(),
            final(self).start() == old(self).start(),
            final(self).handler() == old(self).handler(),
    {
        self.ids.clear();
        self.payloads.clear();
        self.param.clear();
        self.is_param_changed = true;
        assert(self.payloads() =~= Seq::<Seq<u8>>::empty());
    }

    /// Writes the table to the devices: one broadcast synchronous write with
    /// the window and the flattened table as its parameters.
    ///
    /// With an empty table the result is `NotAvailable` and nothing happens.
    /// Otherwise the parameter buffer is rebuilt if the table has changed
    /// since it was built, and the result is that of the transmission; no
    /// device answers a broadcast.
    pub fn tx_packet(&mut self) -> (r: COMM)
        requires
            old(self).wf(),
        ensures
            final(self).wf(),
            final(self).ids() == old(self).ids(),
            final(self).payloads() == old(self).payloads(),
            final(self).data_length() == old(self).data_length(),
            final(self).start() == old(self).start(),
            old(self).ids().len() == 0 ==> {
                &&& r == COMM::NotAvailable
                &&& final(self).handler() == old(self).handler()
                &&& final(self).dirty() == old(self).dirty()
                &&& final(self).param() == old(self).param()
            },
            old(self).ids().len() > 0 ==> {
                &&& sends(
                    old(self).handler(),
                    final(self).handler(),
                    r,
                    0xFE,
                    0x83,
                    sync_write_params(
                        old(self).start(),
                        old(self).data_length(),
                        old(self).ids(),
                        old(self).payloads(),
                    ),
                )
                &&& !final(self).dirty()
                &&& final(self).param() == flattened(old(self).ids(), old(self).payloads())
            },
    {
        if self.ids.len() == 0 {
            return COMM::NotAvailable;
        }
        if self.is_param_changed {
            self.make_param();
            self.is_param_changed = false;
        }
        self.ph.sync_write_tx_only(self.start_address, self.data_length, self.param.as_slice())
    }
}

/// In a sequence without repetition, the first position of an element is
/// its only one.
pub proof fn lemma_index_of_distinct(ids: Seq<u8>, at: int)
    requires
        distinct(ids),
        0 <= at < ids.len(),
    ensures
        ids.index_of(ids[at]) == at,
        distinct(ids.remove(at)),
        !ids.remove(at).contains(ids[at]),
{
    let first = ids.index_of(ids[at]);
    assert(ids.contains(ids[at]));
    if first < at {
        assert(ids[first] != ids[at]);
    } else if at < first {
        assert(ids[at] != ids[first]);
    }
    let rest = ids.remove(at);
    assert forall|i: int, j: int| 0 <= i < j < rest.len() implies rest[i] != rest[j] by {
        let a = if i < at {
            i
        } else {
            i + 1
        };
        let b = if j < at {
            j
        } else {
            j + 1
        };
        assert(ids[a] != ids[b]);
    }
    if rest.contains(ids[at]) {
        let k = choose|k: int| 0 <= k < rest.len() && rest[k] == ids[at];
        let a = if k < at {
            k
        } else {
            k + 1
        };
        if a < at {
            assert(ids[a] != ids[at]);
        } else {
            assert(ids[at] != ids[a]);
        }
    }
}

/// Rebuilding is idempotent: two groups with the same window and the same
/// table, both with a parameter buffer that is up to date, hold the same
/// parameter buffer and transmit the same parameters. So two transmissions
/// with no change to the table between them send the same bytes.
pub proof fn lemma_rebuild_is_idempotent(a: GroupSyncWrite, b: GroupSyncWrite)
    requires
        a.wf(),
        b.wf(),
        !a.dirty(),
        !b.dirty(),
        a.ids() == b.ids(),
        a.payloads() == b.payloads(),
        a.start() == b.start(),
        a.data_length() == b.data_length(),
    ensures
        a.param() == b.param(),
        sync_write_params(a.start(), a.data_length(), a.ids(), a.payloads())
            == sync_write_params(b.start(), b.data_length(), b.ids(), b.payloads()),
{
    a.lemma_wf();
    b.lemma_wf();
}

} // verus!
