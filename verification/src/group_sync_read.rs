//! Synchronous read: one broadcast request for a register window common to
//! a group of devices, and the taking apart of the stream in which the
//! devices answer one after the other.
//!
//! Each device's answer is looked for on its own, by a scan of the whole
//! stream for a status packet with that device's id and the window's length.
//! What is found for one device never depends on what is found for another.

use vstd::prelude::*;
use crate::group_sync_write::{distinct, lemma_index_of_distinct, GroupError};
use crate::port_handler::{packet_timeout_for, PortState};
use crate::protocol_packet_handler::{
    group_rx_bytes, group_rx_port, group_rx_result, instruction_tx_port, instruction_tx_result,
    ProtocolPacketHandler,
};
use crate::scservo_def::COMM;
use crate::stream::{copy_range, error_at, frame_at, params_at, scan, scan_start};

verus! {

/// Largest window whose answer fits a frame.
pub const MAX_WINDOW: u8 = 244;

/// What the group holds for one device.
pub struct Slot {
    /// Whether the last reception found the device's answer.
    pub filled: bool,
    /// The status bits of the answer; zero without one.
    pub error: u8,
    /// The bytes of the window; zeros without an answer.
    pub data: Seq<u8>,
}

/// `n` zero bytes.
pub open spec fn zero_bytes(n: nat) -> Seq<u8> {
    Seq::new(n, |i: int| 0u8)
}

/// The slot of a device that has not answered.
pub open spec fn empty_slot(data_length: u8) -> Slot {
    Slot { filled: false, error: 0, data: zero_bytes(data_length as nat) }
}

/// Where the scan of `rx` for the answer of device `id` with `data_length`
/// bytes stops.
pub open spec fn reply_at(rx: Seq<u8>, id: u8, data_length: u8) -> int {
    scan_start(rx, Some(id), Some((data_length + 2) as u8))
}

/// Whether `rx` holds an intact answer of device `id` with `data_length`
/// bytes.
pub open spec fn reply_found(rx: Seq<u8>, id: u8, data_length: u8) -> bool {
    &&& data_length <= 244
    &&& frame_at(rx, reply_at(rx, id, data_length), Some(id), Some((data_length + 2) as u8))
}

/// What the stream `rx` gives for device `id`: its answer if an intact one
/// is there, an empty slot if not.
pub open spec fn demuxed(rx: Seq<u8>, id: u8, data_length: u8) -> Slot {
    if reply_found(rx, id, data_length) {
        Slot {
            filled: true,
            error: error_at(rx, reply_at(rx, id, data_length)),
            data: params_at(rx, reply_at(rx, id, data_length)),
        }
    } else {
        empty_slot(data_length)
    }
}

/// The slots that the stream `rx` gives for the devices `ids`.
pub open spec fn demuxed_all(rx: Seq<u8>, ids: Seq<u8>, data_length: u8) -> Seq<Slot> {
    Seq::new(ids.len(), |i: int| demuxed(rx, ids[i], data_length))
}

/// Whether the stream `rx` holds an intact answer of every device of `ids`.
pub open spec fn all_found(rx: Seq<u8>, ids: Seq<u8>, data_length: u8) -> bool {
    forall|i: int| 0 <= i < ids.len() ==> reply_found(rx, #[trigger] ids[i], data_length)
}

/// The parameter section of a synchronous read: the window, then the ids.
pub open spec fn request_params(start_address: u8, data_length: u8, ids: Seq<u8>) -> Seq<u8> {
    seq![start_address, data_length] + ids
}

/// The port after the request of a window from the devices `ids`: after a
/// successful transmission the port is held for the answers, and the
/// packet's time starts anew and is that of the answers of all devices.
pub open spec fn requested(
    port: PortState,
    start_address: u8,
    data_length: u8,
    ids: Seq<u8>,
) -> PortState {
    let params = request_params(start_address, data_length, ids);
    let sent = instruction_tx_port(port, 0xFE, 0x82, params);
    if instruction_tx_result(port, 0xFE, 0x82, params) is Success {
        PortState {
            is_using: true,
            packet_start_time: Some(sent.now),
            packet_timeout: packet_timeout_for(
                sent.tx_time_per_byte,
                (ids.len() * (data_length + 6)) as u32,
            ) as u64,
            ..sent
        }
    } else {
        sent
    }
}

/// A group of devices read in one transaction.
#[derive(Debug)]
pub struct GroupSyncRead {
    /// The protocol layer of the bus.
    pub ph: ProtocolPacketHandler,
    start_address: u8,
    data_length: u8,
    last_result: bool,
    is_param_changed: bool,
    param: Vec<u8>,
    ids: Vec<u8>,
    filled: Vec<bool>,
    errors: Vec<u8>,
    data: Vec<Vec<u8>>,
}

/// `n` zero bytes.
pub(crate) fn zeros(n: usize) -> (v: Vec<u8>)
    ensures
        v@ == zero_bytes(n as nat),
{
    let mut v: Vec<u8> = Vec::new();
    let mut i: usize = 0;
    while i < n
        invariant
            i <= n,
            v@ == zero_bytes(i as nat),
        decreases n - i,
    {
        v.push(0);
        assert(v@ =~= zero_bytes((i + 1) as nat));
        i = i + 1;
    }
    v
}

impl GroupSyncRead {
    /// The protocol layer of the bus.
    pub closed spec fn handler(&self) -> ProtocolPacketHandler {
        self.ph
    }

    /// First register of the window.
    pub closed spec fn start(&self) -> u8 {
        self.start_address
    }

    /// Size of the register window.
    pub closed spec fn data_length(&self) -> u8 {
        self.data_length
    }

    /// Whether the last reception found the answer of every device.
    pub closed spec fn last_result(&self) -> bool {
        self.last_result
    }

    /// The devices of the group, in the order in which they were added.
    pub closed spec fn ids(&self) -> Seq<u8> {
        self.ids@
    }

    /// The list of ids that a request carries after the window.
    pub closed spec fn param(&self) -> Seq<u8> {
        self.param@
    }

    /// Whether the group has changed since the list of ids was last set for
    /// a request.
    pub closed spec fn dirty(&self) -> bool {
        self.is_param_changed
    }

    /// What the group holds for its devices, in the order of [`Self::ids`].
    pub closed spec fn slots(&self) -> Seq<Slot> {
        Seq::new(
            self.ids@.len(),
            |i: int| Slot { filled: self.filled@[i], error: self.errors@[i], data: self.data@[i]@ },
        )
    }

    /// Whether device `id` is in the group.
    pub open spec fn contains(&self, id: u8) -> bool {
        self.ids().contains(id)
    }

    /// What the group holds for device `id`, which is in the group.
    pub open spec fn slot_of(&self, id: u8) -> Slot {
        self.slots()[self.ids().index_of(id)]
    }

    /// What holds of every group: one slot for each device, no device twice,
    /// in every slot as many bytes as the window has, and the devices as
    /// the list of ids for a request.
    pub closed spec fn wf(&self) -> bool {
        &&& self.ids@.len() == self.filled@.len()
        &&& self.ids@.len() == self.errors@.len()
        &&& self.ids@.len() == self.data@.len()
        &&& distinct(self.ids@)
        &&& forall|i: int|
            0 <= i < self.data@.len() ==> (#[trigger] self.data@[i])@.len() == self.data_length
        &&& self.param@ == self.ids@
    }

    /// What [`Self::wf`] says, over the devices and their slots.
    pub proof fn lemma_wf(&self)
        requires
            self.wf(),
        ensures
            self.ids().len() == self.slots().len(),
            distinct(self.ids()),
            forall|i: int|
                0 <= i < self.slots().len() ==> (#[trigger] self.slots()[i]).data.len()
                    == self.data_length(),
            self.param() == self.ids(),
    {
    }

    /// Whether a read of `length` bytes at `address` lies in the window.
    pub open spec fn in_window(&self, address: u8, length: u8) -> bool {
        &&& self.start() <= address
        &&& address + length <= self.start() + self.data_length()
    }

    /// Whether `length` bytes at `address` of device `id` can be had: the
    /// device is in the group, the bytes lie in the window, and the last
    /// reception found the device's answer.
    pub open spec fn available(&self, id: u8, address: u8, length: u8) -> bool {
        &&& self.contains(id)
        &&& self.in_window(address, length)
        &&& self.slot_of(id).filled
    }

    /// An empty group for the window of `data_length` registers from
    /// `start_address`.
    pub fn new(ph: ProtocolPacketHandler, start_address: u8, data_length: u8) -> (g: Self)
        ensures
            g.wf(),
            g.handler() == ph,
            g.start() == start_address,
            g.data_length() == data_length,
            g.ids() == Seq::<u8>::empty(),
            g.slots() == Seq::<Slot>::empty(),
            g.param() == Seq::<u8>::empty(),
            !g.dirty(),
            !g.last_result(),
    {
        let g = GroupSyncRead {
            ph,
            start_address,
            data_length,
            last_result: false,
            is_param_changed: false,
            param: Vec::new(),
            ids: Vec::new(),
            filled: Vec::new(),
            errors: Vec::new(),
            data: Vec::new(),
        };
        assert(g.slots() =~= Seq::<Slot>::empty());
        g
    }

    /// Position of device `scs_id` in the group.
    fn find(&self, scs_id: u8) -> (r: Option<usize>)
        ensures
            match r {
                Some(i) => i < self.ids().len() && self.ids()[i as int] == scs_id,
                None => !self.contains(scs_id),
            },
    {
        let n = self.ids.len();
        let mut i: usize = 0;
        while i < n
            invariant
                i <= n == self.ids@.len(),
                forall|j: int| 0 <= j < i ==> self.ids@[j] != scs_id,
            decreases n - i,
        {
            if self.ids[i] == scs_id {
                return Some(i);
            }
            i = i + 1;
        }
        None
    }

    /// Sets the list of ids to request to the devices of the group, in the
    /// order in which they were added. Nothing else of the group changes.
    pub fn make_param(&mut self)
        ensures
            final(self).param() == old(self).ids(),
            final(self).dirty() == old(self).dirty(),
            final(self).ids() == old(self).ids(),
            final(self).slots() == old(self).slots(),
            old(self).wf() ==> final(self).wf(),
            final(self).handler() == old(self).handler(),
            final(self).start() == old(self).start(),
            final(self).data_length() == old(self).data_length(),
            final(self).last_result() == old(self).last_result(),
    {
        let n = self.ids.len();
        self.param = copy_range(self.ids.as_slice(), 0, n);
    }

    /// Adds device `scs_id` to the group, with an empty slot, and to the
    /// list of ids for a request; refused with `DuplicateId` if it is in the
    /// group.
    pub fn add_param(&mut self, scs_id: u8) -> (r: Result<(), GroupError>)
        requires
            old(self).wf(),
        ensures
            final(self).wf(),
            final(self).handler() == old(self).handler(),
            final(self).start() == old(self).start(),
            final(self).data_length() == old(self).data_length(),
            final(self).last_result() == old(self).last_result(),
            r == if old(self).contains(scs_id) {
                Err::<(), GroupError>(GroupError::DuplicateId)
            } else {
                Ok(())
            },
            r is Ok ==> {
                &&& final(self).ids() == old(self).ids().push(scs_id)
                &&& final(self).slots() == old(self).slots().push(
                    empty_slot(old(self).data_length()),
                )
                &&& final(self).param() == old(self).param().push(scs_id)
                &&& final(self).dirty()
                &&& final(self).contains(scs_id)
                &&& final(self).slot_of(scs_id) == empty_slot(old(self).data_length())
            },
            r is Err ==> {
                &&& final(self).ids() == old(self).ids()
                &&& final(self).slots() == old(self).slots()
                &&& final(self).param() == old(self).param()
                &&& final(self).dirty() == old(self).dirty()
            },
    {
        if self.find(scs_id).is_some() {
            return Err(GroupError::DuplicateId);
        }
        let blank = zeros(self.data_length as usize);
        self.ids.push(scs_id);
        self.filled.push(false);
        self.errors.push(0);
        self.data.push(blank);
        self.param.push(scs_id);
        self.is_param_changed = true;
        proof {
            assert(final(self).slots() =~= old(self).slots().push(
                empty_slot(old(self).data_length()),
            ));
            let last = old(self).ids().len() as int;
            assert(final(self).ids()[last] == scs_id);
            lemma_index_of_distinct(final(self).ids(), last);
        }
        Ok(())
    }

    /// Takes device `scs_id` out of the group and out of the list of ids for
    /// a request; refused with `NotFound` if it is not there.
    pub fn remove_param(&mut self, scs_id: u8) -> (r: Result<(), GroupError>)
        requires
            old(self).wf(),
        ensures
            final(self).wf(),
            final(self).handler() == old(self).handler(),
            final(self).start() == old(self).start(),
            final(self).data_length() == old(self).data_length(),
            final(self).last_result() == old(self).last_result(),
            r == if old(self).contains(scs_id) {
                Ok::<(), GroupError>(())
            } else {
                Err(GroupError::NotFound)
            },
            r is Ok ==> {
                let at = old(self).ids().index_of(scs_id);
                &&& final(self).ids() == old(self).ids().remove(at)
                &&& final(self).slots() == old(self).slots().remove(at)
                &&& !final(self).contains(scs_id)
                &&& final(self).param() == old(self).param().remove(at)
                &&& !final(self).param().contains(scs_id)
                &&& final(self).dirty()
            },
            r is Err ==> {
                &&& final(self).ids() == old(self).ids()
                &&& final(self).slots() == old(self).slots()
                &&& final(self).param() == old(self).param()
                &&& final(self).dirty() == old(self).dirty()
            },
    {
        match self.find(scs_id) {
            None => Err(GroupError::NotFound),
            Some(at) => {
                proof {
                    lemma_index_of_distinct(self.ids@, at as int);
                }
                self.ids.remove(at);
                self.filled.remove(at);
                self.errors.remove(at);
                self.data.remove(at);
                self.param.remove(at);
                self.is_param_changed = true;
                proof {
                    assert(final(self).ids() =~= old(self).ids().remove(at as int));
                    assert(final(self).slots() =~= old(self).slots().remove(at as int));
                }
                Ok(())
            },
        }
    }

    /// Empties the group and the list of ids for a request.
    pub fn clear_param(&mut self)
        ensures
            final(self).wf(),
            final(self).ids() == Seq::<u8>::empty(),
            final(self).slots() == Seq::<Slot>::empty(),
            final(self).param() == Seq::<u8>::empty(),
            final(self).dirty() == old(self).dirty(),
            final(self).handler() == old(self).handler(),
            final(self).start() == old(self).start(),
            final(self).data_length() == old(self).data_length(),
            final(self).last_result() == old(self).last_result(),
    {
        self.ids.clear();
        self.filled.clear();
        self.errors.clear();
        self.data.clear();
        self.param.clear();
        assert(self.slots() =~= Seq::<Slot>::empty());
    }

    /// Requests the window from the devices of the group: sets the list of
    /// ids anew and sends one broadcast synchronous read with the window and
    /// that list as its parameters. After
    /// a successful transmission the port is held until
    /// [`Self::rx_packet`] has collected the answers or given up, and the
    /// packet's time is that of the answers of all devices.
    ///
    /// With an empty group the result is `NotAvailable` and nothing happens;
    /// otherwise it is the result of the transmission.
    pub fn tx_packet(&mut self) -> (r: COMM)
        requires
            old(self).wf(),
        ensures
            final(self).wf(),
            final(self).ids() == old(self).ids(),
            final(self).slots() == old(self).slots(),
            final(self).start() == old(self).start(),
            final(self).data_length() == old(self).data_length(),
            final(self).last_result() == old(self).last_result(),
            final(self).handler().scs_end == old(self).handler().scs_end,
            final(self).handler().pending@ == old(self).handler().pending@,
            old(self).ids().len() == 0 ==> {
                &&& r == COMM::NotAvailable
                &&& final(self).handler() == old(self).handler()
                &&& final(self).param() == old(self).param()
                &&& final(self).dirty() == old(self).dirty()
            },
            old(self).ids().len() > 0 ==> {
                let port = old(self).handler().port_handler@;
                let params = request_params(
                    old(self).start(),
                    old(self).data_length(),
                    old(self).ids(),
                );
                &&& final(self).param() == old(self).ids()
                &&& !final(self).dirty()
                &&& r == instruction_tx_result(port, 0xFE, 0x82, params)
                &&& final(self).handler().port_handler@ == requested(
                    port,
                    old(self).start(),
                    old(self).data_length(),
                    old(self).ids(),
                )
            },
    {
        let count = self.ids.len();
        if count == 0 {
            return COMM::NotAvailable;
        }
        self.make_param();
        self.is_param_changed = false;
        let sent = self.ph.sync_read_tx(
            self.start_address,
            self.data_length,
            self.param.as_slice(),
        );
        if sent == COMM::Success {
            let each = self.data_length as u32 + 6;
            assert(count * each <= 242 * 261) by (nonlinear_arith)
                requires
                    count <= 242,
                    each <= 261,
            ;
            self.ph.port_handler.set_packet_timeout(count as u32 * each);
            self.ph.port_handler.set_using(true);
        }
        sent
    }

    /// Looks in the stream `rxpacket` for the answer of device `scs_id` to a
    /// read of `data_length` bytes.
    ///
    /// The stream is scanned for the first intact status packet with that id
    /// and that many parameter bytes; frames that fail their checksum are
    /// passed over. With one found the result is `Success` with the error
    /// byte followed by the parameter bytes; otherwise `RxCorrupt` with
    /// nothing.
    pub fn read_rx(&self, rxpacket: &[u8], scs_id: u8, data_length: u8) -> (r: (Vec<u8>, COMM))
        ensures
            r.1 == if reply_found(rxpacket@, scs_id, data_length) {
                COMM::Success
            } else {
                COMM::RxCorrupt
            },
            r.0@ == if reply_found(rxpacket@, scs_id, data_length) {
                seq![demuxed(rxpacket@, scs_id, data_length).error] + demuxed(
                    rxpacket@,
                    scs_id,
                    data_length,
                ).data
            } else {
                Seq::<u8>::empty()
            },
    {
        if data_length > MAX_WINDOW {
            return (Vec::new(), COMM::RxCorrupt);
        }
        let found = scan(rxpacket, Some(scs_id), Some(data_length + 2));
        if !found.found {
            return (Vec::new(), COMM::RxCorrupt);
        }
        let n = rxpacket.len();
        let at = found.start;
        assert(at + 3 < n);
        let data = copy_range(rxpacket, at + 4, at + 5 + data_length as usize);
        proof {
            let rx = rxpacket@;
            assert(rx.subrange(at + 4, at + 5 + data_length) =~= seq![error_at(rx, at as int)]
                + params_at(rx, at as int));
        }
        (data, COMM::Success)
    }

    /// Takes the answers of the devices apart.
    ///
    /// With an empty group the result is `NotAvailable`, and the port is
    /// released: a request that went out before the group was emptied holds
    /// it no longer. Otherwise the answers are collected as [`ProtocolPacketHandler::sync_read_rx`]
    /// says; while that is `RxWaiting`, or if it fails, its result is handed
    /// on and the slots stay. Once the stream is there, every device's slot
    /// is set to what the stream gives for that device, and the result is
    /// `Success` if every device's answer was found, `RxCorrupt` if not.
    pub fn rx_packet(&mut self) -> (r: COMM)
        requires
            old(self).wf(),
        ensures
            final(self).wf(),
            final(self).ids() == old(self).ids(),
            final(self).start() == old(self).start(),
            final(self).data_length() == old(self).data_length(),
            final(self).param() == old(self).param(),
            final(self).dirty() == old(self).dirty(),
            final(self).handler().scs_end == old(self).handler().scs_end,
            final(self).handler().pending == old(self).handler().pending,
            old(self).ids().len() == 0 ==> {
                &&& r == COMM::NotAvailable
                &&& final(self).handler().port_handler@ == (PortState {
                    is_using: false,
                    ..old(self).handler().port_handler@
                })
                &&& final(self).slots() == old(self).slots()
                &&& final(self).last_result()
            },
            old(self).ids().len() > 0 ==> {
                let port = old(self).handler().port_handler@;
                let count = old(self).ids().len();
                let window = old(self).data_length();
                let status = group_rx_result(port, count, window);
                let rx = group_rx_bytes(port, count, window);
                &&& final(self).handler().port_handler@ == group_rx_port(port, count, window)
                &&& status != COMM::Success ==> {
                    &&& r == status
                    &&& final(self).slots() == old(self).slots()
                    &&& !final(self).last_result()
                }
                &&& status == COMM::Success ==> {
                    &&& final(self).slots() == demuxed_all(rx, old(self).ids(), window)
                    &&& final(self).last_result() == all_found(rx, old(self).ids(), window)
                    &&& r == if all_found(rx, old(self).ids(), window) {
                        COMM::Success
                    } else {
                        COMM::RxCorrupt
                    }
                }
            },
    {
        self.last_result = true;
        let n = self.ids.len();
        if n == 0 {
            self.ph.port_handler.set_using(false);
            return COMM::NotAvailable;
        }
        let (status, stream) = self.ph.sync_read_rx(self.ids.as_slice(), self.data_length);
        if status != COMM::Success {
            self.last_result = false;
            return status;
        }
        let window = self.data_length;
        let ghost handler = self.ph;
        let mut i: usize = 0;
        while i < n
            invariant
                i <= n == self.ids@.len(),
                self.wf(),
                self.ids@ == old(self).ids@,
                self.ph == handler,
                self.start_address == old(self).start_address,
                self.data_length == old(self).data_length,
                self.param@ == old(self).param@,
                self.is_param_changed == old(self).is_param_changed,
                window == self.data_length,
                self.last_result == all_found(stream@, self.ids@.subrange(0, i as int), window),
                forall|j: int|
                    0 <= j < i ==> (#[trigger] self.slots()[j]) == demuxed(
                        stream@,
                        self.ids@[j],
                        window,
                    ),
            decreases n - i,
        {
            let id = self.ids[i];
            let (answer, comm) = self.read_rx(stream.as_slice(), id, window);
            let ghost before = self.slots();
            if comm == COMM::Success {
                let bytes = copy_range(answer.as_slice(), 1, answer.len());
                self.filled.set(i, true);
                self.errors.set(i, answer[0]);
                self.data.set(i, bytes);
                proof {
                    let slot = demuxed(stream@, id, window);
                    assert(answer@.subrange(1, answer@.len() as int) =~= slot.data);
                }
            } else {
                let blank = zeros(window as usize);
                self.filled.set(i, false);
                self.errors.set(i, 0);
                self.data.set(i, blank);
                self.last_result = false;
            }
            proof {
                assert(self.slots()[i as int] == demuxed(stream@, id, window));
                assert forall|j: int| 0 <= j < i implies (#[trigger] self.slots()[j]) == demuxed(
                    stream@,
                    self.ids@[j],
                    window,
                ) by {
                    assert(self.slots()[j] == before[j]);
                }
                let done = self.ids@.subrange(0, i as int);
                let next = self.ids@.subrange(0, i + 1);
                assert(forall|j: int| 0 <= j < done.len() ==> done[j] == next[j]);
                assert(next[i as int] == id);
                if all_found(stream@, next, window) {
                    assert forall|j: int| 0 <= j < done.len() implies reply_found(
                        stream@,
                        #[trigger] done[j],
                        window,
                    ) by {
                        assert(reply_found(stream@, next[j], window));
                    }
                    assert(reply_found(stream@, next[i as int], window));
                }
                if all_found(stream@, done, window) && reply_found(stream@, id, window) {
                    assert forall|j: int| 0 <= j < next.len() implies reply_found(
                        stream@,
                        #[trigger] next[j],
                        window,
                    ) by {
                        if j < i {
                            assert(reply_found(stream@, done[j], window));
                        }
                    }
                }
            }
            i = i + 1;
        }
        proof {
            assert(self.ids@.subrange(0, n as int) =~= self.ids@);
            assert(self.slots() =~= demuxed_all(stream@, self.ids@, window));
        }
        if self.last_result {
            COMM::Success
        } else {
            COMM::RxCorrupt
        }
    }

    /// Requests the window and looks at once for the answers: the
    /// transmission of [`Self::tx_packet`], and after a successful one the
    /// reception of [`Self::rx_packet`].
    ///
    /// As a transmission drops what had arrived before, the answers are not
    /// there yet: after a successful transmission the result is `RxWaiting`,
    /// and the answers are taken apart by a later [`Self::rx_packet`].
    pub fn tx_rx_packet(&mut self) -> (r: COMM)
        requires
            old(self).wf(),
        ensures
            final(self).wf(),
            final(self).ids() == old(self).ids(),
            final(self).slots() == old(self).slots(),
            final(self).start() == old(self).start(),
            final(self).data_length() == old(self).data_length(),
            old(self).ids().len() == 0 ==> {
                &&& r == COMM::NotAvailable
                &&& final(self).handler() == old(self).handler()
                &&& final(self).last_result() == old(self).last_result()
                &&& final(self).param() == old(self).param()
                &&& final(self).dirty() == old(self).dirty()
            },
            old(self).ids().len() > 0 ==> {
                let port = old(self).handler().port_handler@;
                let params = request_params(
                    old(self).start(),
                    old(self).data_length(),
                    old(self).ids(),
                );
                let sent = instruction_tx_result(port, 0xFE, 0x82, params);
                &&& final(self).param() == old(self).ids()
                &&& !final(self).dirty()
                &&& final(self).handler().port_handler@ == requested(
                    port,
                    old(self).start(),
                    old(self).data_length(),
                    old(self).ids(),
                )
                &&& final(self).handler().scs_end == old(self).handler().scs_end
                &&& final(self).handler().pending@ == old(self).handler().pending@
                &&& r == if sent is Success {
                    COMM::RxWaiting
                } else {
                    sent
                }
                &&& final(self).last_result() == if sent is Success {
                    false
                } else {
                    old(self).last_result()
                }
            },
    {
        let sent = self.tx_packet();
        if sent != COMM::Success {
            return sent;
        }
        proof {
            let count = self.ids().len() as int;
            let each = self.data_length() as int + 6;
            assert(count * each > 0) by (nonlinear_arith)
                requires
                    count > 0,
                    each > 0,
            ;
        }
        self.rx_packet()
    }

    /// The protocol layer of the bus.
    pub fn get_handler(&self) -> (h: &ProtocolPacketHandler)
        ensures
            *h == self.handler(),
    {
        &self.ph
    }

    /// Hands the protocol layer of the bus out; the group stays as it is.
    pub fn get_handler_mut(&mut self) -> (h: &mut ProtocolPacketHandler)
        ensures
            *h == old(self).handler(),
            final(self).handler() == *final(h),
            final(self).wf() == old(self).wf(),
            final(self).ids() == old(self).ids(),
            final(self).slots() == old(self).slots(),
            final(self).param() == old(self).param(),
            final(self).dirty() == old(self).dirty(),
            final(self).start() == old(self).start(),
            final(self).data_length() == old(self).data_length(),
            final(self).last_result() == old(self).last_result(),
    {
        &mut self.ph
    }

    /// Whether `data_length` bytes at `address` of device `scs_id` can be
    /// had, and with them the device's status bits; `(false, 0)` if not.
    pub fn is_available(&self, scs_id: u8, address: u8, data_length: u8) -> (r: (bool, u8))
        requires
            self.wf(),
        ensures
            r.0 == self.available(scs_id, address, data_length),
            r.1 == if self.available(scs_id, address, data_length) {
                self.slot_of(scs_id).error
            } else {
                0u8
            },
    {
        match self.find(scs_id) {
            None => (false, 0),
            Some(at) => {
                proof {
                    lemma_index_of_distinct(self.ids@, at as int);
                }
                if address < self.start_address {
                    return (false, 0);
                }
                if address as u16 + data_length as u16 > self.start_address as u16
                    + self.data_length as u16 {
                    return (false, 0);
                }
                if !self.filled[at] {
                    return (false, 0);
                }
                (true, self.errors[at])
            },
        }
    }

    /// The byte at `address` of device `scs_id` as the group holds it: zero
    /// until an answer has filled the slot.
    ///
    /// Only single bytes are handed out (`data_length` is 1); words are put
    /// together by the caller. `None` for any other length, for a device
    /// that is not in the group and for an address outside the window.
    pub fn get_data(&self, scs_id: u8, address: u8, data_length: u8) -> (r: Option<u8>)
        requires
            self.wf(),
        ensures
            r is Some <==> data_length == 1 && self.contains(scs_id) && self.in_window(address, 1),
            r matches Some(b) ==> b == self.slot_of(scs_id).data[address - self.start()],
    {
        if data_length != 1 {
            return None;
        }
        match self.find(scs_id) {
            None => None,
            Some(at) => {
                proof {
                    lemma_index_of_distinct(self.ids@, at as int);
                }
                if address < self.start_address {
                    return None;
                }
                let offset = (address - self.start_address) as usize;
                if offset >= self.data_length as usize {
                    return None;
                }
                Some(self.data[at][offset])
            },
        }
    }
}

/// Isolation: what a reception stores for one device is what the stream
/// gives for that device alone. In a stream that holds an intact answer of
/// device `id`, the slot of `id` is filled with that answer whatever the
/// other devices of the group are and whatever the stream holds for them.
pub proof fn lemma_partial_failure_isolation(
    rx: Seq<u8>,
    ids: Seq<u8>,
    others: Seq<u8>,
    k: int,
    m: int,
    data_length: u8,
)
    requires
        0 <= k < ids.len(),
        0 <= m < others.len(),
        ids[k] == others[m],
    ensures
        demuxed_all(rx, ids, data_length)[k] == demuxed_all(rx, others, data_length)[m],
        reply_found(rx, ids[k], data_length) ==> demuxed_all(rx, ids, data_length)[k].filled
            && demuxed_all(rx, ids, data_length)[k].data == params_at(
            rx,
            reply_at(rx, ids[k], data_length),
        ),
        !all_found(rx, ids, data_length) <==> exists|j: int|
            0 <= j < ids.len() && !reply_found(rx, #[trigger] ids[j], data_length),
{
}

} // verus!
