//! Registration of driver clients, and the operations submitted to them.

use vstd::prelude::*;

use crate::ppa::device::{Device, Surface};
use crate::ppa::driver::{
    esp_result, DriverCall, FillConfig, SrmConfig, TransMode, Transaction, TransactionState,
    ESP_OK,
};

verus! {

/// Which PPA operation a [`Client`] is registered for.
#[derive(Copy, Clone, Debug, PartialEq, Eq, Structural)]
pub enum Operation {
    /// Scale, rotate or mirror an input picture into an output picture.
    Srm,
    /// Alpha-blend a foreground over a background into an output.
    Blend,
    /// Fill a target window with a constant pixel value.
    Fill,
}

/// The driver's own numbers for the operations.
#[derive(Copy, Clone, Debug, PartialEq, Eq, Structural)]
pub struct OperationCodes {
    pub srm: u32,
    pub blend: u32,
    pub fill: u32,
}

impl Operation {
    /// The driver's number for this operation.
    pub fn raw(self, codes: &OperationCodes) -> (r: u32)
        ensures
            self == Operation::Srm ==> r == codes.srm,
            self == Operation::Blend ==> r == codes.blend,
            self == Operation::Fill ==> r == codes.fill,
    {
        match self {
            Operation::Srm => codes.srm,
            Operation::Blend => codes.blend,
            Operation::Fill => codes.fill,
        }
    }
}

/// A request to register a client, `ppa_register_client`'s configuration.
#[derive(Copy, Clone, Debug, PartialEq, Eq, Structural)]
pub struct Registration {
    pub oper_type: Operation,
    pub max_pending_trans_num: u32,
    /// The burst length by the driver's number; 0 leaves the choice to it.
    pub data_burst_length: u32,
}

impl Registration {
    /// The request for a client that serves `op` and queues up to `max_pending`
    /// transactions.
    pub open spec fn request(op: Operation, max_pending: u32) -> Registration {
        Registration { oper_type: op, max_pending_trans_num: max_pending, data_burst_length: 0 }
    }

    /// The client, given the status that the registration returned and the
    /// handle that it stored.
    pub fn finish(self, status: i32, handle: usize) -> (r: Result<Client, i32>)
        ensures
            r is Ok <==> status == ESP_OK,
            r matches Ok(client) ==> client@ == handle,
            r matches Err(e) ==> e == status,
    {
        match esp_result(status) {
            Ok(()) => Ok(Client { handle }),
            Err(e) => Err(e),
        }
    }
}

/// A registered PPA client. The driver keeps a queue of pending transactions
/// per client, and a client serves one [`Operation`].
#[derive(Debug)]
pub struct Client {
    handle: usize,
}

/// The driver's handle of the client.
impl View for Client {
    type V = usize;

    closed spec fn view(&self) -> usize {
        self.handle
    }
}

impl Client {
    /// A client for `op` with room for `max_pending` queued transactions. One
    /// is enough where every operation is submitted in blocking mode.
    pub fn new(op: Operation, max_pending: u32) -> (r: Registration)
        ensures
            r == (Registration {
                oper_type: op,
                max_pending_trans_num: max_pending,
                data_burst_length: 0,
            }),
            r == Registration::request(op, max_pending),
    {
        Registration { oper_type: op, max_pending_trans_num: max_pending, data_burst_length: 0 }
    }

    /// A fill client with room for one transaction.
    pub fn new_fill() -> (r: Registration)
        ensures
            r == (Registration {
                oper_type: Operation::Fill,
                max_pending_trans_num: 1,
                data_burst_length: 0,
            }),
            r == Registration::request(Operation::Fill, 1),
    {
        Self::new(Operation::Fill, 1)
    }

    /// A blend client with room for one transaction.
    pub fn new_blend() -> (r: Registration)
        ensures
            r == (Registration {
                oper_type: Operation::Blend,
                max_pending_trans_num: 1,
                data_burst_length: 0,
            }),
            r == Registration::request(Operation::Blend, 1),
    {
        Self::new(Operation::Blend, 1)
    }

    /// A scale-rotate-mirror client with room for one transaction.
    pub fn new_srm() -> (r: Registration)
        ensures
            r == (Registration {
                oper_type: Operation::Srm,
                max_pending_trans_num: 1,
                data_burst_length: 0,
            }),
            r == Registration::request(Operation::Srm, 1),
    {
        Self::new(Operation::Srm, 1)
    }

    /// The driver's handle.
    pub fn raw(&self) -> (r: usize)
        ensures
            r == self@,
    {
        self.handle
    }

    /// Whether `calls`, where they succeed and the client is one for fills, write
    /// the fill's value to the pixels that it covers, once they have returned,
    /// and nothing else.
    pub open spec fn performs_fill(&self, calls: Seq<DriverCall>, config: FillConfig) -> bool {
        forall|d: Device, s: Surface, px: int, py: int|
            #[trigger] d.after_all(calls).pixel(s, px, py) == (if d.serves(self@, Operation::Fill)
                && config.mode == TransMode::Blocking && s == config.out.surface() && config.covers(
                px,
                py,
            ) {
                config.fill_color_val as int
            } else {
                d.pixel(s, px, py)
            })
    }

    /// Whether `calls`, where they succeed and the client is one for
    /// scale-rotate-mirror operations, write the operation's pixels, once they
    /// have returned, and nothing else.
    pub open spec fn performs_srm(&self, calls: Seq<DriverCall>, config: SrmConfig) -> bool {
        forall|d: Device, s: Surface, px: int, py: int|
            #[trigger] d.after_all(calls).pixel(s, px, py) == (if d.serves(self@, Operation::Srm)
                && config.mode == TransMode::Blocking && s == config.out.surface() && config.covers(
                px,
                py,
            ) {
                d.srm_value(config, px, py)
            } else {
                d.pixel(s, px, py)
            })
    }

    /// Whether `calls`, where they succeed and the client is one for blends, do
    /// what the descriptor at address `config` says, and nothing else.
    pub open spec fn performs_blend(&self, calls: Seq<DriverCall>, config: usize) -> bool {
        forall|d: Device| #[trigger]
            d.after_all(calls).memory == (if d.serves(self@, Operation::Blend) {
                (d.blend)(config, d.memory)
            } else {
                d.memory
            })
    }

    /// Submits a fill. The output buffer starts on a cache line.
    pub fn do_fill(&self, config: &FillConfig) -> (r: Transaction)
        ensures
            r@ == TransactionState::fresh(seq![DriverCall::Fill { client: self@, fill: *config }]),
            self.performs_fill(r@.calls, *config),
    {
        let mut calls: Vec<DriverCall> = Vec::new();
        calls.push(DriverCall::Fill { client: self.handle, fill: *config });
        assert(calls@ =~= seq![DriverCall::Fill { client: self@, fill: *config }]);
        proof {
            lemma_single_call(calls@);
        }
        Transaction::of(calls)
    }

    /// Submits the blend whose descriptor lies at address `config`.
    pub fn do_blend(&self, config: usize) -> (r: Transaction)
        ensures
            r@ == TransactionState::fresh(seq![DriverCall::Blend { client: self@, blend: config }]),
            self.performs_blend(r@.calls, config),
    {
        let mut calls: Vec<DriverCall> = Vec::new();
        calls.push(DriverCall::Blend { client: self.handle, blend: config });
        assert(calls@ =~= seq![DriverCall::Blend { client: self@, blend: config }]);
        proof {
            lemma_single_call(calls@);
        }
        Transaction::of(calls)
    }

    /// Submits a scale-rotate-mirror operation.
    pub fn do_srm(&self, config: &SrmConfig) -> (r: Transaction)
        ensures
            r@ == TransactionState::fresh(seq![DriverCall::Srm { client: self@, srm: *config }]),
            self.performs_srm(r@.calls, *config),
    {
        let mut calls: Vec<DriverCall> = Vec::new();
        calls.push(DriverCall::Srm { client: self.handle, srm: *config });
        assert(calls@ =~= seq![DriverCall::Srm { client: self@, srm: *config }]);
        proof {
            lemma_single_call(calls@);
        }
        Transaction::of(calls)
    }
}

/// A client that was asked for serves the operation that it was asked for, and
/// no other, and every other client what it served; its queue has the room that
/// was asked for, and the burst length is the driver's choice.
pub proof fn law_client_serves_what_it_was_requested_for(
    d: Device,
    op: Operation,
    max_pending: u32,
    handle: usize,
    other: usize,
    what: Operation,
)
    ensures
        ({
            let request = Registration::request(op, max_pending);
            let registered = d.registered(request.oper_type, handle);
            &&& registered.serves(handle, what) <==> what == op
            &&& other != handle ==> (registered.serves(other, what) <==> d.serves(other, what))
            &&& request.max_pending_trans_num == max_pending
            &&& request.data_burst_length == 0
        }),
{
}

/// One call has the effect of that call.
proof fn lemma_single_call(calls: Seq<DriverCall>)
    requires
        calls.len() == 1,
    ensures
        forall|d: Device| #[trigger] d.after_all(calls) == d.after(calls[0]),
{
    reveal_with_fuel(Device::after_all, 2);
}

} // verus!
