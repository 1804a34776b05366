//! The units of work that a spam tick sends.
use alloy::rpc::types::TransactionRequest;
use vstd::prelude::*;

verus! {

/// Declares `alloy`'s transaction request, which is carried and never read.
#[verifier::external_type_specification]
#[verifier::external_body]
pub struct ExTransactionRequest(TransactionRequest);

/// `TransactionRequest::clone`, which the type derives: every field is copied,
/// so the copy is the same request.
pub assume_specification[ <TransactionRequest as Clone>::clone ](tx: &TransactionRequest) -> (copy:
    TransactionRequest)
    ensures
        copy == *tx,
;

/// A transaction with the scenario step that it came from.
pub struct NamedTxRequest {
    pub name: Option<String>,
    pub kind: Option<String>,
    pub tx: TransactionRequest,
}

/// A transaction to send, or several to send together.
pub enum ExecutionRequest {
    Tx(Box<NamedTxRequest>),
    Bundle(Vec<NamedTxRequest>),
}

/// What a [`NamedTxRequest`] holds.
pub struct NamedTxModel {
    pub name: Option<Seq<char>>,
    pub kind: Option<Seq<char>>,
    pub tx: TransactionRequest,
}

/// What an [`ExecutionRequest`] holds.
pub enum RequestModel {
    Tx(NamedTxModel),
    Bundle(Seq<NamedTxModel>),
}

/// What an optional piece of text holds.
pub open spec fn opt_text(text: Option<String>) -> Option<Seq<char>> {
    match text {
        Some(s) => Some(s@),
        None => None,
    }
}

impl View for NamedTxRequest {
    type V = NamedTxModel;

    open spec fn view(&self) -> NamedTxModel {
        NamedTxModel { name: opt_text(self.name), kind: opt_text(self.kind), tx: self.tx }
    }
}

impl View for ExecutionRequest {
    type V = RequestModel;

    open spec fn view(&self) -> RequestModel {
        match self {
            ExecutionRequest::Tx(tx) => RequestModel::Tx((**tx)@),
            ExecutionRequest::Bundle(txs) => RequestModel::Bundle(
                txs@.map_values(|tx: NamedTxRequest| tx@),
            ),
        }
    }
}

/// What the requests of a stream or a batch hold, in order.
pub open spec fn requests(stream: Seq<ExecutionRequest>) -> Seq<RequestModel> {
    stream.map_values(|r: ExecutionRequest| r@)
}

impl Clone for NamedTxRequest {
    fn clone(&self) -> (copy: Self)
        ensures
            copy@ == self@,
    {
        let name = match &self.name {
            Some(s) => Some(s.clone()),
            None => None,
        };
        let kind = match &self.kind {
            Some(s) => Some(s.clone()),
            None => None,
        };
        NamedTxRequest { name, kind, tx: self.tx.clone() }
    }
}

impl Clone for ExecutionRequest {
    fn clone(&self) -> (copy: Self)
        ensures
            copy@ == self@,
    {
        match self {
            ExecutionRequest::Tx(tx) => ExecutionRequest::Tx(Box::new((**tx).clone())),
            ExecutionRequest::Bundle(txs) => {
                let copies = txs.clone();
                assert(copies@.map_values(|tx: NamedTxRequest| tx@) =~= txs@.map_values(
                    |tx: NamedTxRequest| tx@,
                ));
                ExecutionRequest::Bundle(copies)
            },
        }
    }
}

/// The model of a transaction leaves nothing out: transactions with one model
/// have the same name, kind and content.
pub proof fn transaction_model_is_faithful(a: NamedTxRequest, b: NamedTxRequest)
    ensures
        a@ == b@ <==> {
            &&& a.tx == b.tx
            &&& a.name is Some <==> b.name is Some
            &&& a.kind is Some <==> b.kind is Some
            &&& a.name is Some && b.name is Some ==> a.name->0@ == b.name->0@
            &&& a.kind is Some && b.kind is Some ==> a.kind->0@ == b.kind->0@
        },
        a@.tx == a.tx,
        a.name matches Some(name) ==> a@.name == Some(name@),
        a.kind matches Some(kind) ==> a@.kind == Some(kind@),
{
}

/// The model of a request leaves nothing out: it tells a transaction from a
/// bundle, and holds each transaction in its place.
pub proof fn request_model_is_faithful(request: ExecutionRequest)
    ensures
        request matches ExecutionRequest::Tx(tx) ==> request@ == RequestModel::Tx((*tx)@),
        request matches ExecutionRequest::Bundle(txs) ==> {
            &&& request@ matches RequestModel::Bundle(models)
            &&& models.len() == txs@.len()
            &&& forall|i: int| 0 <= i < models.len() ==> #[trigger] models[i] == txs@[i]@
        },
{
}

/// The models of a stream stand for its requests one for one, in order.
pub proof fn stream_model_is_faithful(stream: Seq<ExecutionRequest>, i: int)
    requires
        0 <= i < stream.len(),
    ensures
        requests(stream).len() == stream.len(),
        requests(stream)[i] == stream[i]@,
{
}

} // verus!
