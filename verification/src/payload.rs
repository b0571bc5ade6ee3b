//! Decoded callback-request events, the outbound callback wire payload,
//! and the callback batch entry that is handed to the chain client.
//!
//! The wire payload has a fixed layout: the 4-byte function selector,
//! then the variable-length output, then the 32-byte content identifier,
//! in that exact order.

use vstd::prelude::*;

use crate::text::{append_bytes, copy_bytes};

verus! {

/// A decoded callback-request event: an on-chain request to compute an
/// output for `input` under the program named by `image_id` and return it
/// through a call of `callback_contract`.
#[derive(Debug, Clone)]
pub struct CallbackRequest {
    pub requester: Vec<u8>,
    pub image_id: Vec<u8>,
    pub input: Vec<u8>,
    pub callback_contract: Vec<u8>,
    pub function_selector: Vec<u8>,
    pub gas_limit: u64,
}

/// The mathematical value of a `CallbackRequest`.
pub ghost struct CallbackRequestView {
    pub requester: Seq<u8>,
    pub image_id: Seq<u8>,
    pub input: Seq<u8>,
    pub callback_contract: Seq<u8>,
    pub function_selector: Seq<u8>,
    pub gas_limit: u64,
}

impl View for CallbackRequest {
    type V = CallbackRequestView;

    open spec fn view(&self) -> CallbackRequestView {
        CallbackRequestView {
            requester: self.requester@,
            image_id: self.image_id@,
            input: self.input@,
            callback_contract: self.callback_contract@,
            function_selector: self.function_selector@,
            gas_limit: self.gas_limit,
        }
    }
}

/// Well-formedness of a request: a 4-byte function selector and a 32-byte
/// content identifier.
pub open spec fn request_wf(r: CallbackRequestView) -> bool {
    r.function_selector.len() == 4 && r.image_id.len() == 32
}

/// One entry of a callback batch: the contract to call, an (empty)
/// inclusion proof, the wire payload, and the gas limit of the request.
#[derive(Debug, Clone)]
pub struct Callback {
    pub callback_contract: Vec<u8>,
    pub inclusion_proof: Vec<u8>,
    pub payload: Vec<u8>,
    pub gas_limit: u64,
}

/// The mathematical value of a `Callback`.
pub ghost struct CallbackView {
    pub callback_contract: Seq<u8>,
    pub inclusion_proof: Seq<u8>,
    pub payload: Seq<u8>,
    pub gas_limit: u64,
}

impl View for Callback {
    type V = CallbackView;

    open spec fn view(&self) -> CallbackView {
        CallbackView {
            callback_contract: self.callback_contract@,
            inclusion_proof: self.inclusion_proof@,
            payload: self.payload@,
            gas_limit: self.gas_limit,
        }
    }
}

/// The wire payload: function selector, then output, then content
/// identifier.
pub open spec fn payload_bytes(function_selector: Seq<u8>, output: Seq<u8>, image_id: Seq<u8>) -> Seq<u8> {
    function_selector + output + image_id
}

/// The callback batch entry owed for a request and an output: the
/// request's contract and gas limit, an empty inclusion proof, and the
/// wire payload built from the request and the output.
pub open spec fn callback_for(req: CallbackRequestView, output: Seq<u8>) -> CallbackView {
    CallbackView {
        callback_contract: req.callback_contract,
        inclusion_proof: Seq::empty(),
        payload: payload_bytes(req.function_selector, output, req.image_id),
        gas_limit: req.gas_limit,
    }
}

/// Concatenates the 4-byte function selector, the output, and the 32-byte
/// content identifier into the wire payload.
pub fn build_callback_payload(function_selector: &Vec<u8>, output: &Vec<u8>, image_id: &Vec<u8>) -> (r: Vec<u8>)
    requires
        function_selector@.len() == 4,
        image_id@.len() == 32,
    ensures
        r@ == payload_bytes(function_selector@, output@, image_id@),
        r@.len() == 36 + output@.len(),
{
    let mut out = copy_bytes(function_selector);
    append_bytes(&mut out, output);
    append_bytes(&mut out, image_id);
    out
}

/// Builds the single callback batch entry for a request and the output
/// computed for it.
pub fn build_callback(request: &CallbackRequest, output: &Vec<u8>) -> (r: Callback)
    requires
        request_wf(request@),
    ensures
        r@ == callback_for(request@, output@),
{
    let payload = build_callback_payload(
        &request.function_selector,
        output,
        &request.image_id,
    );
    let r = Callback {
        callback_contract: copy_bytes(&request.callback_contract),
        inclusion_proof: Vec::new(),
        payload,
        gas_limit: request.gas_limit,
    };
    proof {
        assert(r@.inclusion_proof =~= Seq::<u8>::empty());
    }
    r
}

} // verus!
