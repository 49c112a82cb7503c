//! The unsigned body of a transaction: its messages and its memo.

use crate::envelope::{envelope_views, envelopes_field, put_envelopes, Envelope, EnvelopeView};
use crate::wire::{put_scalar_bytes, put_uint64, scalar_bytes_field, uint64_field};
use vstd::prelude::*;
use vstd::utf8::encode_utf8;

verus! {

/// What a transaction asks the chain to do.
#[derive(Clone, Debug, PartialEq, Eq)]
pub struct TxBody {
    pub messages: Vec<Envelope>,
    pub memo: String,
    pub timeout_height: u64,
    pub extension_options: Vec<Envelope>,
    pub non_critical_extension_options: Vec<Envelope>,
}

/// What a `TxBody` holds.
pub ghost struct TxBodyView {
    pub messages: Seq<EnvelopeView>,
    pub memo: Seq<char>,
    pub timeout_height: u64,
    pub extension_options: Seq<EnvelopeView>,
    pub non_critical_extension_options: Seq<EnvelopeView>,
}

impl View for TxBody {
    type V = TxBodyView;

    open spec fn view(&self) -> TxBodyView {
        TxBodyView {
            messages: envelope_views(self.messages@),
            memo: self.memo@,
            timeout_height: self.timeout_height,
            extension_options: envelope_views(self.extension_options@),
            non_critical_extension_options: envelope_views(self.non_critical_extension_options@),
        }
    }
}

/// A body on the wire.
pub open spec fn tx_body_bytes(b: TxBodyView) -> Seq<u8> {
    envelopes_field(1, b.messages) + scalar_bytes_field(2, encode_utf8(b.memo)) + uint64_field(
        3,
        b.timeout_height,
    ) + envelopes_field(1023, b.extension_options) + envelopes_field(
        2047,
        b.non_critical_extension_options,
    )
}

impl TxBody {
    /// This body as a message.
    pub fn encode(&self) -> (bytes: Vec<u8>)
        ensures
            bytes@ == tx_body_bytes(self@),
    {
        let mut buf: Vec<u8> = Vec::new();
        put_envelopes(&mut buf, 1, &self.messages);
        put_scalar_bytes(&mut buf, 2, self.memo.as_str().as_bytes());
        put_uint64(&mut buf, 3, self.timeout_height);
        put_envelopes(&mut buf, 1023, &self.extension_options);
        put_envelopes(&mut buf, 2047, &self.non_critical_extension_options);
        assert(buf@ =~= tx_body_bytes(self@));
        buf
    }
}

} // verus!
