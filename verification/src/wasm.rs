//! Validation of the binary container format of a submitted contract module.
//!
//! A submitted body is accepted only when it is at least five bytes long and
//! opens with the fixed four-byte module magic `00 61 73 6d`; everything else
//! is rejected before any deployment is attempted.

use vstd::prelude::*;

verus! {

/// The fixed four-byte magic prefix every binary contract module must carry.
pub open spec fn wasm_magic() -> Seq<u8> {
    seq![0x00u8, 0x61u8, 0x73u8, 0x6du8]
}

/// A byte sequence is an acceptable container: at least five bytes long and
/// opening with the fixed magic prefix.
pub open spec fn is_wasm_module(data: Seq<u8>) -> bool {
    data.len() >= 5 && data.subrange(0, 4) == wasm_magic()
}

/// Container check performed on the raw request body before any deployment
/// attempt.
pub fn validate_wasm(data: &Vec<u8>) -> (ok: bool)
    ensures
        ok == is_wasm_module(data@),
{
    if data.len() <= 4 {
        return false;
    }
    let ok = data[0] == 0x00 && data[1] == 0x61 && data[2] == 0x73 && data[3] == 0x6d;
    proof {
        let pre = data@.subrange(0, 4);
        if ok {
            assert(pre =~= wasm_magic());
        } else {
            assert(pre[0] == data@[0] && pre[1] == data@[1] && pre[2] == data@[2] && pre[3]
                == data@[3]);
            assert(pre != wasm_magic());
        }
    }
    ok
}

/// Any body shorter than five bytes, or whose first four bytes differ from
/// the fixed magic prefix, is never an acceptable container, so deployment
/// is never attempted for it.
pub proof fn lemma_invalid_container_rejected(data: Seq<u8>)
    requires
        data.len() < 5 || data.subrange(0, 4) != wasm_magic(),
    ensures
        !is_wasm_module(data),
{
}

} // verus!
