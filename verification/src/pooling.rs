//! Embedding-pooling strategy and its native integer encoding.
//!
//! The native runtime selects how per-token embeddings are aggregated into a
//! per-sequence embedding through a small integer code. The mapping between
//! the symbolic strategy and that code must be exact in both directions: a
//! missing or swapped code makes the runtime pool embeddings incorrectly
//! with no further diagnostic.

use vstd::pervasive::unreached;
use vstd::prelude::*;

verus! {

/// Native code for an unspecified pooling strategy
/// (llama.cpp's `LLAMA_POOLING_TYPE_UNSPECIFIED`).
pub const POOLING_CODE_UNSPECIFIED: i32 = -1;

/// Native code for no pooling (llama.cpp's `LLAMA_POOLING_TYPE_NONE`).
pub const POOLING_CODE_NONE: i32 = 0;

/// Native code for mean pooling (llama.cpp's `LLAMA_POOLING_TYPE_MEAN`).
pub const POOLING_CODE_MEAN: i32 = 1;

/// Native code for class-token pooling (llama.cpp's `LLAMA_POOLING_TYPE_CLS`).
pub const POOLING_CODE_CLS: i32 = 2;

/// How the native runtime pools (sums) embedding results by sequence id
/// (ignored if the model has no pooling layer).
#[derive(Clone, Copy, Debug, PartialEq, Eq, Structural)]
pub enum PoolingType {
    /// Leave the choice to the native runtime.
    Unspecified,
    /// Do not pool.
    NoPooling,
    /// Average the per-token embeddings.
    Mean,
    /// Take the class token's embedding.
    Cls,
}

/// The native code that encodes a pooling strategy.
pub open spec fn spec_to_native(p: PoolingType) -> i32 {
    match p {
        PoolingType::Unspecified => POOLING_CODE_UNSPECIFIED,
        PoolingType::NoPooling => POOLING_CODE_NONE,
        PoolingType::Mean => POOLING_CODE_MEAN,
        PoolingType::Cls => POOLING_CODE_CLS,
    }
}

/// Whether a native integer is one of the four defined pooling codes.
pub open spec fn is_known_pooling_code(code: i32) -> bool {
    ||| code == POOLING_CODE_UNSPECIFIED
    ||| code == POOLING_CODE_NONE
    ||| code == POOLING_CODE_MEAN
    ||| code == POOLING_CODE_CLS
}

/// The strategy a native code decodes to; `None` outside the four defined
/// codes, where decoding is a fatal contract violation.
pub open spec fn spec_from_native(code: i32) -> Option<PoolingType> {
    if code == POOLING_CODE_UNSPECIFIED {
        Some(PoolingType::Unspecified)
    } else if code == POOLING_CODE_NONE {
        Some(PoolingType::NoPooling)
    } else if code == POOLING_CODE_MEAN {
        Some(PoolingType::Mean)
    } else if code == POOLING_CODE_CLS {
        Some(PoolingType::Cls)
    } else {
        None
    }
}

impl PoolingType {
    /// Encode the strategy as the native integer code. Total: every variant
    /// has exactly one defined code.
    pub fn to_native(self) -> (code: i32)
        ensures
            code == spec_to_native(self),
            is_known_pooling_code(code),
    {
        match self {
            PoolingType::Unspecified => POOLING_CODE_UNSPECIFIED,
            PoolingType::NoPooling => POOLING_CODE_NONE,
            PoolingType::Mean => POOLING_CODE_MEAN,
            PoolingType::Cls => POOLING_CODE_CLS,
        }
    }

    /// Decode a native integer code: a partial function, defined for
    /// exactly the four codes the precondition admits. Any other code is a
    /// native-library/binding version mismatch, a fatal contract violation:
    /// it lies outside this function's domain, there is no normal return
    /// for it, and it is never coerced to a default variant. An unverified
    /// caller that breaks the precondition hits an unconditional panic.
    /// Boundary code tests a code of unknown provenance with
    /// [`PoolingType::try_from_native`] first and aborts on `None`.
    pub fn from_native(code: i32) -> (r: PoolingType)
        requires
            is_known_pooling_code(code),
        ensures
            Some(r) == spec_from_native(code),
            spec_to_native(r) == code,
    {
        if code == POOLING_CODE_UNSPECIFIED {
            PoolingType::Unspecified
        } else if code == POOLING_CODE_NONE {
            PoolingType::NoPooling
        } else if code == POOLING_CODE_MEAN {
            PoolingType::Mean
        } else if code == POOLING_CODE_CLS {
            PoolingType::Cls
        } else {
            unreached()
        }
    }

    /// Total decode check for the boundary: `Some` of the decoded strategy
    /// for exactly the four defined codes, `None` exactly on the codes on
    /// which decoding is the fatal contract violation that the caller must
    /// surface as an abort.
    pub fn try_from_native(code: i32) -> (r: Option<PoolingType>)
        ensures
            r == spec_from_native(code),
            r is Some <==> is_known_pooling_code(code),
    {
        if code == POOLING_CODE_UNSPECIFIED {
            Some(PoolingType::Unspecified)
        } else if code == POOLING_CODE_NONE {
            Some(PoolingType::NoPooling)
        } else if code == POOLING_CODE_MEAN {
            Some(PoolingType::Mean)
        } else if code == POOLING_CODE_CLS {
            Some(PoolingType::Cls)
        } else {
            None
        }
    }
}

/// Law: decoding a defined native code and encoding the result gives the
/// same code back.
pub proof fn lemma_pooling_code_round_trip(code: i32)
    requires
        is_known_pooling_code(code),
    ensures
        spec_from_native(code) matches Some(p) && spec_to_native(p) == code,
{
}

/// Law: encoding a strategy and decoding the resulting code gives the same
/// strategy back.
pub proof fn lemma_pooling_variant_round_trip(p: PoolingType)
    ensures
        spec_from_native(spec_to_native(p)) == Some(p),
{
}

} // verus!
