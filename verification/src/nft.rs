//! The payload of a token cell, and the layout of the args of a token's type.
//!
//! The args of a token's type are four parts in a row: the code hash of the
//! factory's type (32 bytes), its hash type (1 byte), its args (32 bytes) and
//! the token id (32 bytes).

use vstd::prelude::*;
use vstd::slice::{slice_subrange, slice_to_vec};
use crate::error::Error;
use crate::helper::{
    encode_field, field_content, field_len, lemma_decoded_field, lemma_field_content, lemma_field_len,
    parse_dyn_vec_len,
    DYN_MAX_CONTENT_LEN, DYN_MIN_LEN,
};

verus! {

/// The least number of bytes in a token payload: one empty field.
pub const NFT_DATA_MIN_LEN: usize = 2;

/// Where the code hash of the factory's type starts in the args.
pub const NFT_TYPE_ARGS_COLL_CODE_HASH_INDEX: usize = 0;

pub const NFT_TYPE_ARGS_COLL_CODE_HASH_LEN: usize = 32;

/// Where the hash type of the factory's type starts in the args.
pub const NFT_TYPE_ARGS_COLL_TYPE_INDEX: usize = 32;

pub const NFT_TYPE_ARGS_COLL_TYPE_LEN: usize = 1;

/// Where the args of the factory's type start in the args.
pub const NFT_TYPE_ARGS_COLL_ARGS_INDEX: usize = 33;

pub const NFT_TYPE_ARGS_COLL_ARGS_LEN: usize = 32;

/// Where the token id starts in the args.
pub const NFT_TYPE_ARGS_TOKEN_ID_INDEX: usize = 65;

pub const NFT_TYPE_ARGS_TOKEN_ID_LEN: usize = 32;

/// Length of the args of a token's type.
pub const NFT_TYPE_ARGS_LEN: usize = 97;

/// A decoded token payload. The one field is kept as it stands in the
/// payload, length prefix included.
#[derive(Debug, Clone)]
pub struct Nft {
    pub data: Vec<u8>,
}

impl View for Nft {
    type V = Seq<u8>;

    open spec fn view(&self) -> Seq<u8> {
        self.data@
    }
}

/// What decoding a token payload gives: the field at the start of the
/// buffer, if the buffer holds all of it. Bytes after the field are ignored.
pub open spec fn decode_nft(raw: Seq<u8>) -> Result<Seq<u8>, Error> {
    if raw.len() < NFT_DATA_MIN_LEN {
        Err(Error::DataInvalid)
    } else if raw.len() < field_len(raw, 0) {
        Err(Error::DataInvalid)
    } else {
        Ok(raw.subrange(0, field_len(raw, 0)))
    }
}

impl Nft {
    /// Decodes a token payload.
    pub fn from_data(raw_data: &[u8]) -> (decoded: Result<Nft, Error>)
        ensures
            match decoded {
                Ok(nft) => decode_nft(raw_data@) == Ok::<Seq<u8>, Error>(nft@),
                Err(e) => decode_nft(raw_data@) == Err::<Seq<u8>, Error>(e),
            },
    {
        if raw_data.len() < NFT_DATA_MIN_LEN {
            return Err(Error::DataInvalid);
        }
        let data_len: usize = parse_dyn_vec_len(slice_subrange(raw_data, 0, DYN_MIN_LEN));
        if raw_data.len() < data_len {
            return Err(Error::DataInvalid);
        }
        let data: Vec<u8> = slice_to_vec(slice_subrange(raw_data, 0, data_len));

        Ok(Nft { data })
    }
}

/// Decoding recovers the payload: a buffer that starts with the field of
/// `content` decodes to that field, whatever follows it.
pub proof fn lemma_decode_nft_recovers(content: Seq<u8>, rest: Seq<u8>)
    requires
        content.len() <= DYN_MAX_CONTENT_LEN,
    ensures
        decode_nft(encode_field(content) + rest) == Ok::<Seq<u8>, Error>(encode_field(content)),
{
    let field = encode_field(content);
    let raw = field + rest;
    lemma_field_content(content);
    assert(raw.subrange(0, DYN_MIN_LEN as int) =~= field.take(DYN_MIN_LEN as int));
    lemma_field_len(raw, 0, content);
    assert(raw.subrange(0, field.len() as int) =~= field);
}

/// A truncated buffer is rejected: every proper prefix of a field fails to
/// decode with `DataInvalid`.
pub proof fn lemma_decode_nft_truncated(content: Seq<u8>, len: int)
    requires
        content.len() <= DYN_MAX_CONTENT_LEN,
        0 <= len < encode_field(content).len(),
    ensures
        decode_nft(encode_field(content).take(len)) == Err::<Seq<u8>, Error>(Error::DataInvalid),
{
    let field = encode_field(content);
    let raw = field.take(len);
    lemma_field_content(content);
    if len >= DYN_MIN_LEN {
        assert(raw.subrange(0, DYN_MIN_LEN as int) =~= field.take(DYN_MIN_LEN as int));
        lemma_field_len(raw, 0, content);
    }
}

/// Whatever decodes is a field at the start of the buffer: its length
/// prefix announces its own content.
pub proof fn lemma_decode_nft_is_field(raw: Seq<u8>)
    ensures
        match decode_nft(raw) {
            Ok(data) => {
                &&& data == raw.take(data.len() as int)
                &&& field_content(data).len() <= DYN_MAX_CONTENT_LEN
                &&& data == encode_field(field_content(data))
            },
            Err(e) => e == Error::DataInvalid,
        },
{
    if decode_nft(raw) is Ok {
        let data = raw.subrange(0, field_len(raw, 0));
        lemma_decoded_field(raw, 0);
    }
}

} // verus!
