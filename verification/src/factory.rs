//! The payload of a factory cell: the template that all tokens of one
//! collection share.
//!
//! The payload is three fields in a row, `name`, `symbol` and `token_uri`.
//! Each field is a two-byte little-endian length followed by that many bytes
//! of content. A field may be empty, but its length prefix is always there.

use vstd::prelude::*;
use vstd::slice::{slice_subrange, slice_to_vec};
use crate::error::Error;
use crate::helper::{
    bytes_equal, encode_field, field_content, field_len, lemma_decoded_field,
    lemma_field_content, lemma_field_len, parse_dyn_vec_len, DYN_MAX_CONTENT_LEN, DYN_MIN_LEN,
};

verus! {

/// The least number of bytes in a factory payload: three empty fields.
pub const FACTORY_DATA_MIN_LEN: usize = 6;

/// Length of the args of a factory's type.
pub const FACTORY_TYPE_ARGS_LEN: usize = 32;

/// A decoded factory payload. Each field is kept as it stands in the
/// payload, length prefix included.
#[derive(Debug, Clone)]
pub struct Factory {
    pub name: Vec<u8>,
    pub symbol: Vec<u8>,
    pub token_uri: Vec<u8>,
}

/// The three fields of a factory as byte strings.
pub struct FactoryView {
    pub name: Seq<u8>,
    pub symbol: Seq<u8>,
    pub token_uri: Seq<u8>,
}

impl View for Factory {
    type V = FactoryView;

    open spec fn view(&self) -> FactoryView {
        FactoryView { name: self.name@, symbol: self.symbol@, token_uri: self.token_uri@ }
    }
}

/// What decoding a factory payload gives.
///
/// The fields are read from left to right. Before a field is taken, the
/// buffer must hold that field and the length prefixes of the fields after
/// it; the last field must lie inside the buffer. Bytes after the last field
/// are ignored.
pub open spec fn decode_factory(raw: Seq<u8>) -> Result<FactoryView, Error> {
    if raw.len() < FACTORY_DATA_MIN_LEN {
        Err(Error::DataInvalid)
    } else {
        let name_len = field_len(raw, 0);
        if raw.len() < name_len + 2 * DYN_MIN_LEN {
            Err(Error::DataInvalid)
        } else {
            let symbol_len = field_len(raw, name_len);
            if raw.len() < name_len + symbol_len + DYN_MIN_LEN {
                Err(Error::DataInvalid)
            } else {
                let uri_at = name_len + symbol_len;
                let uri_len = field_len(raw, uri_at);
                if raw.len() < uri_at + uri_len {
                    Err(Error::DataInvalid)
                } else {
                    Ok(
                        FactoryView {
                            name: raw.subrange(0, name_len),
                            symbol: raw.subrange(name_len, uri_at),
                            token_uri: raw.subrange(uri_at, uri_at + uri_len),
                        },
                    )
                }
            }
        }
    }
}

impl Factory {
    /// Decodes a factory payload.
    pub fn from_data(raw_data: &[u8]) -> (decoded: Result<Factory, Error>)
        ensures
            match decoded {
                Ok(factory) => decode_factory(raw_data@) == Ok::<FactoryView, Error>(factory@),
                Err(e) => decode_factory(raw_data@) == Err::<FactoryView, Error>(e),
            },
    {
        if raw_data.len() < FACTORY_DATA_MIN_LEN {
            return Err(Error::DataInvalid);
        }
        let name_len: usize = parse_dyn_vec_len(slice_subrange(raw_data, 0, DYN_MIN_LEN));
        if raw_data.len() < name_len + DYN_MIN_LEN * 2 {
            return Err(Error::DataInvalid);
        }
        let name: Vec<u8> = slice_to_vec(slice_subrange(raw_data, 0, name_len));

        let symbol_index: usize = name_len;
        let symbol_len: usize = parse_dyn_vec_len(
            slice_subrange(raw_data, symbol_index, symbol_index + DYN_MIN_LEN),
        );
        if raw_data.len() < symbol_index + symbol_len + DYN_MIN_LEN {
            return Err(Error::DataInvalid);
        }
        let symbol: Vec<u8> = slice_to_vec(
            slice_subrange(raw_data, symbol_index, symbol_index + symbol_len),
        );

        let token_uri_index: usize = name_len + symbol_len;
        let token_uri_len: usize = parse_dyn_vec_len(
            slice_subrange(raw_data, token_uri_index, token_uri_index + DYN_MIN_LEN),
        );
        if raw_data.len() < token_uri_index + token_uri_len {
            return Err(Error::DataInvalid);
        }
        let token_uri: Vec<u8> = slice_to_vec(
            slice_subrange(raw_data, token_uri_index, token_uri_index + token_uri_len),
        );

        Ok(Factory { name, symbol, token_uri })
    }

    /// Whether two factories hold the same template: all three fields are
    /// equal byte for byte.
    pub fn immutable_equal(&self, other: &Factory) -> (equal: bool)
        ensures
            equal == (self@ == other@),
    {
        bytes_equal(self.name.as_slice(), other.name.as_slice()) && bytes_equal(
            self.symbol.as_slice(),
            other.symbol.as_slice(),
        ) && bytes_equal(self.token_uri.as_slice(), other.token_uri.as_slice())
    }
}

/// The payload of a factory with the given contents: the three fields in a
/// row.
pub open spec fn encode_factory(name: Seq<u8>, symbol: Seq<u8>, token_uri: Seq<u8>) -> Seq<u8>
    recommends
        name.len() <= DYN_MAX_CONTENT_LEN,
        symbol.len() <= DYN_MAX_CONTENT_LEN,
        token_uri.len() <= DYN_MAX_CONTENT_LEN,
{
    encode_field(name) + encode_field(symbol) + encode_field(token_uri)
}

/// Decoding recovers the three fields: a buffer that starts with the payload
/// of a factory decodes to the fields of its contents, whatever follows
/// them.
pub proof fn lemma_decode_factory_recovers(
    name: Seq<u8>,
    symbol: Seq<u8>,
    token_uri: Seq<u8>,
    rest: Seq<u8>,
)
    requires
        name.len() <= DYN_MAX_CONTENT_LEN,
        symbol.len() <= DYN_MAX_CONTENT_LEN,
        token_uri.len() <= DYN_MAX_CONTENT_LEN,
    ensures
        decode_factory(encode_factory(name, symbol, token_uri) + rest) == Ok::<
            FactoryView,
            Error,
        >(
            FactoryView {
                name: encode_field(name),
                symbol: encode_field(symbol),
                token_uri: encode_field(token_uri),
            },
        ),
{
    let raw = encode_factory(name, symbol, token_uri) + rest;
    let name_len = encode_field(name).len() as int;
    let symbol_len = encode_field(symbol).len() as int;
    let uri_len = encode_field(token_uri).len() as int;
    let uri_at = name_len + symbol_len;
    lemma_field_content(name);
    lemma_field_content(symbol);
    lemma_field_content(token_uri);
    assert(raw.subrange(0, DYN_MIN_LEN as int) =~= encode_field(name).take(DYN_MIN_LEN as int));
    lemma_field_len(raw, 0, name);
    assert(raw.subrange(name_len, name_len + DYN_MIN_LEN) =~= encode_field(symbol).take(
        DYN_MIN_LEN as int,
    ));
    lemma_field_len(raw, name_len, symbol);
    assert(raw.subrange(uri_at, uri_at + DYN_MIN_LEN) =~= encode_field(token_uri).take(
        DYN_MIN_LEN as int,
    ));
    lemma_field_len(raw, uri_at, token_uri);
    assert(raw.subrange(0, name_len) =~= encode_field(name));
    assert(raw.subrange(name_len, uri_at) =~= encode_field(symbol));
    assert(raw.subrange(uri_at, uri_at + uri_len) =~= encode_field(token_uri));
}

/// A buffer shorter than three empty fields is rejected.
pub proof fn lemma_decode_factory_short(raw: Seq<u8>)
    requires
        raw.len() < FACTORY_DATA_MIN_LEN,
    ensures
        decode_factory(raw) == Err::<FactoryView, Error>(Error::DataInvalid),
{
}

/// A truncated buffer is rejected: every proper prefix of the payload of a
/// factory fails to decode with `DataInvalid`.
pub proof fn lemma_decode_factory_truncated(
    name: Seq<u8>,
    symbol: Seq<u8>,
    token_uri: Seq<u8>,
    len: int,
)
    requires
        name.len() <= DYN_MAX_CONTENT_LEN,
        symbol.len() <= DYN_MAX_CONTENT_LEN,
        token_uri.len() <= DYN_MAX_CONTENT_LEN,
        0 <= len < encode_factory(name, symbol, token_uri).len(),
    ensures
        decode_factory(encode_factory(name, symbol, token_uri).take(len)) == Err::<
            FactoryView,
            Error,
        >(Error::DataInvalid),
{
    let raw = encode_factory(name, symbol, token_uri).take(len);
    let name_len = encode_field(name).len() as int;
    let symbol_len = encode_field(symbol).len() as int;
    let uri_at = name_len + symbol_len;
    lemma_field_content(name);
    lemma_field_content(symbol);
    lemma_field_content(token_uri);
    if len >= FACTORY_DATA_MIN_LEN {
        assert(raw.subrange(0, DYN_MIN_LEN as int) =~= encode_field(name).take(
            DYN_MIN_LEN as int,
        ));
        lemma_field_len(raw, 0, name);
        if len >= name_len + 2 * DYN_MIN_LEN {
            assert(raw.subrange(name_len, name_len + DYN_MIN_LEN) =~= encode_field(symbol).take(
                DYN_MIN_LEN as int,
            ));
            lemma_field_len(raw, name_len, symbol);
            if len >= uri_at + DYN_MIN_LEN {
                assert(raw.subrange(uri_at, uri_at + DYN_MIN_LEN) =~= encode_field(
                    token_uri,
                ).take(DYN_MIN_LEN as int));
                lemma_field_len(raw, uri_at, token_uri);
            }
        }
    }
}

/// Whatever decodes is three fields in a row at the start of the buffer,
/// each with a length prefix that announces its own content; and the only
/// error is `DataInvalid`.
pub proof fn lemma_decode_factory_is_fields(raw: Seq<u8>)
    ensures
        match decode_factory(raw) {
            Ok(factory) => {
                &&& factory.name + factory.symbol + factory.token_uri == raw.take(
                    (factory.name.len() + factory.symbol.len() + factory.token_uri.len()) as int,
                )
                &&& factory.name == encode_field(field_content(factory.name))
                &&& factory.symbol == encode_field(field_content(factory.symbol))
                &&& factory.token_uri == encode_field(field_content(factory.token_uri))
                &&& field_content(factory.name).len() <= DYN_MAX_CONTENT_LEN
                &&& field_content(factory.symbol).len() <= DYN_MAX_CONTENT_LEN
                &&& field_content(factory.token_uri).len() <= DYN_MAX_CONTENT_LEN
            },
            Err(e) => e == Error::DataInvalid,
        },
{
    if decode_factory(raw) is Ok {
        let factory = decode_factory(raw)->Ok_0;
        let name_len = field_len(raw, 0);
        let uri_at = name_len + field_len(raw, name_len);
        lemma_decoded_field(raw, 0);
        lemma_decoded_field(raw, name_len);
        lemma_decoded_field(raw, uri_at);
        assert(factory.name + factory.symbol + factory.token_uri =~= raw.take(
            (factory.name.len() + factory.symbol.len() + factory.token_uri.len()) as int,
        ));
    }
}

} // verus!
