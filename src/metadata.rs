use vstd::prelude::*;

use crate::key::Key;

verus! {

/// A creator attribution on an asset's metadata.
#[derive(Clone, Copy, Debug)]
pub struct Creator {
    pub address: Key,
    pub verified: bool,
}

/// The parts of an asset's token metadata that group rewards read.
#[derive(Debug)]
pub struct MintMetadata {
    /// The asset that the metadata describes.
    pub mint: Key,
    /// Display name, as stored.
    pub name: Vec<u8>,
    /// Symbol, as stored.
    pub symbol: Vec<u8>,
    /// Creator attributions, if any are recorded.
    pub creators: Option<Vec<Creator>>,
}

/// Metadata as values: (asset, name, symbol, creators as (identity, verified)).
pub type MetadataFields = (Seq<u8>, Seq<u8>, Seq<u8>, Option<Seq<(Seq<u8>, bool)>>);

pub open spec fn creator_view(c: Creator) -> (Seq<u8>, bool) {
    (c.address@, c.verified)
}

pub open spec fn creators_view(cs: Option<Vec<Creator>>) -> Option<Seq<(Seq<u8>, bool)>> {
    match cs {
        Some(v) => Some(v@.map_values(|c: Creator| creator_view(c))),
        None => None,
    }
}

impl View for MintMetadata {
    type V = MetadataFields;

    open spec fn view(&self) -> MetadataFields {
        (self.mint@, self.name@, self.symbol@, creators_view(self.creators))
    }
}

pub open spec fn metadata_view(m: Option<MintMetadata>) -> Option<MetadataFields> {
    match m {
        Some(md) => Some(md@),
        None => None,
    }
}

/// The metadata that a token-metadata account's data decodes to, or `None` when it
/// does not decode.
pub uninterp spec fn decoded_metadata(data: Seq<u8>) -> Option<(Seq<u8>, Seq<u8>, Seq<u8>, Option<Seq<(Seq<u8>, bool)>>)>;

/// Relies on `Metadata::from_bytes` of mpl-token-metadata: the Borsh decoding of a
/// metadata account's data, which depends on the bytes alone.
#[verifier::external_body]
pub(crate) fn decode_metadata(data: &Vec<u8>) -> (r: Option<MintMetadata>)
    ensures
        metadata_view(r) == decoded_metadata(data@),
{
    let m = mpl_token_metadata::accounts::Metadata::from_bytes(data.as_slice()).ok()?;
    let creators = m.creators.map(|cs| {
        cs.into_iter().map(|c| Creator { address: Key { bytes: c.address.to_bytes() }, verified: c.verified }).collect()
    });
    Some(MintMetadata { mint: Key { bytes: m.mint.to_bytes() }, name: m.name.into_bytes(), symbol: m.symbol.into_bytes(), creators })
}

} // verus!
