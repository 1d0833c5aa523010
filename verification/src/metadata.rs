//! The metadata record of a token: one descriptor, always the same text.

use vstd::prelude::*;
use vstd::string::StringExecFns;
use crate::principal::PrincipalId;

verus! {

/// The descriptor that every record holds once it has been written.
pub const METADATA_URI: &'static str =
    "https://aquamarine-additional-carp-588.mypinata.cloud/ipfs/bafkreiaax3gsuvfttrixq3iw7ki37ljqssnfk655dts5rnkpdrowug4ygy";

/// The metadata record of one token.
#[derive(Debug, PartialEq, Eq)]
pub struct CustomMetadata {
    pub uri: String,
}

impl View for CustomMetadata {
    type V = Seq<char>;

    open spec fn view(&self) -> Seq<char> {
        self.uri@
    }
}

/// What a write of the record needs: the record, and whoever pays for it.
#[derive(Debug, PartialEq, Eq)]
pub struct SetMetadata {
    pub metadata: CustomMetadata,
    pub payer: PrincipalId,
}

/// What a read of the record needs: the record.
#[derive(Debug, PartialEq, Eq)]
pub struct GetMetadata {
    pub metadata: CustomMetadata,
}

/// The characters of the fixed descriptor.
pub open spec fn metadata_uri() -> Seq<char> {
    METADATA_URI@
}

/// Whether `after` is what a write makes of `before`: the record holds the
/// fixed descriptor, and the payer is who it was.
pub open spec fn written(before: SetMetadata, after: SetMetadata) -> bool {
    after.metadata@ == metadata_uri() && after.payer == before.payer
}

/// Whether `uri` is what a read of `ctx` returns: the record's text.
pub open spec fn fetched(ctx: GetMetadata, uri: Seq<char>) -> bool {
    uri == ctx.metadata@
}

/// Overwrites the record with the fixed descriptor. Any payer may ask for
/// it, and nothing the caller supplies reaches the record.
pub fn set_metadata(ctx: &mut SetMetadata)
    ensures
        written(*old(ctx), *final(ctx)),
{
    ctx.metadata.uri = String::from_str(METADATA_URI);
}

/// Returns the descriptor that the record holds.
pub fn get_metadata(ctx: &GetMetadata) -> (uri: String)
    ensures
        fetched(*ctx, uri@),
{
    ctx.metadata.uri.clone()
}

/// A read of a record that was written returns the fixed descriptor,
/// whatever the record held before and whoever paid for the write.
pub proof fn lemma_read_after_write(
    before: SetMetadata,
    after: SetMetadata,
    read: GetMetadata,
    uri: Seq<char>,
)
    requires
        written(before, after),
        read.metadata == after.metadata,
        fetched(read, uri),
    ensures
        uri == metadata_uri(),
{
}

} // verus!
