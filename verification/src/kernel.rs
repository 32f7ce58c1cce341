//! Kernel image preparation: the guest kernel is embedded gzip-compressed;
//! before launch it is decompressed in memory and the caller is told which
//! seals to apply to the anonymous memory-backed file that will carry it, so
//! that the launcher can never observe the image changing size.

use vstd::prelude::*;

verus! {

/// What `gunzip` returns for a given compressed input: decompression of a
/// gzip stream is a function of the input bytes alone, `None` standing for a
/// malformed stream.
pub uninterp spec fn gunzip_of(compressed: Seq<u8>) -> Option<Seq<u8>>;

/// Relies on flate2's `read::GzDecoder` over an in-memory byte slice,
/// drained with `read_to_end`: the decompressed bytes (or the decode
/// failure) depend on the input bytes alone.
#[verifier::external_body]
fn gunzip(compressed: &[u8]) -> (r: Result<Vec<u8>, String>)
    ensures
        r is Ok <==> gunzip_of(compressed@) is Some,
        r matches Ok(v) ==> gunzip_of(compressed@) == Some(v@),
{
    let mut gz = flate2::read::GzDecoder::new(compressed);
    let mut out = Vec::new();
    match std::io::Read::read_to_end(&mut gz, &mut out) {
        Ok(_) => Ok(out),
        Err(e) => Err(format!("{}", e)),
    }
}

/// The seals to place on the memory-backed file that carries the kernel, in
/// the order they must be applied: first forbid shrinking and growing, then
/// forbid any further change to the seal set itself.
#[derive(Clone, Copy, Debug, PartialEq, Eq, Structural)]
pub enum SealOp {
    ForbidShrink,
    ForbidGrow,
    ForbidSealChanges,
}

/// A guest-bootable kernel image, decompressed and ready to be written into
/// an anonymous memory-backed file: the file is to be sized to `bytes`,
/// sealed as `seals` lists, filled with `bytes`, and rewound to its start.
pub struct KernelImage {
    pub bytes: Vec<u8>,
    pub seals: Vec<SealOp>,
}

/// The one valid seal order.
pub open spec fn seal_order() -> Seq<SealOp> {
    seq![SealOp::ForbidShrink, SealOp::ForbidGrow, SealOp::ForbidSealChanges]
}

/// Decompresses the embedded (gzip-compressed) kernel and states how the
/// resulting blob must be sealed. Fails exactly when the compressed stream
/// is malformed.
pub fn prepare_kernel_image(compressed: &[u8]) -> (r: Result<KernelImage, String>)
    ensures
        r is Ok <==> gunzip_of(compressed@) is Some,
        r matches Ok(k) ==> gunzip_of(compressed@) == Some(k.bytes@) && k.seals@ == seal_order(),
{
    let bytes = gunzip(compressed)?;
    let mut seals: Vec<SealOp> = Vec::new();
    seals.push(SealOp::ForbidShrink);
    seals.push(SealOp::ForbidGrow);
    seals.push(SealOp::ForbidSealChanges);
    proof {
        assert(seals@ =~= seal_order());
    }
    Ok(KernelImage { bytes, seals })
}

/// Kernel image preparation is deterministic: the decompressed content is a
/// function of the compressed input alone, so preparing the same input twice
/// yields the same length and the same bytes.
pub proof fn lemma_prepare_deterministic(a: Seq<u8>, b: Seq<u8>)
    requires
        a == b,
    ensures
        gunzip_of(a) == gunzip_of(b),
{
}

} // verus!
