//! The firmware catalog: a static mapping from device kind to firmware
//! payloads, decompressed once from a compressed store when the catalog is
//! built, and immutable thereafter.

use vstd::prelude::*;
use crate::types::DeviceType;

verus! {

/// What `lz4::block::decompress` with no size hint returns for a given
/// input: `None` when the input is rejected or malformed, the decompressed
/// bytes otherwise.  The result is a function of the input bytes alone.
pub uninterp spec fn lz4_block_of(src: Seq<u8>) -> Option<Seq<u8>>;

/// Relies on `lz4::block::decompress` with no size hint: it reads the
/// uncompressed size from the buffer's four-byte prefix and inflates the
/// rest, so the result (bytes or error) is decided by the input alone.
/// The binding narrows the source length to 32 bits before handing it to
/// the C decoder, so inputs past that bound are left out here and refused
/// by the callers instead.
#[verifier::external_body]
fn lz4_decompress(src: &Vec<u8>) -> (r: Option<Vec<u8>>)
    requires
        src@.len() <= 0x7fff_ffff,
    ensures
        r is Some <==> lz4_block_of(src@) is Some,
        r matches Some(v) ==> Some(v@) == lz4_block_of(src@),
{
    match lz4::block::decompress(src, None) {
        Ok(v) => Some(v),
        Err(_) => None,
    }
}

/// Whether a compressed store is usable: small enough for the decoder's
/// 32-bit source length, and well-formed enough to decompress.
pub open spec fn store_ok(src: Seq<u8>) -> bool {
    src.len() <= 0x7fff_ffff && lz4_block_of(src) is Some
}

/// A firmware payload selected for one device: either the paired images of
/// a dual-channel device (main, display) or a single standalone image.
#[derive(Debug)]
pub enum Uf2File {
    FreeWili(Vec<u8>, Vec<u8>),
    Standalone(Vec<u8>),
}

/// Mathematical model of a [`Uf2File`]: the same shape over byte sequences.
pub enum Uf2FileModel {
    FreeWili(Seq<u8>, Seq<u8>),
    Standalone(Seq<u8>),
}

impl View for Uf2File {
    type V = Uf2FileModel;

    open spec fn view(&self) -> Uf2FileModel {
        match self {
            Uf2File::FreeWili(m, d) => Uf2FileModel::FreeWili(m@, d@),
            Uf2File::Standalone(b) => Uf2FileModel::Standalone(b@),
        }
    }
}

/// The decompressed firmware images, one slot per flashable family.
pub struct Catalog {
    pub main_fw: Vec<u8>,
    pub display_fw: Vec<u8>,
    pub defcon2024_fw: Vec<u8>,
    pub defcon2025_fw: Vec<u8>,
}

/// Whether the catalog holds a payload for this kind.  The unrecognized
/// kind, the kind with no published firmware, and the ambiguous bootloader
/// kind (when no hint resolved it to a known family) have none.
pub open spec fn kind_has_payload(kind: DeviceType) -> bool {
    match kind {
        DeviceType::Freewili => true,
        DeviceType::Defcon2024Badge => true,
        DeviceType::Defcon2025FwBadge => true,
        DeviceType::Winky => false,
        DeviceType::Uf2 => false,
        DeviceType::Unknown => false,
    }
}

/// The payload the catalog returns for a kind, as a function of the
/// catalog's contents and the kind alone.
pub open spec fn spec_payload_for(cat: Catalog, kind: DeviceType) -> Option<Uf2FileModel> {
    match kind {
        DeviceType::Freewili => Some(Uf2FileModel::FreeWili(cat.main_fw@, cat.display_fw@)),
        DeviceType::Defcon2024Badge => Some(Uf2FileModel::Standalone(cat.defcon2024_fw@)),
        DeviceType::Defcon2025FwBadge => Some(Uf2FileModel::Standalone(cat.defcon2025_fw@)),
        DeviceType::Winky => None,
        DeviceType::Uf2 => None,
        DeviceType::Unknown => None,
    }
}

/// Copies a byte vector.  The copy's contents equal the original's.
pub fn clone_bytes(v: &Vec<u8>) -> (r: Vec<u8>)
    ensures
        r@ == v@,
{
    let mut r: Vec<u8> = Vec::new();
    let mut i: usize = 0;
    while i < v.len()
        invariant
            i <= v.len(),
            r@ == v@.subrange(0, i as int),
        decreases v.len() - i,
    {
        r.push(v[i]);
        i = i + 1;
        proof {
            assert(r@ =~= v@.subrange(0, i as int));
        }
    }
    proof {
        assert(r@ =~= v@);
    }
    r
}

impl Catalog {
    /// Builds the catalog by decompressing the four stored images.  Returns
    /// `None` exactly when some store is oversized or fails to decompress;
    /// on success each slot holds the decompressed bytes of its store.
    pub fn try_new(
        main_c: &Vec<u8>,
        display_c: &Vec<u8>,
        defcon2024_c: &Vec<u8>,
        defcon2025_c: &Vec<u8>,
    ) -> (r: Option<Catalog>)
        ensures
            r is Some <==> (store_ok(main_c@) && store_ok(display_c@) && store_ok(defcon2024_c@)
                && store_ok(defcon2025_c@)),
            r matches Some(cat) ==> {
                &&& Some(cat.main_fw@) == lz4_block_of(main_c@)
                &&& Some(cat.display_fw@) == lz4_block_of(display_c@)
                &&& Some(cat.defcon2024_fw@) == lz4_block_of(defcon2024_c@)
                &&& Some(cat.defcon2025_fw@) == lz4_block_of(defcon2025_c@)
            },
    {
        if main_c.len() > 0x7fff_ffff || display_c.len() > 0x7fff_ffff || defcon2024_c.len()
            > 0x7fff_ffff || defcon2025_c.len() > 0x7fff_ffff {
            return None;
        }
        let main_fw = match lz4_decompress(main_c) {
            Some(v) => v,
            None => {
                return None;
            },
        };
        let display_fw = match lz4_decompress(display_c) {
            Some(v) => v,
            None => {
                return None;
            },
        };
        let defcon2024_fw = match lz4_decompress(defcon2024_c) {
            Some(v) => v,
            None => {
                return None;
            },
        };
        let defcon2025_fw = match lz4_decompress(defcon2025_c) {
            Some(v) => v,
            None => {
                return None;
            },
        };
        Some(Catalog { main_fw, display_fw, defcon2024_fw, defcon2025_fw })
    }

    /// Returns the firmware payload for a device kind, or `None` for a kind
    /// the catalog has no entry for.  The result is a function of the
    /// catalog's contents and the kind: every call returns the same answer.
    pub fn payload_for(&self, kind: DeviceType) -> (r: Option<Uf2File>)
        ensures
            r is Some <==> kind_has_payload(kind),
            r matches Some(f) ==> Some(f@) == spec_payload_for(*self, kind),
    {
        match kind {
            DeviceType::Freewili => Some(
                Uf2File::FreeWili(clone_bytes(&self.main_fw), clone_bytes(&self.display_fw)),
            ),
            DeviceType::Defcon2024Badge => Some(
                Uf2File::Standalone(clone_bytes(&self.defcon2024_fw)),
            ),
            DeviceType::Defcon2025FwBadge => Some(
                Uf2File::Standalone(clone_bytes(&self.defcon2025_fw)),
            ),
            DeviceType::Winky => None,
            DeviceType::Uf2 => None,
            DeviceType::Unknown => None,
        }
    }
}

/// The kind a payload is selected by: the reported kind, except that the
/// ambiguous bootloader kind is replaced by the caller's hint when one was
/// given.  A hint never overrides an unambiguous kind.
pub open spec fn spec_resolve_kind(reported: DeviceType, hint: Option<DeviceType>) -> DeviceType {
    if reported is Uf2 && hint is Some {
        hint.unwrap()
    } else {
        reported
    }
}

/// Applies the caller-supplied kind hint to the kind a device reports.
pub fn resolve_kind(reported: DeviceType, hint: Option<DeviceType>) -> (r: DeviceType)
    ensures
        r == spec_resolve_kind(reported, hint),
{
    match (reported, hint) {
        (DeviceType::Uf2, Some(h)) => h,
        (other, _) => other,
    }
}

/// Law: a kind without a catalog entry resolves to no payload, whatever the
/// catalog holds — so `payload_for` answers `None` for it on every call.
pub proof fn lemma_unflashable_kind_has_no_payload(cat: Catalog, kind: DeviceType)
    requires
        !kind_has_payload(kind),
    ensures
        spec_payload_for(cat, kind) is None,
{
}

} // verus!
