use freewili_updater::catalog::{resolve_kind, Catalog, Uf2File};
use freewili_updater::types::DeviceType;

fn compressed(data: &[u8]) -> Vec<u8> {
    lz4::block::compress(data, None, true).expect("compression failed")
}

fn sample_catalog() -> Catalog {
    let main = vec![1u8, 2, 3, 4];
    let display = vec![9u8, 8, 7, 6, 5, 4];
    let dc24 = vec![0xAAu8; 10];
    let dc25 = vec![0x55u8; 3];
    Catalog::try_new(
        &compressed(&main),
        &compressed(&display),
        &compressed(&dc24),
        &compressed(&dc25),
    )
    .expect("catalog should decompress")
}

#[test]
fn catalog_round_trips_compressed_store() {
    let cat = sample_catalog();
    assert_eq!(cat.main_fw, vec![1u8, 2, 3, 4]);
    assert_eq!(cat.display_fw, vec![9u8, 8, 7, 6, 5, 4]);
    assert_eq!(cat.defcon2024_fw, vec![0xAAu8; 10]);
    assert_eq!(cat.defcon2025_fw, vec![0x55u8; 3]);
}

#[test]
fn catalog_rejects_malformed_store() {
    let good = compressed(&[1u8, 2, 3]);
    assert!(Catalog::try_new(&good, &good, &good, &Vec::new()).is_none());
    assert!(Catalog::try_new(&vec![0u8, 1], &good, &good, &good).is_none());
}

#[test]
fn payload_for_dual_channel_kind() {
    let cat = sample_catalog();
    match cat.payload_for(DeviceType::Freewili) {
        Some(Uf2File::FreeWili(main, display)) => {
            assert_eq!(main, vec![1u8, 2, 3, 4]);
            assert_eq!(display, vec![9u8, 8, 7, 6, 5, 4]);
        }
        other => panic!("unexpected payload: {:?}", other),
    }
}

#[test]
fn payload_for_standalone_kinds() {
    let cat = sample_catalog();
    match cat.payload_for(DeviceType::Defcon2024Badge) {
        Some(Uf2File::Standalone(fw)) => assert_eq!(fw, vec![0xAAu8; 10]),
        other => panic!("unexpected payload: {:?}", other),
    }
    match cat.payload_for(DeviceType::Defcon2025FwBadge) {
        Some(Uf2File::Standalone(fw)) => assert_eq!(fw, vec![0x55u8; 3]),
        other => panic!("unexpected payload: {:?}", other),
    }
}

#[test]
fn payload_for_unflashable_kinds_is_none_on_every_call() {
    let cat = sample_catalog();
    for kind in [DeviceType::Unknown, DeviceType::Winky, DeviceType::Uf2] {
        assert!(cat.payload_for(kind).is_none());
        assert!(cat.payload_for(kind).is_none());
    }
}

#[test]
fn hint_resolves_only_the_ambiguous_kind() {
    assert_eq!(
        resolve_kind(DeviceType::Uf2, Some(DeviceType::Defcon2024Badge)),
        DeviceType::Defcon2024Badge
    );
    assert_eq!(resolve_kind(DeviceType::Uf2, None), DeviceType::Uf2);
    assert_eq!(
        resolve_kind(DeviceType::Freewili, Some(DeviceType::Defcon2024Badge)),
        DeviceType::Freewili
    );
    assert_eq!(resolve_kind(DeviceType::Winky, None), DeviceType::Winky);
}
