use mic_scan::classify::{
    classify_product, classify_vendor, ClassificationError, IdentifierAxis, ProductIdentifier,
    VendorIdentifier,
};

#[test]
fn vendor_table_exact() {
    assert_eq!(classify_vendor(0x0951), Ok(VendorIdentifier::NA));
    assert_eq!(classify_vendor(0x03f0), Ok(VendorIdentifier::EU));
}

#[test]
fn product_table_exact() {
    assert_eq!(classify_product(0x171f), Ok(ProductIdentifier::NA));
    assert_eq!(classify_product(0x0f8b), Ok(ProductIdentifier::EU1));
    assert_eq!(classify_product(0x028c), Ok(ProductIdentifier::EU2));
    assert_eq!(classify_product(0x048c), Ok(ProductIdentifier::EU3));
    assert_eq!(classify_product(0x068c), Ok(ProductIdentifier::EU4));
}

#[test]
fn vendor_rejects_every_unlisted_value() {
    for id in 0u32..=0xffff {
        let id = id as u16;
        if id == 0x0951 || id == 0x03f0 {
            continue;
        }
        assert_eq!(
            classify_vendor(id),
            Err(ClassificationError::UnrecognizedIdentifier(IdentifierAxis::Vendor))
        );
    }
}

#[test]
fn product_rejects_every_unlisted_value() {
    for id in 0u32..=0xffff {
        let id = id as u16;
        if id == 0x171f || id == 0x0f8b || id == 0x028c || id == 0x048c || id == 0x068c {
            continue;
        }
        assert_eq!(
            classify_product(id),
            Err(ClassificationError::UnrecognizedIdentifier(IdentifierAxis::Product))
        );
    }
}

#[test]
fn classification_is_deterministic() {
    for id in [0x0951u16, 0x03f0, 0x171f, 0x0f8b, 0x028c, 0x048c, 0x068c, 0x0000, 0x1234, 0xffff] {
        assert_eq!(classify_vendor(id), classify_vendor(id));
        assert_eq!(classify_product(id), classify_product(id));
    }
}
