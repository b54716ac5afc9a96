use crash_helper_common::helpers::{maybe_to_option_string, MaybeString};
use crash_helper_common::listener::rendezvous_name;
use crash_helper_common::messages::{
    decode_header, encode_header, validate_header, IPCHeader, MessageError, MAX_PAYLOAD_SIZE,
};
use crash_helper_common::transform::{
    GpuTransformId, TransformMetadata, TransformedRectKind, AXIS_ALIGNED_2D_BIT,
    SCALE_OFFSET_2D_BIT,
};

#[test]
fn header_encodes_to_exact_bytes() {
    let h = IPCHeader { kind: 7, size: 4 };
    let bytes = encode_header(&h);
    assert_eq!(bytes, vec![7, 0, 0, 0, 4, 0, 0, 0]);
}

#[test]
fn header_round_trip_is_exact() {
    let h = IPCHeader { kind: 0xDEAD_BEEF, size: 0x00FF_FFFF };
    let bytes = encode_header(&h);
    assert_eq!(bytes.len(), 8);
    let back = decode_header(&bytes);
    assert_eq!(back, h);
}

#[test]
fn header_decode_of_known_bytes() {
    let bytes = vec![0x01, 0x02, 0x03, 0x04, 0x10, 0x00, 0x00, 0x00];
    let h = decode_header(&bytes);
    assert_eq!(h.kind, 0x0403_0201);
    assert_eq!(h.size, 16);
}

#[test]
fn rendezvous_name_is_prefix_plus_decimal_pid() {
    assert_eq!(rendezvous_name(12345), b"crash-helper-12345".to_vec());
    assert_eq!(rendezvous_name(0), b"crash-helper-0".to_vec());
    assert_eq!(rendezvous_name(u32::MAX), b"crash-helper-4294967295".to_vec());
}

#[test]
fn maybe_string_valid_becomes_some() {
    let m = MaybeString { string: String::from("hello"), valid: true };
    assert_eq!(maybe_to_option_string(&m), Some(String::from("hello")));
}

#[test]
fn maybe_string_invalid_becomes_none() {
    let m = MaybeString { string: String::from("ignored"), valid: false };
    assert_eq!(maybe_to_option_string(&m), None);
}

#[test]
fn identity_transform_id_is_zero() {
    let id = GpuTransformId::identity();
    assert_eq!(id.0, 0);
    assert_eq!(id, GpuTransformId(0));
}

#[test]
fn header_within_cap_is_valid() {
    assert_eq!(validate_header(&IPCHeader { kind: 1, size: 0 }), Ok(()));
    assert_eq!(validate_header(&IPCHeader { kind: 1, size: MAX_PAYLOAD_SIZE }), Ok(()));
    assert_eq!(
        validate_header(&IPCHeader { kind: 1, size: MAX_PAYLOAD_SIZE + 1 }),
        Err(MessageError::OversizedPayload)
    );
}

#[test]
fn identity_transform_id_is_axis_aligned_scale_offset() {
    let id = GpuTransformId(0);
    assert_eq!(id.transform_kind(), TransformedRectKind::AxisAligned);
    assert!(id.is_2d_axis_aligned());
    assert!(id.is_2d_scale_offset());
}

#[test]
fn flag_bits_negate_properties() {
    let id = GpuTransformId(AXIS_ALIGNED_2D_BIT | SCALE_OFFSET_2D_BIT);
    assert_eq!(id.transform_kind(), TransformedRectKind::Complex);
    assert!(!id.is_2d_axis_aligned());
    assert!(!id.is_2d_scale_offset());
    let m = id.metadata();
    assert!(!m.is_2d_axis_aligned);
    assert!(!m.is_2d_scale_offset);
}

#[test]
fn invalid_metadata_contributes_no_flags() {
    let m = TransformMetadata::invalid();
    assert_eq!(m.flags(), 0);
}

#[test]
fn metadata_flags_set_bits_for_missing_properties() {
    let m = TransformMetadata { is_2d_axis_aligned: false, is_2d_scale_offset: false };
    assert_eq!(m.flags(), AXIS_ALIGNED_2D_BIT | SCALE_OFFSET_2D_BIT);
    let a = TransformMetadata { is_2d_axis_aligned: false, is_2d_scale_offset: true };
    assert_eq!(a.flags(), AXIS_ALIGNED_2D_BIT);
}

#[test]
fn override_transform_kind_sets_axis_bit() {
    let id = GpuTransformId(0);
    let complex = id.override_transform_kind(TransformedRectKind::Complex);
    assert_eq!(complex.0, AXIS_ALIGNED_2D_BIT);
    let back = complex.override_transform_kind(TransformedRectKind::AxisAligned);
    assert_eq!(back.0 & AXIS_ALIGNED_2D_BIT, AXIS_ALIGNED_2D_BIT);
}
